//! Homebrew command lines.
use crate::text::{owned, string_views};
use vstd::prelude::*;

verus! {

pub fn install_formula_args(packages: &[String]) -> (r: Vec<String>)
    ensures
        string_views(r@) == seq!["install"@] + string_views(packages@),
{
    let mut args = vec![owned("install")];
    let mut i: usize = 0;
    while i < packages.len()
        invariant
            i <= packages.len(),
            string_views(args@) == seq!["install"@] + string_views(packages@).take(i as int),
        decreases packages.len() - i,
    {
        let ghost before = string_views(args@);
        let item = packages[i].clone();
        assert(item@ == string_views(packages@)[i as int]);
        args.push(item);
        assert(string_views(args@) =~= before.push(item@));
        assert(string_views(packages@).take(i + 1) =~= string_views(packages@).take(i as int).push(item@));
        i = i + 1;
        assert(string_views(args@) =~= seq!["install"@] + string_views(packages@).take(i as int));
    }
    assert(string_views(packages@).take(packages.len() as int) =~= string_views(packages@));
    args
}

pub fn install_cask_args(cask: &str) -> (r: Vec<String>)
    ensures
        string_views(r@) == seq!["install"@, "--cask"@, cask@],
{
    let r = vec![owned("install"), owned("--cask"), owned(cask)];
    assert(string_views(r@) =~= seq!["install"@, "--cask"@, cask@]);
    r
}

pub fn tap_args(tap: &str) -> (r: Vec<String>)
    ensures
        string_views(r@) == seq!["tap"@, tap@],
{
    let r = vec![owned("tap"), owned(tap)];
    assert(string_views(r@) =~= seq!["tap"@, tap@]);
    r
}

} // verus!
