//! tmux command lines and the session listing it prints.
use crate::text::{chars_of, lemma_trim_idempotent, lines, owned, split_lines, string_of, string_views, trim, trim_chars, views};
use vstd::prelude::*;

verus! {

pub fn new_session_args(name: &str) -> (r: Vec<String>)
    ensures
        string_views(r@) == seq!["new-session"@, "-d"@, "-s"@, name@],
{
    let r = vec![owned("new-session"), owned("-d"), owned("-s"), owned(name)];
    assert(string_views(r@) =~= seq!["new-session"@, "-d"@, "-s"@, name@]);
    r
}

pub fn list_sessions_args() -> (r: Vec<String>)
    ensures
        string_views(r@) == seq!["list-sessions"@, "-F"@, "#S"@],
{
    let r = vec![owned("list-sessions"), owned("-F"), owned("#S")];
    assert(string_views(r@) =~= seq!["list-sessions"@, "-F"@, "#S"@]);
    r
}

/// The trimmed lines that are not blank, in order.
pub open spec fn nonblank_trimmed(ls: Seq<Seq<char>>) -> Seq<Seq<char>>
    decreases ls.len(),
{
    if ls.len() == 0 {
        Seq::empty()
    } else {
        let prev = nonblank_trimmed(ls.drop_last());
        if trim(ls.last()).len() > 0 {
            prev.push(trim(ls.last()))
        } else {
            prev
        }
    }
}

/// Law: a parsed session name is never blank and has no blanks around it.
pub proof fn lemma_parsed_names_are_clean(ls: Seq<Seq<char>>)
    ensures
        forall|i: int|
            0 <= i < nonblank_trimmed(ls).len() ==> #[trigger] nonblank_trimmed(ls)[i].len() > 0
                && trim(nonblank_trimmed(ls)[i]) == nonblank_trimmed(ls)[i],
    decreases ls.len(),
{
    if ls.len() > 0 {
        let prev = nonblank_trimmed(ls.drop_last());
        let r = nonblank_trimmed(ls);
        lemma_parsed_names_are_clean(ls.drop_last());
        lemma_trim_idempotent(ls.last());
        assert forall|i: int| 0 <= i < r.len() implies #[trigger] r[i].len() > 0 && trim(r[i]) == r[i] by {
            if i < prev.len() {
                assert(r[i] == prev[i]);
            } else {
                assert(r[i] == trim(ls.last()));
            }
        }
    }
}

/// A line of the listing that names a session: one that is not blank.
pub open spec fn names_session(line: Seq<char>) -> bool {
    trim(line).len() > 0
}

/// Law: the session names are exactly the listing's non-blank lines,
/// trimmed, each once and in order, whatever characters they hold.
pub proof fn lemma_names_are_nonblank_lines(ls: Seq<Seq<char>>)
    ensures
        nonblank_trimmed(ls) == ls.filter(|l: Seq<char>| names_session(l)).map_values(|l: Seq<char>| trim(l)),
    decreases ls.len(),
{
    reveal(Seq::filter);
    let p = |l: Seq<char>| names_session(l);
    if ls.len() > 0 {
        lemma_names_are_nonblank_lines(ls.drop_last());
        let before = ls.drop_last().filter(p);
        if names_session(ls.last()) {
            assert(ls.filter(p) == before.push(ls.last()));
            assert(before.push(ls.last()).map_values(|l: Seq<char>| trim(l)) =~= before.map_values(
                |l: Seq<char>| trim(l),
            ).push(trim(ls.last())));
        } else {
            assert(ls.filter(p) == before);
        }
    } else {
        assert(ls.filter(p).map_values(|l: Seq<char>| trim(l)) =~= Seq::<Seq<char>>::empty());
    }
}

/// Law: every non-blank line of the listing is among the session names,
/// trimmed; and every session name is a non-blank line, trimmed.
pub proof fn lemma_every_nonblank_line_is_a_session(ls: Seq<Seq<char>>)
    ensures
        forall|i: int| 0 <= i < ls.len() && #[trigger] trim(ls[i]).len() > 0 ==> nonblank_trimmed(ls).contains(trim(ls[i])),
        forall|j: int| 0 <= j < nonblank_trimmed(ls).len() ==> exists|i: int| 0 <= i < ls.len() && trim(ls[i]).len() > 0 && #[trigger] nonblank_trimmed(ls)[j] == trim(ls[i]),
    decreases ls.len(),
{
    if ls.len() > 0 {
        let prev = ls.drop_last();
        lemma_every_nonblank_line_is_a_session(prev);
        let r = nonblank_trimmed(ls);
        let q = nonblank_trimmed(prev);
        assert forall|i: int| 0 <= i < ls.len() && #[trigger] trim(ls[i]).len() > 0 implies r.contains(trim(ls[i])) by {
            if i < prev.len() {
                assert(prev[i] == ls[i]);
                assert(trim(prev[i]).len() > 0);
                let k = choose|k: int| 0 <= k < q.len() && q[k] == trim(prev[i]);
                assert(r[k] == q[k]);
            } else {
                assert(r[r.len() - 1] == trim(ls.last()));
            }
        }
        assert forall|j: int| 0 <= j < r.len() implies exists|i: int| 0 <= i < ls.len() && trim(ls[i]).len() > 0 && #[trigger] r[j] == trim(ls[i]) by {
            if j < q.len() {
                assert(r[j] == q[j]);
                let i = choose|i: int| 0 <= i < prev.len() && trim(prev[i]).len() > 0 && q[j] == trim(prev[i]);
                assert(ls[i] == prev[i]);
            } else {
                assert(r[j] == trim(ls[ls.len() - 1]));
            }
        }
    }
}

/// The session names that `tmux list-sessions -F '#S'` printed: one per
/// line, trimmed, blank lines skipped.
pub fn parse_sessions(stdout: &str) -> (r: Vec<String>)
    ensures
        string_views(r@) == nonblank_trimmed(lines(stdout@)),
{
    let text = chars_of(stdout);
    let ls = split_lines(&text);
    let ghost lv = views(ls@);
    let mut names: Vec<String> = Vec::new();
    let mut i: usize = 0;
    while i < ls.len()
        invariant
            i <= ls.len(),
            lv == views(ls@),
            string_views(names@) == nonblank_trimmed(lv.take(i as int)),
        decreases ls.len() - i,
    {
        assert(lv.take(i + 1).drop_last() =~= lv.take(i as int));
        assert(lv[i as int] == ls@[i as int]@);
        let t = trim_chars(&ls[i]);
        if t.len() > 0 {
            names.push(string_of(&t));
            assert(string_views(names@) =~= nonblank_trimmed(lv.take(i as int)).push(t@));
        }
        i = i + 1;
    }
    assert(lv.take(ls.len() as int) =~= lv);
    names
}

} // verus!
