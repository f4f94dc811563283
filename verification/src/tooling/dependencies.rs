//! Which tools a machine needs, and which of them are missing.
use crate::text::{owned, str_eq, string_views};
use vstd::prelude::*;

verus! {

/// The Homebrew tap that provides Mutagen.
pub const MUTAGEN_TAP: &'static str = "mutagen-io/mutagen";

/// The Homebrew cask of the Tailscale app.
pub const TAILSCALE_CASK: &'static str = "tailscale-app";

/// The Homebrew formulae that both roles install.
pub fn required_formulae() -> (r: Vec<String>)
    ensures
        string_views(r@) == seq!["et"@, "tmux"@, "mutagen-io/mutagen/mutagen"@],
{
    let r = vec![owned("et"), owned("tmux"), owned("mutagen-io/mutagen/mutagen")];
    assert(string_views(r@) =~= seq!["et"@, "tmux"@, "mutagen-io/mutagen/mutagen"@]);
    r
}

/// What is known about installed tools: for each name the answer recorded
/// last.
#[derive(Debug, Clone)]
pub struct Inspector {
    installed: Vec<(String, bool)>,
}

/// The answer recorded last for `name` among `entries`.
pub open spec fn last_answer(entries: Seq<(Seq<char>, bool)>, name: Seq<char>) -> Option<bool>
    decreases entries.len(),
{
    if entries.len() == 0 {
        None
    } else if entries.last().0 == name {
        Some(entries.last().1)
    } else {
        last_answer(entries.drop_last(), name)
    }
}

impl Inspector {
    pub closed spec fn entries(&self) -> Seq<(Seq<char>, bool)> {
        self.installed@.map_values(|e: (String, bool)| (e.0@, e.1))
    }

    /// Whether `name` counts as installed.
    pub open spec fn installed(&self, name: Seq<char>) -> bool {
        last_answer(self.entries(), name) == Some(true)
    }

    pub fn from_installed<const N: usize>(items: [(&str, bool); N]) -> (r: Self)
        ensures
            r.entries() == items@.map_values(|e: (&str, bool)| (e.0@, e.1)),
    {
        let ghost want = items@.map_values(|e: (&str, bool)| (e.0@, e.1));
        let mut installed: Vec<(String, bool)> = Vec::new();
        let mut i: usize = 0;
        while i < N
            invariant
                i <= N,
                items@.len() == N,
                want == items@.map_values(|e: (&str, bool)| (e.0@, e.1)),
                installed@.map_values(|e: (String, bool)| (e.0@, e.1)) == want.take(i as int),
            decreases N - i,
        {
            let ghost before = installed@.map_values(|e: (String, bool)| (e.0@, e.1));
            let (name, value) = items[i];
            assert(items@[i as int] == (name, value));
            let entry = (owned(name), value);
            installed.push(entry);
            assert(installed@.map_values(|e: (String, bool)| (e.0@, e.1)) =~= before.push((name@, value)));
            assert(want.take(i + 1) =~= want.take(i as int).push((name@, value)));
            i = i + 1;
            assert(installed@.map_values(|e: (String, bool)| (e.0@, e.1)) =~= want.take(i as int));
        }
        assert(want.take(N as int) =~= want);
        Inspector { installed }
    }

    pub fn has(&self, name: &str) -> (r: bool)
        ensures
            r == self.installed(name@),
    {
        let ghost es = self.entries();
        let mut i: usize = self.installed.len();
        assert(es.take(i as int) =~= es);
        while i > 0
            invariant
                i <= self.installed.len(),
                es == self.entries(),
                last_answer(es, name@) == last_answer(es.take(i as int), name@),
            decreases i,
        {
            assert(es.take(i as int).drop_last() =~= es.take(i - 1));
            let entry = &self.installed[i - 1];
            assert(es[i - 1] == (entry.0@, entry.1));
            if str_eq(entry.0.as_str(), name) {
                return entry.1;
            }
            i = i - 1;
        }
        false
    }
}

#[derive(Debug, Clone, PartialEq, Eq)]
pub struct DependencyPlan {
    pub formulae: Vec<String>,
    pub casks: Vec<String>,
}

/// `name` when it is not installed, else nothing.
pub open spec fn if_missing(inspector: Inspector, name: Seq<char>) -> Seq<Seq<char>> {
    if inspector.installed(name) {
        Seq::empty()
    } else {
        seq![name]
    }
}

fn push_if_missing(list: &mut Vec<String>, inspector: &Inspector, name: &str)
    ensures
        string_views(final(list)@) == string_views(old(list)@) + if_missing(*inspector, name@),
{
    let ghost before = string_views(list@);
    if !inspector.has(name) {
        list.push(owned(name));
    }
    assert(string_views(list@) =~= before + if_missing(*inspector, name@));
}

/// The formulae and casks that still have to be installed, in a fixed order.
pub fn build_dependency_plan(inspector: &Inspector) -> (r: DependencyPlan)
    ensures
        string_views(r.formulae@) == if_missing(*inspector, "et"@) + if_missing(*inspector, "tmux"@)
            + if_missing(*inspector, "mutagen"@),
        string_views(r.casks@) == if_missing(*inspector, "tailscale-app"@),
{
    let mut formulae: Vec<String> = Vec::new();
    assert(string_views(formulae@) =~= Seq::<Seq<char>>::empty());
    push_if_missing(&mut formulae, inspector, "et");
    push_if_missing(&mut formulae, inspector, "tmux");
    push_if_missing(&mut formulae, inspector, "mutagen");
    let mut casks: Vec<String> = Vec::new();
    assert(string_views(casks@) =~= Seq::<Seq<char>>::empty());
    push_if_missing(&mut casks, inspector, "tailscale-app");
    assert(string_views(casks@) =~= if_missing(*inspector, "tailscale-app"@));
    DependencyPlan { formulae, casks }
}

} // verus!
