//! The pinned sessions of a client: the sessions it attaches to on its own.
use crate::process::runner::contains_string;
use crate::text::{owned, str_eq, string_views};
use vstd::prelude::*;

verus! {

/// The pinned list with `name` added at the end unless it is already there.
pub open spec fn pinned_with(v: Seq<Seq<char>>, name: Seq<char>) -> Seq<Seq<char>> {
    if v.contains(name) {
        v
    } else {
        v.push(name)
    }
}

/// The pinned list with every occurrence of `name` removed, order kept.
pub open spec fn pinned_without(v: Seq<Seq<char>>, name: Seq<char>) -> Seq<Seq<char>>
    decreases v.len(),
{
    if v.len() == 0 {
        Seq::empty()
    } else if v.last() == name {
        pinned_without(v.drop_last(), name)
    } else {
        pinned_without(v.drop_last(), name).push(v.last())
    }
}

pub fn pin(pinned: Vec<String>, name: &str) -> (r: Vec<String>)
    ensures
        string_views(r@) == pinned_with(string_views(pinned@), name@),
{
    let mut pinned = pinned;
    if !contains_string(&pinned, name) {
        let ghost before = string_views(pinned@);
        pinned.push(owned(name));
        assert(string_views(pinned@) =~= before.push(name@));
    }
    pinned
}

pub fn unpin(pinned: Vec<String>, name: &str) -> (r: Vec<String>)
    ensures
        string_views(r@) == pinned_without(string_views(pinned@), name@),
{
    let ghost all = string_views(pinned@);
    let mut kept: Vec<String> = Vec::new();
    let mut i: usize = 0;
    while i < pinned.len()
        invariant
            i <= pinned.len(),
            all == string_views(pinned@),
            string_views(kept@) == pinned_without(all.take(i as int), name@),
        decreases pinned.len() - i,
    {
        assert(all.take(i + 1).drop_last() =~= all.take(i as int));
        assert(all[i as int] == pinned@[i as int]@);
        if !str_eq(pinned[i].as_str(), name) {
            let ghost before = string_views(kept@);
            kept.push(pinned[i].clone());
            assert(string_views(kept@) =~= before.push(all[i as int]));
        }
        i = i + 1;
    }
    assert(all.take(pinned.len() as int) =~= all);
    kept
}

/// Law: pinning twice pins once.
pub proof fn lemma_pin_idempotent(v: Seq<Seq<char>>, name: Seq<char>)
    ensures
        pinned_with(pinned_with(v, name), name) == pinned_with(v, name),
        pinned_with(v, name).contains(name),
{
    if !v.contains(name) {
        assert(v.push(name)[v.len() as int] == name);
    }
}

/// Law: after unpinning, the name is pinned nowhere, and every other pinned
/// name is still pinned.
pub proof fn lemma_unpin_removes_only_name(v: Seq<Seq<char>>, name: Seq<char>)
    ensures
        !pinned_without(v, name).contains(name),
        forall|x: Seq<char>| x != name ==> (v.contains(x) <==> pinned_without(v, name).contains(x)),
    decreases v.len(),
{
    if v.len() > 0 {
        let prev = v.drop_last();
        let w = pinned_without(v, name);
        let pw = pinned_without(prev, name);
        lemma_unpin_removes_only_name(prev, name);
        assert forall|x: Seq<char>| x != name implies (v.contains(x) <==> w.contains(x)) by {
            if v.contains(x) {
                let k = choose|k: int| 0 <= k < v.len() && v[k] == x;
                if k < v.len() - 1 {
                    assert(prev[k] == x);
                    assert(prev.contains(x));
                    assert(pw.contains(x));
                    let j = choose|j: int| 0 <= j < pw.len() && pw[j] == x;
                    if v.last() != name {
                        assert(w[j] == x);
                    }
                    assert(w.contains(x));
                } else {
                    assert(v.last() == x);
                    assert(w == pw.push(x));
                    assert(w[pw.len() as int] == x);
                }
            }
            if w.contains(x) {
                let j = choose|j: int| 0 <= j < w.len() && w[j] == x;
                if v.last() == name {
                    assert(pw.contains(x));
                } else if j < pw.len() {
                    assert(pw[j] == x);
                    assert(pw.contains(x));
                } else {
                    assert(v[v.len() - 1] == x);
                }
                if pw.contains(x) {
                    assert(prev.contains(x));
                    let k = choose|k: int| 0 <= k < prev.len() && prev[k] == x;
                    assert(v[k] == x);
                }
            }
        }
        if w.contains(name) {
            let j = choose|j: int| 0 <= j < w.len() && w[j] == name;
            if v.last() == name {
                assert(pw.contains(name));
            } else if j < pw.len() {
                assert(pw[j] == name);
                assert(pw.contains(name));
            } else {
                assert(w[j] == v.last());
            }
        }
    }
}

/// Law: unpinning undoes pinning: whatever was pinned before, pinning a name
/// and then unpinning it leaves the same list as unpinning it alone.
pub proof fn lemma_unpin_after_pin(v: Seq<Seq<char>>, name: Seq<char>)
    ensures
        pinned_without(pinned_with(v, name), name) == pinned_without(v, name),
{
    if !v.contains(name) {
        assert(v.push(name).drop_last() =~= v);
    }
}

} // verus!
