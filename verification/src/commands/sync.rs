//! Adding and inspecting sync pairs.
use crate::error::Error;
use crate::model::config::{pair_views, ClientConfig, ClientConfigView, Config, ConfigView, SyncPairConfig, SyncPairView};
use crate::process::runner::{failed_with, ran, ran_ok, run_checked, succeeded, Output, Recorder, Runner};
use crate::sync::service::build_pair;
use crate::text::{str_eq, string_views};
use crate::tooling::mutagen::{build_create_args, list_args, SYNC_MODE_TWO_WAY_RESOLVED};
use vstd::prelude::*;

verus! {

/// The index of the first pair named `name`, or -1 when there is none.
pub open spec fn first_named(pairs: Seq<SyncPairView>, name: Seq<char>) -> int
    decreases pairs.len(),
{
    if pairs.len() == 0 {
        -1
    } else {
        let k = first_named(pairs.drop_last(), name);
        if k >= 0 {
            k
        } else if pairs.last().name == name {
            pairs.len() - 1
        } else {
            -1
        }
    }
}

/// The pairs with `p` in place of the first pair of its name, or added at
/// the end when no pair has its name.
pub open spec fn upserted(pairs: Seq<SyncPairView>, p: SyncPairView) -> Seq<SyncPairView> {
    let k = first_named(pairs, p.name);
    if k >= 0 {
        pairs.update(k, p)
    } else {
        pairs.push(p)
    }
}

pub open spec fn with_pairs(config: ConfigView, pairs: Seq<SyncPairView>) -> ConfigView {
    ConfigView { client: Some(ClientConfigView { sync_pairs: pairs, ..config.client->0 }), ..config }
}

pub open spec fn create_pair_view(name: Seq<char>, local: Seq<char>, remote: Seq<char>) -> Seq<Seq<char>> {
    seq!["sync"@, "create"@, "--name"@, name, "--sync-mode"@, SYNC_MODE_TWO_WAY_RESOLVED@, local, remote]
}

pub open spec fn list_view() -> Seq<Seq<char>> {
    seq!["sync"@, "list"@]
}

pub const ADD_NEEDS_CLIENT: &'static str = "sync add requires client config; run `eternalMac setup client` on this machine first";

pub fn copy_pair(p: &SyncPairConfig) -> (r: SyncPairConfig)
    ensures
        r@ == p@,
{
    SyncPairConfig { name: p.name.clone(), local: p.local.clone(), remote: p.remote.clone(), mode: p.mode.clone() }
}

proof fn lemma_first_named(pairs: Seq<SyncPairView>, name: Seq<char>)
    ensures
        -1 <= first_named(pairs, name) < pairs.len(),
        first_named(pairs, name) >= 0 ==> pairs[first_named(pairs, name)].name == name,
        first_named(pairs, name) >= 0 ==> forall|j: int| 0 <= j < first_named(pairs, name) ==> pairs[j].name != name,
        first_named(pairs, name) < 0 ==> forall|j: int| 0 <= j < pairs.len() ==> pairs[j].name != name,
    decreases pairs.len(),
{
    if pairs.len() > 0 {
        let prev = pairs.drop_last();
        lemma_first_named(prev, name);
        assert(forall|j: int| 0 <= j < prev.len() ==> prev[j] == pairs[j]);
    }
}

/// Puts `pair` into the client's pairs in place of the first pair of its
/// name, or at the end.
fn upsert_pair(pairs: &mut Vec<SyncPairConfig>, pair: SyncPairConfig)
    ensures
        pair_views(final(pairs)@) == upserted(pair_views(old(pairs)@), pair@),
{
    let ghost all = pair_views(pairs@);
    proof {
        lemma_first_named(all, pair@.name);
    }
    let mut i: usize = 0;
    while i < pairs.len()
        invariant
            i <= pairs.len(),
            all == pair_views(pairs@),
            all == pair_views(old(pairs)@),
            forall|j: int| 0 <= j < i ==> all[j].name != pair@.name,
        decreases pairs.len() - i,
    {
        assert(all[i as int] == pairs@[i as int]@);
        if str_eq(pairs[i].name.as_str(), pair.name.as_str()) {
            proof {
                lemma_first_named(all, pair@.name);
            }
            assert(first_named(all, pair@.name) == i);
            let ghost p = pair@;
            pairs.set(i, pair);
            assert(pair_views(pairs@) =~= all.update(i as int, p));
            assert(upserted(all, p) == all.update(i as int, p));
            assert(all == pair_views(old(pairs)@));
            return;
        }
        i = i + 1;
    }
    proof {
        lemma_first_named(all, pair@.name);
    }
    assert(first_named(all, pair@.name) < 0);
    let ghost p = pair@;
    pairs.push(pair);
    assert(pair_views(pairs@) =~= all.push(p));
}

/// Creates the sync with Mutagen, then records the pair in the loaded
/// client configuration, replacing a pair of the same name.  Gives the
/// configuration to store and the pair.  Nothing is recorded when the
/// creation fails.
pub fn add_with<R: Runner>(loaded: Result<Config, Error>, rec: &mut Recorder<R>, name: &str, local: &str, remote: &str) -> (res: Result<(Config, SyncPairConfig), Error>)
    ensures
        ran(*old(rec), *final(rec), seq![("mutagen"@, create_pair_view(name@, local@, remote@))]),
        match res {
            Ok((config, pair)) => {
                &&& succeeded(old(rec).runner(), "mutagen"@, create_pair_view(name@, local@, remote@))
                &&& pair@ == (SyncPairView { name: name@, local: local@, remote: remote@, mode: SYNC_MODE_TWO_WAY_RESOLVED@ })
                &&& loaded is Ok && loaded->Ok_0.client is Some
                &&& config@ == with_pairs(
                    loaded->Ok_0@,
                    upserted(pair_views(loaded->Ok_0.client->0.sync_pairs@), pair@),
                )
            },
            Err(e) => {
                ||| failed_with(old(rec).runner(), "mutagen"@, create_pair_view(name@, local@, remote@), e)
                ||| succeeded(old(rec).runner(), "mutagen"@, create_pair_view(name@, local@, remote@)) && match loaded {
                    Err(x) => e.message@ == x.message@,
                    Ok(c) => c.client is None && e.message@ == ADD_NEEDS_CLIENT@,
                }
            },
        },
{
    let pair = build_pair(name, local, remote, None);
    let args = build_create_args(pair.name.as_str(), pair.local.as_str(), pair.remote.as_str());
    if let Err(e) = run_checked(rec, "mutagen", &args) {
        return Err(e);
    }
    let mut config = match loaded {
        Err(e) => {
            return Err(e);
        },
        Ok(c) => c,
    };
    let ghost before = config@;
    match config.client.take() {
        None => Err(Error::msg(ADD_NEEDS_CLIENT)),
        Some(c) => {
            let ClientConfig { paired_server, server_ssh_user, server_etterminal_path, pinned, sync_pairs } = c;
            let mut sync_pairs = sync_pairs;
            let sync_pair = SyncPairConfig { name: pair.name, local: pair.local, remote: pair.remote, mode: pair.mode };
            let stored = copy_pair(&sync_pair);
            upsert_pair(&mut sync_pairs, stored);
            config.client = Some(
                ClientConfig { paired_server, server_ssh_user, server_etterminal_path, pinned, sync_pairs },
            );
            Ok((config, sync_pair))
        },
    }
}

/// What `mutagen sync list` prints.
pub fn list_with<R: Runner>(rec: &mut Recorder<R>) -> (res: Result<String, Error>)
    ensures
        ran(*old(rec), *final(rec), seq![("mutagen"@, list_view())]),
        match res {
            Ok(s) => exists|out: Output| ran_ok(old(rec).runner(), "mutagen"@, list_view(), out) && #[trigger] s@ == out.stdout@,
            Err(e) => failed_with(old(rec).runner(), "mutagen"@, list_view(), e),
        },
{
    let args = list_args();
    assert(string_views(args@) == list_view());
    match run_checked(rec, "mutagen", &args) {
        Ok(out) => Ok(out.stdout),
        Err(e) => Err(e),
    }
}

/// What `mutagen sync list` prints, which shows each sync's status.
pub fn status_with<R: Runner>(rec: &mut Recorder<R>) -> (res: Result<String, Error>)
    ensures
        ran(*old(rec), *final(rec), seq![("mutagen"@, list_view())]),
        match res {
            Ok(s) => exists|out: Output| ran_ok(old(rec).runner(), "mutagen"@, list_view(), out) && #[trigger] s@ == out.stdout@,
            Err(e) => failed_with(old(rec).runner(), "mutagen"@, list_view(), e),
        },
{
    let args = list_args();
    assert(string_views(args@) == list_view());
    match run_checked(rec, "mutagen", &args) {
        Ok(out) => Ok(out.stdout),
        Err(e) => Err(e),
    }
}

/// No two pairs share a name.
pub open spec fn names_unique(pairs: Seq<SyncPairView>) -> bool {
    forall|i: int, j: int| 0 <= i < j < pairs.len() ==> pairs[i].name != pairs[j].name
}

/// Law: adding a pair keeps at most one pair per name, and the added pair
/// is then the pair of its name.
pub proof fn lemma_upsert_one_per_name(pairs: Seq<SyncPairView>, p: SyncPairView)
    requires
        names_unique(pairs),
    ensures
        names_unique(upserted(pairs, p)),
        upserted(pairs, p).contains(p),
{
    lemma_first_named(pairs, p.name);
    let k = first_named(pairs, p.name);
    let u = upserted(pairs, p);
    if k >= 0 {
        assert(u[k] == p);
    } else {
        assert(u[pairs.len() as int] == p);
    }
    assert forall|i: int, j: int| 0 <= i < j < u.len() implies u[i].name != u[j].name by {
        if k >= 0 {
            if i == k {
                assert(pairs[k].name == p.name);
            } else if j == k {
                assert(pairs[k].name == p.name);
            }
        } else if j == pairs.len() {
            assert(pairs[i].name != p.name);
        }
    }
}

} // verus!
