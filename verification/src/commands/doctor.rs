//! Local health checks: what is missing or wrong on this machine and how to
//! restore it.
use crate::model::config::Role;
use crate::model::state::{State, SyncPairState};
use crate::text::{owned, str_eq};
use vstd::prelude::*;

verus! {

pub const CONFIG_MISSING: &'static str = "config missing: run `eternalMac setup server` or `eternalMac setup client`";

pub const SERVER_STATE_MISSING: &'static str = "state missing: re-run `eternalMac setup server` to restore local state";

pub const CLIENT_STATE_MISSING: &'static str = "state missing: re-run `eternalMac setup client` to restore local state";

pub const SERVER_ROLE_MISMATCH: &'static str = "role mismatch: this machine is configured as a server but its state was recorded as a client; re-run `eternalMac setup server`";

pub const CLIENT_ROLE_MISMATCH: &'static str = "role mismatch: this machine is configured as a client but its state was recorded as a server; re-run `eternalMac setup client`";

pub const SERVER_STATE_STALE: &'static str = "daemon state stale: the server daemon has not recorded a healthy round recently; check its launch agent or re-run `eternalMac setup server`";

pub const CLIENT_STATE_STALE: &'static str = "daemon state stale: the client daemon has not recorded a healthy round recently; check its launch agent or re-run `eternalMac setup client`";

/// How old the daemon's last heartbeat may be before its state counts as
/// stale: three of its thirty-second rounds.
pub const STALE_AFTER_SECONDS: i64 = 90;

pub open spec fn state_missing(role: Role) -> Seq<char> {
    match role {
        Role::Server => SERVER_STATE_MISSING@,
        Role::Client => CLIENT_STATE_MISSING@,
    }
}

pub open spec fn role_mismatch(role: Role) -> Seq<char> {
    match role {
        Role::Server => SERVER_ROLE_MISMATCH@,
        Role::Client => CLIENT_ROLE_MISMATCH@,
    }
}

pub open spec fn state_stale(role: Role) -> Seq<char> {
    match role {
        Role::Server => SERVER_STATE_STALE@,
        Role::Client => CLIENT_STATE_STALE@,
    }
}

/// The daemon has not recorded a healthy round, or its last heartbeat is
/// older than the limit at time `now`.
pub open spec fn is_stale(state: State, now: int) -> bool {
    !state.daemon_healthy || now - state.daemon_heartbeat_unix > STALE_AFTER_SECONDS
}

/// A sync status that the client daemon records for a sync that is not
/// running as it should.
pub open spec fn is_degraded_status(status: Seq<char>) -> bool {
    status == "degraded"@ || status == "missing"@
}

pub open spec fn sync_degraded(name: Seq<char>, status: Seq<char>) -> Seq<char> {
    "sync degraded: "@ + name + " is "@ + status + "; run `eternalMac sync status`"@
}

/// One finding per degraded sync, in the order of the syncs.
pub open spec fn degraded_findings(syncs: Seq<SyncPairState>) -> Seq<Seq<char>>
    decreases syncs.len(),
{
    if syncs.len() == 0 {
        Seq::empty()
    } else {
        let last = syncs.last();
        degraded_findings(syncs.drop_last()) + if is_degraded_status(last.status@) {
            seq![sync_degraded(last.name@, last.status@)]
        } else {
            Seq::<Seq<char>>::empty()
        }
    }
}

/// What the health check reports, given the role of the configuration that
/// could be read (none when there is none), the state that could be read,
/// and the time: without configuration, only that; without state, only
/// that, with the setup command of the configured role; otherwise a state
/// recorded for the other role, a stale daemon, and each degraded sync.
pub open spec fn findings(config_role: Option<Role>, state: Option<State>, now: int) -> Seq<Seq<char>> {
    match config_role {
        None => seq![CONFIG_MISSING@],
        Some(role) => match state {
            None => seq![state_missing(role)],
            Some(s) => (if s.role != role {
                seq![role_mismatch(role)]
            } else {
                Seq::<Seq<char>>::empty()
            }) + (if is_stale(s, now) {
                seq![state_stale(role)]
            } else {
                Seq::<Seq<char>>::empty()
            }) + degraded_findings(s.syncs@),
        },
    }
}

/// Law: when configuration and state are both there and the state was
/// recorded for the other role, the findings start with the role mismatch
/// of the configured role, for either role; when the roles agree, no role
/// mismatch is reported.
pub proof fn lemma_role_mismatch_comes_first(role: Role, state: State, now: int)
    ensures
        state.role != role ==> {
            let f = findings(Some(role), Some(state), now);
            &&& f.len() >= 1
            &&& f[0] == match role {
                Role::Server => SERVER_ROLE_MISMATCH@,
                Role::Client => CLIENT_ROLE_MISMATCH@,
            }
        },
        state.role == role ==> !findings(Some(role), Some(state), now).contains(SERVER_ROLE_MISMATCH@)
            && !findings(Some(role), Some(state), now).contains(CLIENT_ROLE_MISMATCH@),
{
    let f = findings(Some(role), Some(state), now);
    if state.role == role {
        reveal_strlit("sync degraded: ");
        reveal_strlit("role mismatch: this machine is configured as a server but its state was recorded as a client; re-run `eternalMac setup server`");
        reveal_strlit("role mismatch: this machine is configured as a client but its state was recorded as a server; re-run `eternalMac setup client`");
        reveal_strlit("daemon state stale: the server daemon has not recorded a healthy round recently; check its launch agent or re-run `eternalMac setup server`");
        reveal_strlit("daemon state stale: the client daemon has not recorded a healthy round recently; check its launch agent or re-run `eternalMac setup client`");
        lemma_degraded_findings_are_sync_lines(state.syncs@);
        let stale = if is_stale(state, now) {
            seq![state_stale(role)]
        } else {
            Seq::<Seq<char>>::empty()
        };
        let d = degraded_findings(state.syncs@);
        assert(f =~= Seq::<Seq<char>>::empty() + stale + d);
        assert forall|i: int| 0 <= i < f.len() implies #[trigger] f[i][0] != 'r' by {
            if i < stale.len() {
                assert(f[i] == state_stale(role));
            } else {
                assert(f[i] == d[i - stale.len()]);
            }
        }
        if f.contains(SERVER_ROLE_MISMATCH@) {
            let i = choose|i: int| 0 <= i < f.len() && f[i] == SERVER_ROLE_MISMATCH@;
            assert(f[i][0] != 'r');
        }
        if f.contains(CLIENT_ROLE_MISMATCH@) {
            let i = choose|i: int| 0 <= i < f.len() && f[i] == CLIENT_ROLE_MISMATCH@;
            assert(f[i][0] != 'r');
        }
    }
}

/// Each finding about a sync begins with `s`, the first letter of "sync".
proof fn lemma_degraded_findings_are_sync_lines(syncs: Seq<SyncPairState>)
    ensures
        forall|i: int| 0 <= i < degraded_findings(syncs).len() ==> #[trigger] degraded_findings(syncs)[i].len() > 0
            && degraded_findings(syncs)[i][0] == 's',
    decreases syncs.len(),
{
    reveal_strlit("sync degraded: ");
    if syncs.len() > 0 {
        lemma_degraded_findings_are_sync_lines(syncs.drop_last());
        let prev = degraded_findings(syncs.drop_last());
        let all = degraded_findings(syncs);
        assert forall|i: int| 0 <= i < all.len() implies #[trigger] all[i].len() > 0 && all[i][0] == 's' by {
            if i < prev.len() {
                assert(all[i] == prev[i]);
            } else {
                let last = syncs.last();
                assert(all[i] == sync_degraded(last.name@, last.status@));
            }
        }
    }
}

/// Each degraded sync has its line among the sync findings, and with no
/// degraded sync there is none.
proof fn lemma_degraded_findings_cover(syncs: Seq<SyncPairState>)
    ensures
        forall|i: int| 0 <= i < syncs.len() && is_degraded_status(#[trigger] syncs[i].status@) ==> degraded_findings(syncs).contains(
            sync_degraded(syncs[i].name@, syncs[i].status@),
        ),
        (forall|i: int| 0 <= i < syncs.len() ==> !is_degraded_status(#[trigger] syncs[i].status@)) ==> degraded_findings(syncs).len() == 0,
    decreases syncs.len(),
{
    if syncs.len() > 0 {
        let prev = syncs.drop_last();
        lemma_degraded_findings_cover(prev);
        let all = degraded_findings(syncs);
        let q = degraded_findings(prev);
        assert forall|i: int| 0 <= i < syncs.len() && is_degraded_status(#[trigger] syncs[i].status@) implies all.contains(
            sync_degraded(syncs[i].name@, syncs[i].status@),
        ) by {
            if i < prev.len() {
                assert(prev[i] == syncs[i]);
                assert(is_degraded_status(prev[i].status@));
                let k = choose|k: int| 0 <= k < q.len() && q[k] == sync_degraded(prev[i].name@, prev[i].status@);
                assert(all[k] == q[k]);
            } else {
                assert(all[all.len() - 1] == sync_degraded(syncs.last().name@, syncs.last().status@));
            }
        }
        if forall|i: int| 0 <= i < syncs.len() ==> !is_degraded_status(#[trigger] syncs[i].status@) {
            assert forall|i: int| 0 <= i < prev.len() implies !is_degraded_status(#[trigger] prev[i].status@) by {
                assert(prev[i] == syncs[i]);
            }
            assert(!is_degraded_status(syncs[syncs.len() - 1].status@));
        }
    }
}

/// Law: without configuration the only finding is that it is missing,
/// whatever the state; without state, that the state is missing, with the
/// configured role's setup command.
pub proof fn lemma_doctor_reports_what_is_missing(state: Option<State>, now: int)
    ensures
        findings(None, state, now) == seq![CONFIG_MISSING@],
        findings(Some(Role::Server), None, now) == seq![SERVER_STATE_MISSING@],
        findings(Some(Role::Client), None, now) == seq![CLIENT_STATE_MISSING@],
{
}

/// Law: with configuration for `role` and state `s`, a daemon that has not
/// reported healthy within the limit is reported stale; every sync
/// recorded `degraded` or `missing` is reported by name; and a machine
/// whose state agrees with its role, whose daemon reported healthy within
/// the limit and whose syncs are all running gets no finding at all.
pub proof fn lemma_doctor_reports_each_problem(role: Role, s: State, now: int)
    ensures
        !s.daemon_healthy || now - s.daemon_heartbeat_unix > 90 ==> findings(Some(role), Some(s), now).contains(
            match role {
                Role::Server => SERVER_STATE_STALE@,
                Role::Client => CLIENT_STATE_STALE@,
            },
        ),
        forall|i: int|
            0 <= i < s.syncs@.len() && (#[trigger] s.syncs@[i].status@ == "degraded"@ || s.syncs@[i].status@ == "missing"@) ==> findings(
                Some(role),
                Some(s),
                now,
            ).contains("sync degraded: "@ + s.syncs@[i].name@ + " is "@ + s.syncs@[i].status@ + "; run `eternalMac sync status`"@),
        s.role == role && s.daemon_healthy && now - s.daemon_heartbeat_unix <= 90 && (forall|i: int|
            0 <= i < s.syncs@.len() ==> #[trigger] s.syncs@[i].status@ != "degraded"@ && s.syncs@[i].status@ != "missing"@)
            ==> findings(Some(role), Some(s), now).len() == 0,
{
    let f = findings(Some(role), Some(s), now);
    let head = if s.role != role {
        seq![role_mismatch(role)]
    } else {
        Seq::<Seq<char>>::empty()
    };
    let stale = if is_stale(s, now) {
        seq![state_stale(role)]
    } else {
        Seq::<Seq<char>>::empty()
    };
    let d = degraded_findings(s.syncs@);
    assert(f == head + stale + d);
    lemma_degraded_findings_cover(s.syncs@);
    if is_stale(s, now) {
        assert(f[head.len() as int] == state_stale(role));
    }
    assert forall|i: int|
        0 <= i < s.syncs@.len() && (#[trigger] s.syncs@[i].status@ == "degraded"@ || s.syncs@[i].status@ == "missing"@) implies f.contains(
            "sync degraded: "@ + s.syncs@[i].name@ + " is "@ + s.syncs@[i].status@ + "; run `eternalMac sync status`"@,
        ) by {
        assert(is_degraded_status(s.syncs@[i].status@));
        let k = choose|k: int| 0 <= k < d.len() && d[k] == sync_degraded(s.syncs@[i].name@, s.syncs@[i].status@);
        assert(f[head.len() + stale.len() + k] == d[k]);
    }
    if s.role == role && s.daemon_healthy && now - s.daemon_heartbeat_unix <= 90 && (forall|i: int|
        0 <= i < s.syncs@.len() ==> #[trigger] s.syncs@[i].status@ != "degraded"@ && s.syncs@[i].status@ != "missing"@) {
        assert forall|i: int| 0 <= i < s.syncs@.len() implies !is_degraded_status(#[trigger] s.syncs@[i].status@) by {}
        assert(f =~= Seq::<Seq<char>>::empty());
    }
}

fn sync_finding(sync: &SyncPairState) -> (r: String)
    ensures
        r@ == sync_degraded(sync.name@, sync.status@),
{
    let mut m = owned("sync degraded: ");
    m.append(sync.name.as_str());
    m.append(" is ");
    m.append(sync.status.as_str());
    m.append("; run `eternalMac sync status`");
    m
}

/// The health check's findings, one message each, in the order above.
pub fn doctor_findings(config_role: Option<Role>, state: Option<&State>, now: i64) -> (r: Vec<String>)
    ensures
        r@.map_values(|m: String| m@) == findings(config_role, match state {
            Some(s) => Some(*s),
            None => None,
        }, now as int),
{
    let role = match config_role {
        None => {
            let r = vec![owned(CONFIG_MISSING)];
            assert(r@.map_values(|m: String| m@) =~= seq![CONFIG_MISSING@]);
            return r;
        },
        Some(role) => role,
    };
    let state = match state {
        None => {
            let m = match role {
                Role::Server => owned(SERVER_STATE_MISSING),
                Role::Client => owned(CLIENT_STATE_MISSING),
            };
            let r = vec![m];
            assert(r@.map_values(|m: String| m@) =~= seq![state_missing(role)]);
            return r;
        },
        Some(s) => s,
    };
    let mut r: Vec<String> = Vec::new();
    let ghost head: Seq<Seq<char>> = Seq::empty();
    if state.role != role {
        r.push(
            match role {
                Role::Server => owned(SERVER_ROLE_MISMATCH),
                Role::Client => owned(CLIENT_ROLE_MISMATCH),
            },
        );
        proof {
            head = head.push(role_mismatch(role));
        }
    }
    let age: i128 = now as i128 - state.daemon_heartbeat_unix as i128;
    if !state.daemon_healthy || age > STALE_AFTER_SECONDS as i128 {
        r.push(
            match role {
                Role::Server => owned(SERVER_STATE_STALE),
                Role::Client => owned(CLIENT_STATE_STALE),
            },
        );
        proof {
            head = head.push(state_stale(role));
        }
    }
    assert(r@.map_values(|m: String| m@) =~= head);
    assert(head =~= (if state.role != role {
        seq![role_mismatch(role)]
    } else {
        Seq::<Seq<char>>::empty()
    }) + (if is_stale(*state, now as int) {
        seq![state_stale(role)]
    } else {
        Seq::<Seq<char>>::empty()
    }));
    let syncs = &state.syncs;
    for i in 0..syncs.len()
        invariant
            r@.map_values(|m: String| m@) == head + degraded_findings(syncs@.take(i as int)),
    {
        let ghost prev = r@;
        let ghost done = syncs@.take(i as int);
        let ghost upto = syncs@.take(i + 1);
        assert(upto.drop_last() =~= done);
        assert(upto.last() == syncs@[i as int]);
        let sync = &syncs[i];
        if str_eq(sync.status.as_str(), "degraded") || str_eq(sync.status.as_str(), "missing") {
            assert(is_degraded_status(sync.status@));
            let m = sync_finding(sync);
            r.push(m);
            assert(degraded_findings(upto) == degraded_findings(done) + seq![sync_degraded(sync.name@, sync.status@)]);
            assert(r@.map_values(|m: String| m@) =~= prev.map_values(|m: String| m@).push(m@));
        } else {
            assert(!is_degraded_status(sync.status@));
            assert(degraded_findings(upto) =~= degraded_findings(done));
        }
        assert(r@.map_values(|m: String| m@) =~= head + degraded_findings(upto));
    }
    assert(syncs@.take(syncs.len() as int) =~= syncs@);
    r
}

} // verus!
