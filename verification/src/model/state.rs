//! The persisted runtime state that setup and the daemons record.
use crate::model::config::{opt_view, Role};
use crate::text::string_views;
use vstd::prelude::*;

verus! {

#[derive(Debug, Clone, PartialEq, Eq)]
pub struct SyncPairState {
    pub name: String,
    pub local: String,
    pub remote: String,
    pub mode: String,
    pub status: String,
}

#[derive(Debug, Clone, PartialEq, Eq)]
pub struct State {
    pub role: Role,
    pub tailscale_ok: bool,
    pub server_reachable: bool,
    pub healthy: bool,
    pub summary: String,
    pub tailscale_dns: Option<String>,
    pub daemon_healthy: bool,
    pub daemon_heartbeat_unix: i64,
    pub default_session_present: bool,
    pub known_sessions: Vec<String>,
    pub syncs: Vec<SyncPairState>,
}

pub struct SyncStateView {
    pub name: Seq<char>,
    pub local: Seq<char>,
    pub remote: Seq<char>,
    pub mode: Seq<char>,
    pub status: Seq<char>,
}

pub struct StateView {
    pub role: Role,
    pub tailscale_ok: bool,
    pub server_reachable: bool,
    pub healthy: bool,
    pub summary: Seq<char>,
    pub tailscale_dns: Option<Seq<char>>,
    pub daemon_healthy: bool,
    pub daemon_heartbeat_unix: i64,
    pub default_session_present: bool,
    pub known_sessions: Seq<Seq<char>>,
    pub syncs: Seq<SyncStateView>,
}

impl View for SyncPairState {
    type V = SyncStateView;

    open spec fn view(&self) -> SyncStateView {
        SyncStateView {
            name: self.name@,
            local: self.local@,
            remote: self.remote@,
            mode: self.mode@,
            status: self.status@,
        }
    }
}

/// The views of a sequence of sync states.
pub open spec fn sync_state_views(v: Seq<SyncPairState>) -> Seq<SyncStateView> {
    v.map_values(|s: SyncPairState| s@)
}

/// A copy of sync states, entry by entry.
pub fn copy_sync_states(syncs: &Vec<SyncPairState>) -> (r: Vec<SyncPairState>)
    ensures
        sync_state_views(r@) == sync_state_views(syncs@),
{
    let mut copy: Vec<SyncPairState> = Vec::new();
    let mut i: usize = 0;
    while i < syncs.len()
        invariant
            i <= syncs.len(),
            sync_state_views(copy@) == sync_state_views(syncs@).take(i as int),
        decreases syncs.len() - i,
    {
        let s = &syncs[i];
        let ghost before = sync_state_views(copy@);
        assert(sync_state_views(syncs@)[i as int] == syncs@[i as int]@);
        let entry = SyncPairState {
            name: s.name.clone(),
            local: s.local.clone(),
            remote: s.remote.clone(),
            mode: s.mode.clone(),
            status: s.status.clone(),
        };
        assert(entry@ == syncs@[i as int]@);
        copy.push(entry);
        assert(sync_state_views(copy@) =~= before.push(entry@));
        assert(sync_state_views(syncs@).take(i + 1) =~= sync_state_views(syncs@).take(i as int).push(entry@));
        i = i + 1;
    }
    assert(sync_state_views(syncs@).take(syncs.len() as int) =~= sync_state_views(syncs@));
    copy
}

impl View for State {
    type V = StateView;

    open spec fn view(&self) -> StateView {
        StateView {
            role: self.role,
            tailscale_ok: self.tailscale_ok,
            server_reachable: self.server_reachable,
            healthy: self.healthy,
            summary: self.summary@,
            tailscale_dns: opt_view(self.tailscale_dns),
            daemon_healthy: self.daemon_healthy,
            daemon_heartbeat_unix: self.daemon_heartbeat_unix,
            default_session_present: self.default_session_present,
            known_sessions: string_views(self.known_sessions@),
            syncs: sync_state_views(self.syncs@),
        }
    }
}

} // verus!
