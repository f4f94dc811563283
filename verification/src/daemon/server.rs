//! The server daemon: which tmux sessions a server should start, and the
//! state it records from Tailscale and tmux.
use crate::error::Error;
use crate::model::config::{opt_view, Config, Role, ServerConfig};
use crate::model::state::State;
use crate::process::runner::contains_string;
use crate::text::{lines, owned, string_views, str_eq};
use crate::tooling::tailscale::Status;
use crate::tooling::tmux::{nonblank_trimmed, parse_sessions};
use vstd::prelude::*;

verus! {

#[derive(Debug, Clone)]
pub struct ServerInput {
    pub default_session: String,
    pub existing_sessions: Vec<String>,
    pub tailscale_ready: bool,
}

#[derive(Debug, Clone, PartialEq, Eq)]
pub struct ServerState {
    pub actions: Vec<String>,
    pub healthy: bool,
}

/// A server is healthy exactly when Tailscale is ready; it then starts the
/// default session when that session does not exist yet, and does nothing
/// otherwise.
pub fn reconcile_server(input: ServerInput) -> (r: ServerState)
    ensures
        r.healthy == input.tailscale_ready,
        string_views(r.actions@) == if input.tailscale_ready && !string_views(
            input.existing_sessions@,
        ).contains(input.default_session@) {
            seq!["tmux:new-session:"@ + input.default_session@]
        } else {
            Seq::empty()
        },
{
    if !input.tailscale_ready {
        let r = ServerState { actions: Vec::new(), healthy: false };
        assert(string_views(r.actions@) =~= Seq::<Seq<char>>::empty());
        return r;
    }
    if contains_string(&input.existing_sessions, input.default_session.as_str()) {
        let r = ServerState { actions: Vec::new(), healthy: true };
        assert(string_views(r.actions@) =~= Seq::<Seq<char>>::empty());
        return r;
    }
    let mut action = owned("tmux:new-session:");
    action.append(input.default_session.as_str());
    let r = ServerState { actions: vec![action], healthy: true };
    assert(string_views(r.actions@) =~= seq!["tmux:new-session:"@ + input.default_session@]);
    r
}

/// The server configuration that the server daemon needs.
pub fn required_server(config: &Config) -> (r: Result<&ServerConfig, Error>)
    ensures
        match r {
            Ok(s) => config.server == Some(*s),
            Err(e) => config.server is None && e.message@ == "server daemon requires server config"@,
        },
{
    match &config.server {
        Some(s) => Ok(s),
        None => Err(Error::msg("server daemon requires server config")),
    }
}

/// `r` is the state the server daemon records after asking Tailscale and
/// listing tmux sessions at `now`: healthy exactly when Tailscale runs and
/// the default session exists.  The DNS name is Tailscale's, or the
/// configured one when Tailscale reports none.
pub open spec fn is_server_daemon_state(r: State, role: Role, server: ServerConfig, tailscale: Status, tmux_output: Seq<char>, now: i64) -> bool {
    &&& r.role == role
    &&& r.tailscale_ok == (tailscale.backend_state@ == "Running"@)
    &&& r.server_reachable
    &&& string_views(r.known_sessions@) == nonblank_trimmed(lines(tmux_output))
    &&& r.default_session_present == string_views(r.known_sessions@).contains(server.default_session@)
    &&& r.healthy == (r.tailscale_ok && r.default_session_present)
    &&& r.summary@ == if r.healthy { "server daemon healthy"@ } else { "server daemon degraded"@ }
    &&& opt_view(r.tailscale_dns) == match tailscale.dns_name {
        Some(d) => Some(d@),
        None => opt_view(server.tailscale_dns),
    }
    &&& r.daemon_healthy
    &&& r.daemon_heartbeat_unix == now
    &&& r.syncs@.len() == 0
}

pub fn server_daemon_state(role: Role, server: &ServerConfig, tailscale: &Status, tmux_output: &str, now: i64) -> (r: State)
    ensures
        is_server_daemon_state(r, role, *server, *tailscale, tmux_output@, now),
{
    let tailscale_ok = str_eq(tailscale.backend_state.as_str(), "Running");
    let sessions = parse_sessions(tmux_output);
    let present = contains_string(&sessions, server.default_session.as_str());
    let healthy = tailscale_ok && present;
    let tailscale_dns = match &tailscale.dns_name {
        Some(d) => Some(d.clone()),
        None => server.tailscale_dns.clone(),
    };
    State {
        role,
        tailscale_ok,
        server_reachable: true,
        healthy,
        summary: if healthy { owned("server daemon healthy") } else { owned("server daemon degraded") },
        tailscale_dns,
        daemon_healthy: true,
        daemon_heartbeat_unix: now,
        default_session_present: present,
        known_sessions: sessions,
        syncs: Vec::new(),
    }
}

} // verus!
