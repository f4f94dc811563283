//! Server setup: the decisions of turning this machine into the server.
//! The steps that touch files (recording configuration and state, finding
//! this executable, writing the launch agent) are done by the caller
//! between these steps, in the order the functions are listed here.
use crate::error::Error;
use crate::model::config::{Config, ConfigView, Role, ServerConfig, ServerConfigView, SessionConfig};
use crate::model::state::{sync_state_views, State, StateView, SyncStateView};
use crate::platform::launchd::Definition;
use crate::process::runner::{command_failure, command_failure_message, failed_with, ran, run_checked, succeeded, CommandLine, Output, Recorder, Runner};
use crate::process::runner::contains_string;
use crate::setup::common::{daemon_agent, is_daemon_agent, probe, probe_failed_with, probe_passed};
use crate::text::{ascii_lower, contains, contains_str, lines, lower_ascii, owned, str_eq, string_views, trim, trimmed};
use crate::tooling::ssh::port_probe_args;
use crate::tooling::tailscale::Status;
use crate::tooling::tmux::{list_sessions_args, new_session_args, nonblank_trimmed, parse_sessions};
use vstd::prelude::*;

verus! {

#[derive(Debug, Clone, PartialEq, Eq)]
pub struct ServerSetupSummary {
    pub dns_name: String,
    pub default_session: String,
}

/// The session a server keeps running.
pub const DEFAULT_SESSION: &'static str = "default";

pub open spec fn not_connected_message(backend_state: Seq<char>) -> Seq<char> {
    "tailscale is not connected (backend state: "@ + backend_state
        + "); sign in to Tailscale and rerun `eternalMac setup server`"@
}

pub const DNS_UNAVAILABLE: &'static str = "tailscale dns name is unavailable; finish Tailscale login and rerun `eternalMac setup server`";

/// The server's DNS name: Tailscale must run and know its name.
pub fn resolve_server_dns(status: &Status) -> (r: Result<String, Error>)
    ensures
        match r {
            Ok(d) => status.backend_state@ == "Running"@ && status.dns_name is Some && d@
                == status.dns_name->0@,
            Err(e) => if status.backend_state@ != "Running"@ {
                e.message@ == not_connected_message(status.backend_state@)
            } else {
                status.dns_name is None && e.message@ == DNS_UNAVAILABLE@
            },
        },
{
    if !str_eq(status.backend_state.as_str(), "Running") {
        let mut m = owned("tailscale is not connected (backend state: ");
        m.append(status.backend_state.as_str());
        m.append("); sign in to Tailscale and rerun `eternalMac setup server`");
        return Err(Error::new(m));
    }
    match &status.dns_name {
        Some(d) => Ok(d.clone()),
        None => Err(Error::msg(DNS_UNAVAILABLE)),
    }
}

pub const REMOTE_LOGIN_ADVICE: &'static str = "Remote Login is not reachable on this Mac Mini. Enable Remote Login in System Settings -> General -> Sharing and rerun `eternalMac setup server`";

pub const ET_ADVICE: &'static str = "Eternal Terminal server is not reachable on local port 2022 after `brew services start et`; run `brew services list` and check the `et` service before rerunning `eternalMac setup server`";

pub open spec fn remote_login_probe_view() -> Seq<Seq<char>> {
    seq!["-G"@, "5"@, "-z"@, "localhost"@, "22"@]
}

pub open spec fn et_probe_view() -> Seq<Seq<char>> {
    seq!["-G"@, "5"@, "-z"@, "localhost"@, "2022"@]
}

pub open spec fn start_et_view() -> Seq<Seq<char>> {
    seq!["services"@, "start"@, "et"@]
}

/// The commands of the reachability checks, in the order they run.
pub open spec fn reachability_calls() -> Seq<CommandLine> {
    seq![("nc"@, remote_login_probe_view()), ("brew"@, start_et_view()), ("nc"@, et_probe_view())]
}

/// The checks passed: Tailscale runs and names this machine `dns`, Remote
/// Login answered, and the Eternal Terminal service started and answers;
/// exactly the checks' commands ran.
pub open spec fn reachable_as<R: Runner>(before: Recorder<R>, after: Recorder<R>, status: Status, dns: Seq<char>) -> bool {
    let runner = before.runner();
    &&& ran(before, after, reachability_calls())
    &&& status.backend_state@ == "Running"@
    &&& status.dns_name is Some && dns == status.dns_name->0@
    &&& probe_passed(runner, remote_login_probe_view())
    &&& succeeded(runner, "brew"@, start_et_view())
    &&& probe_passed(runner, et_probe_view())
}

/// The checks stopped with `e` at the first one that failed, and nothing
/// after it ran: without a running, named Tailscale nothing runs at all.
pub open spec fn unreachable_with<R: Runner>(before: Recorder<R>, after: Recorder<R>, status: Status, e: Error) -> bool {
    let runner = before.runner();
    let calls = reachability_calls();
    ||| ran(before, after, seq![]) && status.backend_state@ != "Running"@ && e.message@ == not_connected_message(
        status.backend_state@,
    )
    ||| ran(before, after, seq![]) && status.backend_state@ == "Running"@ && status.dns_name is None && e.message@
        == DNS_UNAVAILABLE@
    ||| status.backend_state@ == "Running"@ && status.dns_name is Some && {
        ||| ran(before, after, calls.take(1)) && probe_failed_with(runner, remote_login_probe_view(), REMOTE_LOGIN_ADVICE@, e)
        ||| ran(before, after, calls.take(2)) && probe_passed(runner, remote_login_probe_view()) && failed_with(
            runner,
            "brew"@,
            start_et_view(),
            e,
        )
        ||| ran(before, after, calls) && probe_passed(runner, remote_login_probe_view()) && succeeded(
            runner,
            "brew"@,
            start_et_view(),
        ) && probe_failed_with(runner, et_probe_view(), ET_ADVICE@, e)
    }
}

/// Checks that Tailscale gives this machine a DNS name, that Remote Login
/// answers, then starts the Eternal Terminal service and checks that it
/// answers; stops at the first step that fails.  Gives the DNS name.
pub fn check_server_reachability<R: Runner>(rec: &mut Recorder<R>, status: &Status) -> (res: Result<String, Error>)
    ensures
        match res {
            Ok(d) => reachable_as(*old(rec), *final(rec), *status, d@),
            Err(e) => unreachable_with(*old(rec), *final(rec), *status, e),
        },
{
    let ghost start_history = rec.history();
    let ghost calls = reachability_calls();
    let dns = match resolve_server_dns(status) {
        Ok(d) => d,
        Err(e) => {
            assert(rec.history() =~= start_history + Seq::<CommandLine>::empty());
            return Err(e);
        },
    };
    let login_args = port_probe_args("localhost");
    let probed = probe(rec, &login_args, REMOTE_LOGIN_ADVICE);
    assert(rec.history() =~= start_history + calls.take(1));
    if let Err(e) = probed {
        return Err(e);
    }
    let start = vec![owned("services"), owned("start"), owned("et")];
    assert(string_views(start@) =~= start_et_view());
    let started = run_checked(rec, "brew", &start);
    assert(rec.history() =~= start_history + calls.take(2));
    if let Err(e) = started {
        return Err(e);
    }
    let et_args = vec![owned("-G"), owned("5"), owned("-z"), owned("localhost"), owned("2022")];
    assert(string_views(et_args@) =~= et_probe_view());
    let answered = probe(rec, &et_args, ET_ADVICE);
    assert(rec.history() =~= start_history + calls);
    if let Err(e) = answered {
        return Err(e);
    }
    Ok(dns)
}

/// The configuration of a server with `host_label` and DNS name `dns`: the
/// default session is its session to keep running at boot.
pub open spec fn server_config_view(host_label: Seq<char>, dns: Seq<char>) -> ConfigView {
    ConfigView {
        role: Role::Server,
        server: Some(
            ServerConfigView {
                host_label,
                default_session: DEFAULT_SESSION@,
                boot_sessions: seq![DEFAULT_SESSION@],
                tailscale_dns: Some(dns),
            },
        ),
        client: None,
        auto_attach: true,
    }
}

pub fn server_config(host_label: String, dns: &str) -> (c: Config)
    ensures
        c@ == server_config_view(host_label@, dns@),
{
    let boot_sessions = vec![owned(DEFAULT_SESSION)];
    assert(string_views(boot_sessions@) =~= seq![DEFAULT_SESSION@]);
    Config {
        role: Role::Server,
        server: Some(
            ServerConfig {
                host_label,
                default_session: owned(DEFAULT_SESSION),
                boot_sessions,
                tailscale_dns: Some(owned(dns)),
            },
        ),
        client: None,
        session: SessionConfig { auto_attach: true },
    }
}

/// The state recorded while setup is still finishing: Tailscale is up, but
/// nothing is reachable or healthy yet.
pub open spec fn server_progress_view(dns: Seq<char>) -> StateView {
    StateView {
        role: Role::Server,
        tailscale_ok: true,
        server_reachable: false,
        healthy: false,
        summary: "server setup in progress; finalizing runtime prerequisites"@,
        tailscale_dns: Some(dns),
        daemon_healthy: false,
        daemon_heartbeat_unix: 0,
        default_session_present: false,
        known_sessions: Seq::empty(),
        syncs: Seq::empty(),
    }
}

pub fn server_progress_state(dns: &str) -> (s: State)
    ensures
        s@ == server_progress_view(dns@),
{
    let s = State {
        role: Role::Server,
        tailscale_ok: true,
        server_reachable: false,
        healthy: false,
        summary: owned("server setup in progress; finalizing runtime prerequisites"),
        tailscale_dns: Some(owned(dns)),
        daemon_healthy: false,
        daemon_heartbeat_unix: 0,
        default_session_present: false,
        known_sessions: Vec::new(),
        syncs: Vec::new(),
    };
    assert(s@ =~= server_progress_view(dns@)) by {
        assert(string_views(s.known_sessions@) =~= Seq::<Seq<char>>::empty());
        assert(sync_state_views(s.syncs@) =~= Seq::<SyncStateView>::empty());
    }
    s
}

/// What tmux prints on stderr when listing sessions finds no tmux server
/// running yet, which means there are no sessions.
pub open spec fn no_tmux_server(stderr: Seq<char>) -> bool {
    let n = ascii_lower(trim(stderr));
    n.len() > 0 && (contains(n, "no server running on"@) || contains(n, "failed to connect to server"@)
        || (contains(n, "error connecting to"@) && (contains(n, "no such file or directory"@)
        || contains(n, "connection refused"@))))
}

pub fn tmux_list_sessions_failed_without_server(stderr: &str) -> (r: bool)
    ensures
        r == no_tmux_server(stderr@),
{
    let n = lower_ascii(&trimmed(stderr));
    if n.len() == 0 {
        return false;
    }
    contains_str(&n, "no server running on") || contains_str(&n, "failed to connect to server") || (
    contains_str(&n, "error connecting to") && (contains_str(&n, "no such file or directory")
        || contains_str(&n, "connection refused")))
}

pub open spec fn list_sessions_view() -> Seq<Seq<char>> {
    seq!["list-sessions"@, "-F"@, "#S"@]
}

pub open spec fn new_default_view() -> Seq<Seq<char>> {
    seq!["new-session"@, "-d"@, "-s"@, DEFAULT_SESSION@]
}

/// The sessions that a listing answer shows: those printed by a successful
/// listing, none when no tmux server runs yet.
pub open spec fn listed(out: Output) -> Option<Seq<Seq<char>>> {
    if out.success {
        Some(nonblank_trimmed(lines(out.stdout@)))
    } else if no_tmux_server(out.stderr@) {
        Some(Seq::empty())
    } else {
        None
    }
}

/// What bootstrapping the sessions came to, given the runner's answer to
/// the listing: the sessions that exist afterwards, or the error.  The
/// listing always runs; the default session is started only when the
/// listing worked and did not show it, and nothing else runs.
pub open spec fn bootstrap_outcome<R: Runner>(before: Recorder<R>, after: Recorder<R>, res: Result<Vec<String>, Error>) -> bool {
    let runner = before.runner();
    let listing = ("tmux"@, list_sessions_view());
    let creating = ("tmux"@, new_default_view());
    exists|raw: Result<Output, Error>| #[trigger] runner.answers("tmux"@, list_sessions_view(), raw) && match raw {
        Err(x) => ran(before, after, seq![listing]) && res is Err && res->Err_0.message@ == x.message@,
        Ok(out) => match listed(out) {
            None => ran(before, after, seq![listing]) && res is Err && res->Err_0.message@ == command_failure(
                "tmux"@,
                list_sessions_view(),
                out.stderr@,
            ),
            Some(found) => if found.contains(DEFAULT_SESSION@) {
                ran(before, after, seq![listing]) && res is Ok && string_views(res->Ok_0@) == found
            } else {
                ran(before, after, seq![listing, creating]) && match res {
                    Ok(v) => succeeded(runner, "tmux"@, new_default_view()) && string_views(v@) == found.push(
                        DEFAULT_SESSION@,
                    ),
                    Err(e) => failed_with(runner, "tmux"@, new_default_view(), e),
                }
            },
        },
    }
}

/// Lists the tmux sessions and starts the default session when it is not
/// among them.  Gives the sessions that exist afterwards.
pub fn bootstrap_sessions<R: Runner>(rec: &mut Recorder<R>) -> (res: Result<Vec<String>, Error>)
    ensures
        bootstrap_outcome(*old(rec), *final(rec), res),
{
    let list = list_sessions_args();
    assert(string_views(list@) == list_sessions_view());
    let ghost start_history = rec.history();
    let raw = rec.run("tmux", list.as_slice());
    let ghost answer = raw;
    let ghost listing = ("tmux"@, list_sessions_view());
    assert(rec.history() =~= start_history + seq![listing]);
    let out = match raw {
        Err(e) => {
            return Err(e);
        },
        Ok(out) => out,
    };
    let mut known = if out.success {
        parse_sessions(out.stdout.as_str())
    } else if tmux_list_sessions_failed_without_server(out.stderr.as_str()) {
        let none: Vec<String> = Vec::new();
        assert(string_views(none@) =~= Seq::<Seq<char>>::empty());
        none
    } else {
        let m = command_failure_message("tmux", &list, out.stderr.as_str());
        return Err(Error::new(m));
    };
    if !contains_string(&known, DEFAULT_SESSION) {
        let create = new_session_args(DEFAULT_SESSION);
        let created = run_checked(rec, "tmux", &create);
        assert(rec.history() =~= start_history + seq![listing, ("tmux"@, new_default_view())]);
        if let Err(e) = created {
            return Err(e);
        }
        let ghost before = string_views(known@);
        known.push(owned(DEFAULT_SESSION));
        assert(string_views(known@) =~= before.push(DEFAULT_SESSION@));
    }
    Ok(known)
}

/// The launch agent that runs `executable daemon server`.
pub fn server_launch_agent(executable: String) -> (d: Definition)
    ensures
        is_daemon_agent(d, "com.eternalmac.server"@, executable@, "server"@),
{
    daemon_agent("com.eternalmac.server", executable, "server")
}

/// The state recorded once setup is complete: reachable and healthy, the
/// default session present, the daemon's own health still to come.
pub open spec fn server_final_view(dns: Seq<char>, known_sessions: Seq<Seq<char>>) -> StateView {
    StateView {
        role: Role::Server,
        tailscale_ok: true,
        server_reachable: true,
        healthy: true,
        summary: "server setup complete; runtime health pending"@,
        tailscale_dns: Some(dns),
        daemon_healthy: false,
        daemon_heartbeat_unix: 0,
        default_session_present: true,
        known_sessions,
        syncs: Seq::empty(),
    }
}

pub fn server_final_state(dns: &str, known_sessions: Vec<String>) -> (s: State)
    ensures
        s@ == server_final_view(dns@, string_views(known_sessions@)),
{
    let ghost sessions = string_views(known_sessions@);
    let s = State {
        role: Role::Server,
        tailscale_ok: true,
        server_reachable: true,
        healthy: true,
        summary: owned("server setup complete; runtime health pending"),
        tailscale_dns: Some(owned(dns)),
        daemon_healthy: false,
        daemon_heartbeat_unix: 0,
        default_session_present: true,
        known_sessions,
        syncs: Vec::new(),
    };
    assert(s@ =~= server_final_view(dns@, sessions)) by {
        assert(sync_state_views(s.syncs@) =~= Seq::<SyncStateView>::empty());
    }
    s
}

pub fn server_summary(dns: String) -> (s: ServerSetupSummary)
    ensures
        s.dns_name@ == dns@,
        s.default_session@ == DEFAULT_SESSION@,
{
    ServerSetupSummary { dns_name: dns, default_session: owned(DEFAULT_SESSION) }
}

} // verus!
