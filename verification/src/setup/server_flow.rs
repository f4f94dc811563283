//! Server setup from start to finish.  Setup alternates commands, which
//! the library runs, with work on files, which the caller does: each step
//! takes where setup stands and what the caller's last piece of work came
//! to, runs the commands that follow, and says what the caller does next.
use crate::app::paths::Paths;
use crate::error::Error;
use crate::model::config::Config;
use crate::model::state::State;
use crate::platform::launchd::Definition;
use crate::process::runner::{ran, CommandLine, Output, Recorder, Runner};
use crate::setup::common::{
    agent_replace_failed, agent_replaced, install_prerequisites, is_daemon_agent,
    prerequisite_calls, prerequisites_failed, prerequisites_ready, replace_launch_agent,
};
use crate::setup::server::{
    bootstrap_outcome, bootstrap_sessions, check_server_reachability, reachable_as,
    server_config, server_config_view, server_final_state, server_final_view,
    server_launch_agent, server_progress_state, server_progress_view, server_summary,
    unreachable_with, ServerSetupSummary, DEFAULT_SESSION,
};
use crate::text::string_views;
use crate::tooling::tailscale::Status;
use vstd::prelude::*;

verus! {

/// Where server setup stands.
pub enum ServerStage {
    /// Nothing has been done.
    Start,
    /// The tools are installed; Tailscale's status is being read.
    ReadingStatus,
    /// The machine is reachable as `dns`; configuration and state are being
    /// recorded.
    Persisting { dns: String },
    /// The sessions exist; this executable is being located.
    Locating { dns: String, sessions: Vec<String> },
    /// The launch agent is being written.
    WritingAgent { dns: String, sessions: Vec<String> },
    /// The agent is loaded; the final state is being recorded.
    Recording { dns: String },
    /// Setup is complete or has failed.
    Over,
}

/// What the caller's last piece of work came to.
pub enum ServerEvent {
    Begin,
    StatusParsed(Result<Status, Error>),
    Persisted(Result<(), Error>),
    ExecutableFound(Result<String, Error>),
    AgentWritten(Result<(), Error>),
    StateRecorded(Result<(), Error>),
}

/// What the caller does next.
pub enum ServerAction {
    /// Read what `tailscale status --json` printed.
    ParseStatus(String),
    /// Record this configuration and this state together.
    Persist(Config, State),
    /// Find the path of the running executable.
    FindExecutable,
    /// Write this launch agent to the file at this path.
    WriteAgent(String, Definition),
    /// Record this state.
    RecordState(State),
    /// Setup is complete.
    Done(ServerSetupSummary),
    /// Setup stopped with this error.
    Fail(Error),
}

/// The event that answers the action a stage was entered with.
pub open spec fn server_event_fits(stage: ServerStage, event: ServerEvent) -> bool {
    match stage {
        ServerStage::Start => event is Begin,
        ServerStage::ReadingStatus => event is StatusParsed,
        ServerStage::Persisting { .. } => event is Persisted,
        ServerStage::Locating { .. } => event is ExecutableFound,
        ServerStage::WritingAgent { .. } => event is AgentWritten,
        ServerStage::Recording { .. } => event is StateRecorded,
        ServerStage::Over => false,
    }
}

pub fn server_event_accepted(stage: &ServerStage, event: &ServerEvent) -> (r: bool)
    ensures
        r == server_event_fits(*stage, *event),
{
    match stage {
        ServerStage::Start => matches!(event, ServerEvent::Begin),
        ServerStage::ReadingStatus => matches!(event, ServerEvent::StatusParsed(_)),
        ServerStage::Persisting { .. } => matches!(event, ServerEvent::Persisted(_)),
        ServerStage::Locating { .. } => matches!(event, ServerEvent::ExecutableFound(_)),
        ServerStage::WritingAgent { .. } => matches!(event, ServerEvent::AgentWritten(_)),
        ServerStage::Recording { .. } => matches!(event, ServerEvent::StateRecorded(_)),
        ServerStage::Over => false,
    }
}

/// Setup stops with `e`, and no command runs.
pub open spec fn server_stops<R: Runner>(before: Recorder<R>, after: Recorder<R>, next: ServerStage, action: ServerAction, e: Error) -> bool {
    ran(before, after, seq![]) && next is Over && action == ServerAction::Fail(e)
}

/// One step of server setup, from `stage` on `event` to `next` with
/// `action`, given how the runner answers, with the commands it runs
/// between `before` and `after`.  Work on files that failed ends setup with
/// its error, and only the steps that name commands run any.
pub open spec fn server_step<R: Runner>(
    before: Recorder<R>,
    after: Recorder<R>,
    paths: Paths,
    host_label: Seq<char>,
    stage: ServerStage,
    event: ServerEvent,
    next: ServerStage,
    action: ServerAction,
) -> bool {
    let runner = before.runner();
    match event {
        ServerEvent::Begin => match action {
            ServerAction::ParseStatus(json) => next is ReadingStatus && ran(before, after, prerequisite_calls())
                && exists|out: Output| #[trigger] prerequisites_ready(runner, out) && json@ == out.stdout@,
            ServerAction::Fail(e) => next is Over && prerequisites_failed(before, after, e),
            _ => false,
        },
        ServerEvent::StatusParsed(Err(e)) => server_stops(before, after, next, action, e),
        ServerEvent::StatusParsed(Ok(status)) => match action {
            ServerAction::Persist(config, state) => next matches ServerStage::Persisting { dns } && {
                &&& reachable_as(before, after, status, dns@)
                &&& config@ == server_config_view(host_label, dns@)
                &&& state@ == server_progress_view(dns@)
            },
            ServerAction::Fail(e) => next is Over && unreachable_with(before, after, status, e),
            _ => false,
        },
        ServerEvent::Persisted(Err(e)) => server_stops(before, after, next, action, e),
        ServerEvent::Persisted(Ok(())) => match stage {
            ServerStage::Persisting { dns } => match action {
                ServerAction::FindExecutable => next matches ServerStage::Locating { dns: d, sessions } && d
                    == dns && bootstrap_outcome(before, after, Ok(sessions)),
                ServerAction::Fail(e) => next is Over && bootstrap_outcome(before, after, Err(e)),
                _ => false,
            },
            _ => false,
        },
        ServerEvent::ExecutableFound(Err(e)) => server_stops(before, after, next, action, e),
        ServerEvent::ExecutableFound(Ok(executable)) => match stage {
            ServerStage::Locating { dns, sessions } => {
                &&& ran(before, after, seq![])
                &&& next == ServerStage::WritingAgent { dns, sessions }
                &&& action matches ServerAction::WriteAgent(path, agent)
                &&& path@ == paths.server_plist@
                &&& is_daemon_agent(agent, "com.eternalmac.server"@, executable@, "server"@)
            },
            _ => false,
        },
        ServerEvent::AgentWritten(Err(e)) => server_stops(before, after, next, action, e),
        ServerEvent::AgentWritten(Ok(())) => match stage {
            ServerStage::WritingAgent { dns, sessions } => match action {
                ServerAction::RecordState(state) => {
                    &&& agent_replaced(before, after, paths.client_plist@, paths.server_plist@)
                    &&& state@ == server_final_view(dns@, string_views(sessions@))
                    &&& next == ServerStage::Recording { dns }
                },
                ServerAction::Fail(e) => next is Over && agent_replace_failed(
                    before,
                    after,
                    paths.client_plist@,
                    paths.server_plist@,
                    e,
                ),
                _ => false,
            },
            _ => false,
        },
        ServerEvent::StateRecorded(Err(e)) => server_stops(before, after, next, action, e),
        ServerEvent::StateRecorded(Ok(())) => match stage {
            ServerStage::Recording { dns } => {
                &&& ran(before, after, seq![])
                &&& next is Over
                &&& action matches ServerAction::Done(summary)
                &&& summary.dns_name@ == dns@
                &&& summary.default_session@ == DEFAULT_SESSION@
            },
            _ => false,
        },
    }
}

/// Takes server setup one step further: installs the tools and asks
/// Tailscale for its status; checks that the machine is reachable and has
/// its configuration recorded; makes sure the default session exists and
/// has this executable located; has the launch agent written; replaces the
/// client's agent with it and has the final state recorded; then reports
/// the summary.  The first failure ends setup.
pub fn server_setup_step<R: Runner>(
    rec: &mut Recorder<R>,
    paths: &Paths,
    host_label: &str,
    stage: ServerStage,
    event: ServerEvent,
) -> (r: (ServerStage, ServerAction))
    requires
        server_event_fits(stage, event),
    ensures
        server_step(*old(rec), *final(rec), *paths, host_label@, stage, event, r.0, r.1),
{
    let ghost h0 = rec.history();
    assert(h0 =~= h0 + Seq::<CommandLine>::empty());
    match event {
        ServerEvent::Begin => match install_prerequisites(rec) {
            Ok(out) => (ServerStage::ReadingStatus, ServerAction::ParseStatus(out.stdout)),
            Err(e) => (ServerStage::Over, ServerAction::Fail(e)),
        },
        ServerEvent::StatusParsed(Err(e)) => (ServerStage::Over, ServerAction::Fail(e)),
        ServerEvent::StatusParsed(Ok(status)) => match check_server_reachability(rec, &status) {
            Ok(dns) => {
                let config = server_config(host_label.to_string(), dns.as_str());
                let state = server_progress_state(dns.as_str());
                (ServerStage::Persisting { dns }, ServerAction::Persist(config, state))
            },
            Err(e) => (ServerStage::Over, ServerAction::Fail(e)),
        },
        ServerEvent::Persisted(Err(e)) => (ServerStage::Over, ServerAction::Fail(e)),
        ServerEvent::Persisted(Ok(())) => match stage {
            ServerStage::Persisting { dns } => match bootstrap_sessions(rec) {
                Ok(sessions) => (ServerStage::Locating { dns, sessions }, ServerAction::FindExecutable),
                Err(e) => (ServerStage::Over, ServerAction::Fail(e)),
            },
            _ => {
                assert(false);
                (ServerStage::Over, ServerAction::FindExecutable)
            },
        },
        ServerEvent::ExecutableFound(Err(e)) => (ServerStage::Over, ServerAction::Fail(e)),
        ServerEvent::ExecutableFound(Ok(executable)) => match stage {
            ServerStage::Locating { dns, sessions } => {
                let agent = server_launch_agent(executable);
                (
                    ServerStage::WritingAgent { dns, sessions },
                    ServerAction::WriteAgent(paths.server_plist.clone(), agent),
                )
            },
            _ => {
                assert(false);
                (ServerStage::Over, ServerAction::FindExecutable)
            },
        },
        ServerEvent::AgentWritten(Err(e)) => (ServerStage::Over, ServerAction::Fail(e)),
        ServerEvent::AgentWritten(Ok(())) => match stage {
            ServerStage::WritingAgent { dns, sessions } => {
                match replace_launch_agent(rec, paths.client_plist.as_str(), paths.server_plist.as_str()) {
                    Ok(()) => {
                        let state = server_final_state(dns.as_str(), sessions);
                        (ServerStage::Recording { dns }, ServerAction::RecordState(state))
                    },
                    Err(e) => (ServerStage::Over, ServerAction::Fail(e)),
                }
            },
            _ => {
                assert(false);
                (ServerStage::Over, ServerAction::FindExecutable)
            },
        },
        ServerEvent::StateRecorded(Err(e)) => (ServerStage::Over, ServerAction::Fail(e)),
        ServerEvent::StateRecorded(Ok(())) => match stage {
            ServerStage::Recording { dns } => (ServerStage::Over, ServerAction::Done(server_summary(dns))),
            _ => {
                assert(false);
                (ServerStage::Over, ServerAction::FindExecutable)
            },
        },
    }
}

} // verus!
