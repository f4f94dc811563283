//! One round of a daemon: read the configuration, ask Tailscale and then
//! tmux (server) or Mutagen (client), and record the state that follows.
//! Commands are run here; reading and writing files, reading Tailscale's
//! JSON and reading the clock are done by the caller, as each step asks.
use crate::daemon::client::{client_daemon_state, is_client_daemon_state, required_client};
use crate::daemon::server::{is_server_daemon_state, required_server, server_daemon_state};
use crate::error::Error;
use crate::model::config::{ClientConfig, Config, Role, ServerConfig};
use crate::model::state::State;
use crate::process::runner::{failed_with, ran, ran_ok, run_checked, CommandLine, Output, Recorder, Runner};
use crate::setup::common::tailscale_status_view;
use crate::text::string_views;
use crate::tooling::mutagen::list_args;
use crate::tooling::tailscale::{status_args, Status};
use crate::tooling::tmux::list_sessions_args;
use vstd::prelude::*;

verus! {

/// Where a daemon round stands.
pub enum RoundStage<C> {
    /// The configuration is being read.
    Start,
    /// Tailscale answered; its status is being read.
    ReadingStatus { role: Role, config: C },
    /// The tool listing is in; the clock is being read.
    Clocking { role: Role, config: C, status: Status, listing: String },
    /// The state is being recorded.
    Recording,
    /// The round is complete or has failed.
    Over,
}

/// What the caller's last piece of work came to.
pub enum RoundEvent {
    ConfigLoaded(Result<Config, Error>),
    StatusParsed(Result<Status, Error>),
    ClockRead(Result<i64, Error>),
    StateRecorded(Result<(), Error>),
}

/// What the caller does next.
pub enum RoundAction {
    /// Read what `tailscale status --json` printed.
    ParseStatus(String),
    /// Read the time in seconds since the Unix epoch.
    ReadClock,
    /// Record this state.
    RecordState(State),
    /// The round is complete.
    Done,
    /// The round stopped with this error.
    Fail(Error),
}

pub open spec fn round_event_fits<C>(stage: RoundStage<C>, event: RoundEvent) -> bool {
    match stage {
        RoundStage::Start => event is ConfigLoaded,
        RoundStage::ReadingStatus { .. } => event is StatusParsed,
        RoundStage::Clocking { .. } => event is ClockRead,
        RoundStage::Recording => event is StateRecorded,
        RoundStage::Over => false,
    }
}

pub fn round_event_accepted<C>(stage: &RoundStage<C>, event: &RoundEvent) -> (r: bool)
    ensures
        r == round_event_fits(*stage, *event),
{
    match stage {
        RoundStage::Start => matches!(event, RoundEvent::ConfigLoaded(_)),
        RoundStage::ReadingStatus { .. } => matches!(event, RoundEvent::StatusParsed(_)),
        RoundStage::Clocking { .. } => matches!(event, RoundEvent::ClockRead(_)),
        RoundStage::Recording => matches!(event, RoundEvent::StateRecorded(_)),
        RoundStage::Over => false,
    }
}

pub open spec fn round_stops<C>(next: RoundStage<C>, action: RoundAction, e: Error) -> bool {
    next is Over && action == RoundAction::Fail(e)
}

/// The steps of a round that do not depend on the role: a failure reported
/// by the caller ends the round, and a recorded state completes it.
pub open spec fn round_common<C>(event: RoundEvent, next: RoundStage<C>, action: RoundAction) -> bool {
    match event {
        RoundEvent::ConfigLoaded(Err(e)) => round_stops(next, action, e),
        RoundEvent::StatusParsed(Err(e)) => round_stops(next, action, e),
        RoundEvent::ClockRead(Err(e)) => round_stops(next, action, e),
        RoundEvent::StateRecorded(Err(e)) => round_stops(next, action, e),
        RoundEvent::StateRecorded(Ok(())) => next is Over && action is Done,
        _ => true,
    }
}

/// Asking Tailscale for its status: its output is to be read, or the round
/// stops.
pub open spec fn asked_tailscale<R: Runner, C>(runner: &R, role: Role, config: C, next: RoundStage<C>, action: RoundAction) -> bool {
    match action {
        RoundAction::ParseStatus(json) => next == (RoundStage::ReadingStatus { role, config }) && exists|out: Output|
            #[trigger] ran_ok(runner, "tailscale"@, tailscale_status_view(), out) && out.stdout@ == json@,
        RoundAction::Fail(e) => next is Over && failed_with(runner, "tailscale"@, tailscale_status_view(), e),
        _ => false,
    }
}

/// Listing with `program` and `args` after Tailscale answered `status`:
/// the clock is to be read, or the round stops.
pub open spec fn listed_with<R: Runner, C>(
    runner: &R,
    program: Seq<char>,
    args: Seq<Seq<char>>,
    role: Role,
    config: C,
    status: Status,
    next: RoundStage<C>,
    action: RoundAction,
) -> bool {
    match action {
        RoundAction::ReadClock => next matches RoundStage::Clocking { role: r, config: c, status: s, listing } && r == role
            && c == config && s == status && exists|out: Output|
            #[trigger] ran_ok(runner, program, args, out) && out.stdout@ == listing@,
        RoundAction::Fail(e) => next is Over && failed_with(runner, program, args, e),
        _ => false,
    }
}

/// One step of a server round.
pub open spec fn server_round<R: Runner>(
    before: Recorder<R>,
    after: Recorder<R>,
    stage: RoundStage<ServerConfig>,
    event: RoundEvent,
    next: RoundStage<ServerConfig>,
    action: RoundAction,
) -> bool {
    let runner = before.runner();
    &&& ran(before, after, match event {
        RoundEvent::ConfigLoaded(Ok(config)) => if config.server is Some {
            seq![("tailscale"@, tailscale_status_view())]
        } else {
            seq![]
        },
        RoundEvent::StatusParsed(Ok(_)) => seq![("tmux"@, seq!["list-sessions"@, "-F"@, "#S"@])],
        _ => seq![],
    })
    &&& round_common(event, next, action)
    &&& match event {
        RoundEvent::ConfigLoaded(Ok(config)) => match config.server {
            None => next is Over && (action matches RoundAction::Fail(e) && e.message@
                == "server daemon requires server config"@),
            Some(server) => asked_tailscale(runner, config.role, server, next, action),
        },
        RoundEvent::StatusParsed(Ok(status)) => match stage {
            RoundStage::ReadingStatus { role, config } => listed_with(
                runner,
                "tmux"@,
                seq!["list-sessions"@, "-F"@, "#S"@],
                role,
                config,
                status,
                next,
                action,
            ),
            _ => false,
        },
        RoundEvent::ClockRead(Ok(now)) => match stage {
            RoundStage::Clocking { role, config, status, listing } => next is Recording
                && (action matches RoundAction::RecordState(state) && is_server_daemon_state(
                state,
                role,
                config,
                status,
                listing@,
                now,
            )),
            _ => false,
        },
        _ => true,
    }
}

/// One step of a client round.
pub open spec fn client_round<R: Runner>(
    before: Recorder<R>,
    after: Recorder<R>,
    stage: RoundStage<ClientConfig>,
    event: RoundEvent,
    next: RoundStage<ClientConfig>,
    action: RoundAction,
) -> bool {
    let runner = before.runner();
    &&& ran(before, after, match event {
        RoundEvent::ConfigLoaded(Ok(config)) => if config.client is Some {
            seq![("tailscale"@, tailscale_status_view())]
        } else {
            seq![]
        },
        RoundEvent::StatusParsed(Ok(_)) => seq![("mutagen"@, seq!["sync"@, "list"@])],
        _ => seq![],
    })
    &&& round_common(event, next, action)
    &&& match event {
        RoundEvent::ConfigLoaded(Ok(config)) => match config.client {
            None => next is Over && (action matches RoundAction::Fail(e) && e.message@
                == "client daemon requires client config"@),
            Some(client) => asked_tailscale(runner, config.role, client, next, action),
        },
        RoundEvent::StatusParsed(Ok(status)) => match stage {
            RoundStage::ReadingStatus { role, config } => listed_with(
                runner,
                "mutagen"@,
                seq!["sync"@, "list"@],
                role,
                config,
                status,
                next,
                action,
            ),
            _ => false,
        },
        RoundEvent::ClockRead(Ok(now)) => match stage {
            RoundStage::Clocking { role, config, status, listing } => next is Recording
                && (action matches RoundAction::RecordState(state) && is_client_daemon_state(
                state,
                role,
                config,
                status,
                listing@,
                now,
            )),
            _ => false,
        },
        _ => true,
    }
}

/// Takes a server round one step further: with the configuration read,
/// asks Tailscale for its status; with the status read, lists tmux
/// sessions; with the clock read, has the state recorded.  The first
/// failure ends the round.
pub fn server_round_step<R: Runner>(rec: &mut Recorder<R>, stage: RoundStage<ServerConfig>, event: RoundEvent) -> (r: (
    RoundStage<ServerConfig>,
    RoundAction,
))
    requires
        round_event_fits(stage, event),
    ensures
        server_round(*old(rec), *final(rec), stage, event, r.0, r.1),
{
    let ghost h0 = rec.history();
    assert(h0 =~= h0 + Seq::<CommandLine>::empty());
    match event {
        RoundEvent::ConfigLoaded(Err(e)) => (RoundStage::Over, RoundAction::Fail(e)),
        RoundEvent::ConfigLoaded(Ok(config)) => {
            if let Err(e) = required_server(&config) {
                return (RoundStage::Over, RoundAction::Fail(e));
            }
            let role = config.role;
            let server = config.server.unwrap();
            let args = status_args();
            assert(string_views(args@) == tailscale_status_view());
            match run_checked(rec, "tailscale", &args) {
                Ok(out) => (RoundStage::ReadingStatus { role, config: server }, RoundAction::ParseStatus(out.stdout)),
                Err(e) => (RoundStage::Over, RoundAction::Fail(e)),
            }
        },
        RoundEvent::StatusParsed(Err(e)) => (RoundStage::Over, RoundAction::Fail(e)),
        RoundEvent::StatusParsed(Ok(status)) => match stage {
            RoundStage::ReadingStatus { role, config } => match run_checked(rec, "tmux", &list_sessions_args()) {
                Ok(out) => (
                    RoundStage::Clocking { role, config, status, listing: out.stdout },
                    RoundAction::ReadClock,
                ),
                Err(e) => (RoundStage::Over, RoundAction::Fail(e)),
            },
            _ => {
                assert(false);
                (RoundStage::Over, RoundAction::Done)
            },
        },
        RoundEvent::ClockRead(Err(e)) => (RoundStage::Over, RoundAction::Fail(e)),
        RoundEvent::ClockRead(Ok(now)) => match stage {
            RoundStage::Clocking { role, config, status, listing } => {
                let state = server_daemon_state(role, &config, &status, listing.as_str(), now);
                (RoundStage::Recording, RoundAction::RecordState(state))
            },
            _ => {
                assert(false);
                (RoundStage::Over, RoundAction::Done)
            },
        },
        RoundEvent::StateRecorded(Err(e)) => (RoundStage::Over, RoundAction::Fail(e)),
        RoundEvent::StateRecorded(Ok(())) => (RoundStage::Over, RoundAction::Done),
    }
}

/// Takes a client round one step further: with the configuration read,
/// asks Tailscale for its status; with the status read, lists Mutagen's
/// syncs; with the clock read, has the state recorded.  The first failure
/// ends the round.
pub fn client_round_step<R: Runner>(rec: &mut Recorder<R>, stage: RoundStage<ClientConfig>, event: RoundEvent) -> (r: (
    RoundStage<ClientConfig>,
    RoundAction,
))
    requires
        round_event_fits(stage, event),
    ensures
        client_round(*old(rec), *final(rec), stage, event, r.0, r.1),
{
    let ghost h0 = rec.history();
    assert(h0 =~= h0 + Seq::<CommandLine>::empty());
    match event {
        RoundEvent::ConfigLoaded(Err(e)) => (RoundStage::Over, RoundAction::Fail(e)),
        RoundEvent::ConfigLoaded(Ok(config)) => {
            if let Err(e) = required_client(&config) {
                return (RoundStage::Over, RoundAction::Fail(e));
            }
            let role = config.role;
            let client = config.client.unwrap();
            let args = status_args();
            assert(string_views(args@) == tailscale_status_view());
            match run_checked(rec, "tailscale", &args) {
                Ok(out) => (RoundStage::ReadingStatus { role, config: client }, RoundAction::ParseStatus(out.stdout)),
                Err(e) => (RoundStage::Over, RoundAction::Fail(e)),
            }
        },
        RoundEvent::StatusParsed(Err(e)) => (RoundStage::Over, RoundAction::Fail(e)),
        RoundEvent::StatusParsed(Ok(status)) => match stage {
            RoundStage::ReadingStatus { role, config } => match run_checked(rec, "mutagen", &list_args()) {
                Ok(out) => (
                    RoundStage::Clocking { role, config, status, listing: out.stdout },
                    RoundAction::ReadClock,
                ),
                Err(e) => (RoundStage::Over, RoundAction::Fail(e)),
            },
            _ => {
                assert(false);
                (RoundStage::Over, RoundAction::Done)
            },
        },
        RoundEvent::ClockRead(Err(e)) => (RoundStage::Over, RoundAction::Fail(e)),
        RoundEvent::ClockRead(Ok(now)) => match stage {
            RoundStage::Clocking { role, config, status, listing } => {
                let state = client_daemon_state(role, &config, &status, listing.as_str(), now);
                (RoundStage::Recording, RoundAction::RecordState(state))
            },
            _ => {
                assert(false);
                (RoundStage::Over, RoundAction::Done)
            },
        },
        RoundEvent::StateRecorded(Err(e)) => (RoundStage::Over, RoundAction::Fail(e)),
        RoundEvent::StateRecorded(Ok(())) => (RoundStage::Over, RoundAction::Done),
    }
}

} // verus!
