//! Client setup from the gathered request to the finished pairing.  Setup
//! alternates commands, which the library runs, with work on files, which
//! the caller does: each step takes where setup stands and what the
//! caller's last piece of work came to, runs the commands that follow, and
//! says what the caller does next.
use crate::app::paths::Paths;
use crate::error::Error;
use crate::model::config::{pair_views, Config, SyncPairView};
use crate::model::state::{copy_sync_states, sync_state_views, State, SyncPairState, SyncStateView};
use crate::platform::launchd::Definition;
use crate::process::runner::{failed_with, ran, CommandLine, Recorder, Runner};
use crate::setup::client::{
    client_config, client_config_view, client_final_state, client_final_view,
    client_launch_agent, client_progress_state, client_progress_view, client_summary,
    client_sync_pairs, ensure_sync_root, list_existing_syncs, mark_created, pair_state,
    pending_syncs, root_ensured, root_failed, root_pair, root_pairs, syncs_listed,
    ClientPreflight, ClientSetupInput, ClientSetupSummary, SyncRootInput,
};
use crate::setup::common::{agent_replace_failed, agent_replaced, is_daemon_agent, replace_launch_agent};
use crate::text::string_views;
use crate::tooling::mutagen::{listed_views, ListedSession};
use vstd::prelude::*;

verus! {

/// Where client setup stands.
pub enum ClientStage {
    /// Nothing has been done.
    Start,
    /// Configuration and the pending syncs are being recorded.
    Persisting { syncs: Vec<SyncPairState> },
    /// The syncs before `next` exist; their state is being recorded.
    Creating { existing: Vec<ListedSession>, syncs: Vec<SyncPairState>, next: usize },
    /// Every sync exists; this executable is being located.
    Locating { syncs: Vec<SyncPairState> },
    /// The launch agent is being written.
    WritingAgent { syncs: Vec<SyncPairState> },
    /// The agent is loaded; the final state is being recorded.
    Recording,
    /// Setup is complete or has failed.
    Over,
}

/// What the caller's last piece of work came to.
pub enum ClientEvent {
    Begin,
    Persisted(Result<(), Error>),
    ExecutableFound(Result<String, Error>),
    AgentWritten(Result<(), Error>),
    StateRecorded(Result<(), Error>),
}

/// What the caller does next.
pub enum ClientAction {
    /// Record this configuration and this state together.
    Persist(Config, State),
    /// Record this state.
    RecordState(State),
    /// Find the path of the running executable.
    FindExecutable,
    /// Write this launch agent to the file at this path.
    WriteAgent(String, Definition),
    /// Setup is complete.
    Done(ClientSetupSummary),
    /// Setup stopped with this error.
    Fail(Error),
}

/// The sync states of the requested roots with those before `k` created
/// and the others pending.
pub open spec fn progress_syncs(roots: Seq<SyncRootInput>, k: int) -> Seq<SyncStateView> {
    Seq::new(
        roots.len(),
        |j: int| pair_state(root_pair(roots[j]), if j < k { "created"@ } else { "pending"@ }),
    )
}

/// The event that answers the action a stage was entered with.
pub open spec fn client_event_fits(stage: ClientStage, event: ClientEvent) -> bool {
    match stage {
        ClientStage::Start => event is Begin,
        ClientStage::Persisting { .. } => event is Persisted,
        ClientStage::Creating { .. } => event is StateRecorded,
        ClientStage::Locating { .. } => event is ExecutableFound,
        ClientStage::WritingAgent { .. } => event is AgentWritten,
        ClientStage::Recording => event is StateRecorded,
        ClientStage::Over => false,
    }
}

/// The sync states that a stage holds are those of the requested roots,
/// with as many created as the stage has passed.
pub open spec fn client_stage_wf(stage: ClientStage, roots: Seq<SyncRootInput>) -> bool {
    match stage {
        ClientStage::Persisting { syncs } => sync_state_views(syncs@) == progress_syncs(roots, 0),
        ClientStage::Creating { syncs, next, .. } => next <= roots.len() && sync_state_views(syncs@)
            == progress_syncs(roots, next as int),
        ClientStage::Locating { syncs } => sync_state_views(syncs@) == progress_syncs(roots, roots.len() as int),
        ClientStage::WritingAgent { syncs } => sync_state_views(syncs@) == progress_syncs(
            roots,
            roots.len() as int,
        ),
        _ => true,
    }
}

pub fn client_event_accepted(stage: &ClientStage, event: &ClientEvent) -> (r: bool)
    ensures
        r == client_event_fits(*stage, *event),
{
    match stage {
        ClientStage::Start => matches!(event, ClientEvent::Begin),
        ClientStage::Persisting { .. } => matches!(event, ClientEvent::Persisted(_)),
        ClientStage::Creating { .. } => matches!(event, ClientEvent::StateRecorded(_)),
        ClientStage::Locating { .. } => matches!(event, ClientEvent::ExecutableFound(_)),
        ClientStage::WritingAgent { .. } => matches!(event, ClientEvent::AgentWritten(_)),
        ClientStage::Recording => matches!(event, ClientEvent::StateRecorded(_)),
        ClientStage::Over => false,
    }
}

/// Setup stops with `e`, and no command runs.
pub open spec fn client_stops<R: Runner>(before: Recorder<R>, after: Recorder<R>, next: ClientStage, action: ClientAction, e: Error) -> bool {
    ran(before, after, seq![]) && next is Over && action == ClientAction::Fail(e)
}

/// Going on from root `k` with the listed sessions `existing`: past the
/// last root, this executable is located; otherwise the root's sync is made
/// sure of and, if that worked, its new state recorded.
pub open spec fn advanced<R: Runner>(
    before: Recorder<R>,
    after: Recorder<R>,
    tailscale_ok: bool,
    roots: Seq<SyncRootInput>,
    existing: Vec<ListedSession>,
    k: int,
    next: ClientStage,
    action: ClientAction,
) -> bool {
    if k >= roots.len() {
        ran(before, after, seq![]) && action is FindExecutable && (next matches ClientStage::Locating { syncs }
            && sync_state_views(syncs@) == progress_syncs(roots, roots.len() as int))
    } else {
        match action {
            ClientAction::RecordState(state) => {
                &&& root_ensured(before, after, listed_views(existing@), roots[k])
                &&& next matches ClientStage::Creating { existing: ex, syncs, next: n } && ex == existing && n
                    == k + 1 && sync_state_views(syncs@) == progress_syncs(roots, k + 1)
                &&& state@ == client_progress_view(tailscale_ok, progress_syncs(roots, k + 1), k + 1)
            },
            ClientAction::Fail(e) => next is Over && root_failed(before, after, listed_views(existing@), roots[k], e),
            _ => false,
        }
    }
}

/// One step of client setup, from `stage` on `event` to `next` with
/// `action`, given how the runner answers, with the commands it runs
/// between `before` and `after`.  Work on files that failed ends setup with
/// its error, and only the steps that name commands run any.
pub open spec fn client_step<R: Runner>(
    before: Recorder<R>,
    after: Recorder<R>,
    paths: Paths,
    preflight: ClientPreflight,
    input: ClientSetupInput,
    stage: ClientStage,
    event: ClientEvent,
    next: ClientStage,
    action: ClientAction,
) -> bool {
    let roots = input.sync_roots@;
    let ok = preflight.tailscale_ok;
    let runner = before.runner();
    let listing = ("mutagen"@, seq!["sync"@, "list"@]);
    match event {
        ClientEvent::Begin => {
            &&& ran(before, after, seq![])
            &&& next matches ClientStage::Persisting { syncs } && sync_state_views(syncs@) == progress_syncs(roots, 0)
            &&& action matches ClientAction::Persist(config, state)
            &&& config@ == client_config_view(input.paired_server@, root_pairs(roots))
            &&& state@ == client_progress_view(ok, progress_syncs(roots, 0), 0)
        },
        ClientEvent::Persisted(Err(e)) => client_stops(before, after, next, action, e),
        ClientEvent::Persisted(Ok(())) => {
            ||| ran(before, after, seq![listing]) && next is Over && (action matches ClientAction::Fail(e)
                && failed_with(runner, "mutagen"@, seq!["sync"@, "list"@], e))
            ||| exists|existing: Vec<ListedSession>, middle: Recorder<R>|
                ran(before, middle, seq![listing]) && syncs_listed(runner, listed_views(existing@)) && #[trigger] advanced(
                    middle,
                    after,
                    ok,
                    roots,
                    existing,
                    0,
                    next,
                    action,
                )
        },
        ClientEvent::StateRecorded(Err(e)) => client_stops(before, after, next, action, e),
        ClientEvent::StateRecorded(Ok(())) => match stage {
            ClientStage::Creating { existing, next: k, .. } => advanced(before, after, ok, roots, existing, k as int, next, action),
            ClientStage::Recording => {
                &&& ran(before, after, seq![])
                &&& next is Over
                &&& action matches ClientAction::Done(summary)
                &&& summary.paired_server@ == input.paired_server@
                &&& string_views(summary.sync_names@) == roots.map_values(|r: SyncRootInput| r.name@)
            },
            _ => false,
        },
        ClientEvent::ExecutableFound(Err(e)) => client_stops(before, after, next, action, e),
        ClientEvent::ExecutableFound(Ok(executable)) => {
            &&& ran(before, after, seq![])
            &&& next matches ClientStage::WritingAgent { syncs } && sync_state_views(syncs@) == progress_syncs(
                roots,
                roots.len() as int,
            )
            &&& action matches ClientAction::WriteAgent(path, agent)
            &&& path@ == paths.client_plist@
            &&& is_daemon_agent(agent, "com.eternalmac.client"@, executable@, "client"@)
        },
        ClientEvent::AgentWritten(Err(e)) => client_stops(before, after, next, action, e),
        ClientEvent::AgentWritten(Ok(())) => match action {
            ClientAction::RecordState(state) => {
                &&& agent_replaced(before, after, paths.server_plist@, paths.client_plist@)
                &&& state@ == client_final_view(ok, roots.len() > 0, progress_syncs(roots, roots.len() as int))
                &&& next is Recording
            },
            ClientAction::Fail(e) => next is Over && agent_replace_failed(
                before,
                after,
                paths.server_plist@,
                paths.client_plist@,
                e,
            ),
            _ => false,
        },
    }
}

proof fn lemma_pending_is_progress_zero(pairs: Seq<SyncPairView>, roots: Seq<SyncRootInput>)
    requires
        pairs == root_pairs(roots),
    ensures
        pairs.map_values(|p: SyncPairView| pair_state(p, "pending"@)) == progress_syncs(roots, 0),
{
    assert(pairs.map_values(|p: SyncPairView| pair_state(p, "pending"@)) =~= progress_syncs(roots, 0));
}

/// Makes sure of the sync of root `k` and records it as created, or, past
/// the last root, asks for this executable.
fn advance<R: Runner>(
    rec: &mut Recorder<R>,
    preflight: &ClientPreflight,
    input: &ClientSetupInput,
    existing: Vec<ListedSession>,
    syncs: Vec<SyncPairState>,
    k: usize,
) -> (r: (ClientStage, ClientAction))
    requires
        k <= input.sync_roots@.len(),
        sync_state_views(syncs@) == progress_syncs(input.sync_roots@, k as int),
    ensures
        advanced(*old(rec), *final(rec), preflight.tailscale_ok, input.sync_roots@, existing, k as int, r.0, r.1),
{
    let ghost h0 = rec.history();
    assert(h0 =~= h0 + Seq::<CommandLine>::empty());
    let ghost roots = input.sync_roots@;
    if k >= input.sync_roots.len() {
        return (ClientStage::Locating { syncs }, ClientAction::FindExecutable);
    }
    let ghost listed = listed_views(existing@);
    match ensure_sync_root(rec, existing.as_slice(), &input.sync_roots[k]) {
        Err(e) => (ClientStage::Over, ClientAction::Fail(e)),
        Ok(()) => {
            let mut syncs = syncs;
            assert(sync_state_views(syncs@).len() == syncs@.len());
            mark_created(&mut syncs, k);
            assert(sync_state_views(syncs@) =~= progress_syncs(roots, k + 1));
            let state = client_progress_state(preflight.tailscale_ok, copy_sync_states(&syncs), k + 1);
            (ClientStage::Creating { existing, syncs, next: k + 1 }, ClientAction::RecordState(state))
        },
    }
}

/// Takes client setup one step further: has the configuration and the
/// pending syncs recorded; lists Mutagen's sessions and makes sure of each
/// requested sync in order, having its state recorded after each; has this
/// executable located and the launch agent written; replaces the server's
/// agent with it and has the final state recorded; then reports the
/// summary.  The first failure ends setup.
pub fn client_setup_step<R: Runner>(
    rec: &mut Recorder<R>,
    paths: &Paths,
    preflight: &ClientPreflight,
    input: &ClientSetupInput,
    stage: ClientStage,
    event: ClientEvent,
) -> (r: (ClientStage, ClientAction))
    requires
        client_event_fits(stage, event),
        client_stage_wf(stage, input.sync_roots@),
    ensures
        client_step(*old(rec), *final(rec), *paths, *preflight, *input, stage, event, r.0, r.1),
        r.0 !is Over ==> client_stage_wf(r.0, input.sync_roots@),
{
    let ghost roots = input.sync_roots@;
    let ghost h0 = rec.history();
    assert(h0 =~= h0 + Seq::<CommandLine>::empty());
    match event {
        ClientEvent::Begin => {
            let pairs = client_sync_pairs(input);
            let syncs = pending_syncs(&pairs);
            proof {
                lemma_pending_is_progress_zero(pair_views(pairs@), roots);
            }
            let state = client_progress_state(preflight.tailscale_ok, copy_sync_states(&syncs), 0);
            let config = client_config(input.paired_server.as_str(), pairs);
            (ClientStage::Persisting { syncs }, ClientAction::Persist(config, state))
        },
        ClientEvent::Persisted(Err(e)) => (ClientStage::Over, ClientAction::Fail(e)),
        ClientEvent::Persisted(Ok(())) => match stage {
            ClientStage::Persisting { syncs } => match list_existing_syncs(rec) {
                Err(e) => (ClientStage::Over, ClientAction::Fail(e)),
                Ok(existing) => {
                    let ghost ex = existing;
                    let ghost middle = *rec;
                    let r = advance(rec, preflight, input, existing, syncs, 0);
                    assert(advanced(middle, *rec, preflight.tailscale_ok, roots, ex, 0, r.0, r.1));
                    r
                },
            },
            _ => {
                assert(false);
                (ClientStage::Over, ClientAction::FindExecutable)
            },
        },
        ClientEvent::StateRecorded(Err(e)) => (ClientStage::Over, ClientAction::Fail(e)),
        ClientEvent::StateRecorded(Ok(())) => match stage {
            ClientStage::Creating { existing, syncs, next } => advance(rec, preflight, input, existing, syncs, next),
            ClientStage::Recording => {
                let pairs = client_sync_pairs(input);
                let summary = client_summary(input.paired_server.clone(), &pairs);
                assert(pair_views(pairs@).map_values(|p: SyncPairView| p.name) =~= roots.map_values(
                    |r: SyncRootInput| r.name@,
                ));
                (ClientStage::Over, ClientAction::Done(summary))
            },
            _ => {
                assert(false);
                (ClientStage::Over, ClientAction::FindExecutable)
            },
        },
        ClientEvent::ExecutableFound(Err(e)) => (ClientStage::Over, ClientAction::Fail(e)),
        ClientEvent::ExecutableFound(Ok(executable)) => match stage {
            ClientStage::Locating { syncs } => {
                let agent = client_launch_agent(executable);
                (ClientStage::WritingAgent { syncs }, ClientAction::WriteAgent(paths.client_plist.clone(), agent))
            },
            _ => {
                assert(false);
                (ClientStage::Over, ClientAction::FindExecutable)
            },
        },
        ClientEvent::AgentWritten(Err(e)) => (ClientStage::Over, ClientAction::Fail(e)),
        ClientEvent::AgentWritten(Ok(())) => match stage {
            ClientStage::WritingAgent { syncs } => {
                match replace_launch_agent(rec, paths.server_plist.as_str(), paths.client_plist.as_str()) {
                    Ok(()) => {
                        let has_pairs = input.sync_roots.len() > 0;
                        let state = client_final_state(preflight.tailscale_ok, has_pairs, syncs);
                        (ClientStage::Recording, ClientAction::RecordState(state))
                    },
                    Err(e) => (ClientStage::Over, ClientAction::Fail(e)),
                }
            },
            _ => {
                assert(false);
                (ClientStage::Over, ClientAction::FindExecutable)
            },
        },
    }
}

} // verus!
