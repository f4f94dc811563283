//! Recording setup's configuration and state together: the configuration
//! file is snapshotted first, and when the state cannot be written after
//! the configuration was, the configuration file is put back as it was.
//! The caller touches the files, as each step asks.
use crate::error::Error;
use crate::text::owned;
use vstd::prelude::*;

verus! {

/// What reading the configuration file before the write found.
pub enum Snapshot {
    Found(Vec<u8>),
    Missing,
    Unreadable(Error),
}

/// What removing the configuration file came to.
pub enum Removal {
    Removed,
    Missing,
    Failed(Error),
}

/// Where recording stands.
pub enum PersistStage {
    Start,
    Snapshotting,
    WritingConfig { prior: Option<Vec<u8>> },
    WritingState { prior: Option<Vec<u8>> },
    RollingBack { state_error: Error },
    Over,
}

pub enum PersistEvent {
    Begin,
    SnapshotRead(Snapshot),
    ConfigWritten(Result<(), Error>),
    StateWritten(Result<(), Error>),
    Restored(Result<(), Error>),
    Removed(Removal),
}

pub enum PersistAction {
    /// Read the configuration file as it is.
    ReadSnapshot,
    /// Write the new configuration.
    WriteConfig,
    /// Write the new state.
    WriteState,
    /// Write these bytes back to the configuration file.
    Restore(Vec<u8>),
    /// Remove the configuration file.
    RemoveConfig,
    /// Both were recorded.
    Done,
    /// Recording stopped with this error.
    Fail(Error),
}

pub open spec fn snapshot_failure(e: Seq<char>) -> Seq<char> {
    "failed to snapshot existing config before setup write: "@ + e
}

pub open spec fn state_failure(e: Seq<char>) -> Seq<char> {
    "failed to persist setup state after config write: "@ + e
}

pub open spec fn rollback_failure(e: Seq<char>, rollback: Seq<char>) -> Seq<char> {
    state_failure(e) + "; config rollback failed: "@ + rollback
}

pub open spec fn persist_event_fits(stage: PersistStage, event: PersistEvent) -> bool {
    match stage {
        PersistStage::Start => event is Begin,
        PersistStage::Snapshotting => event is SnapshotRead,
        PersistStage::WritingConfig { .. } => event is ConfigWritten,
        PersistStage::WritingState { .. } => event is StateWritten,
        PersistStage::RollingBack { .. } => event is Restored || event is Removed,
        PersistStage::Over => false,
    }
}

pub fn persist_event_accepted(stage: &PersistStage, event: &PersistEvent) -> (r: bool)
    ensures
        r == persist_event_fits(*stage, *event),
{
    match stage {
        PersistStage::Start => matches!(event, PersistEvent::Begin),
        PersistStage::Snapshotting => matches!(event, PersistEvent::SnapshotRead(_)),
        PersistStage::WritingConfig { .. } => matches!(event, PersistEvent::ConfigWritten(_)),
        PersistStage::WritingState { .. } => matches!(event, PersistEvent::StateWritten(_)),
        PersistStage::RollingBack { .. } => matches!(event, PersistEvent::Restored(_) | PersistEvent::Removed(_)),
        PersistStage::Over => false,
    }
}

/// `action` is a failure whose message is `m`.
pub open spec fn fails_with(action: PersistAction, m: Seq<char>) -> bool {
    action matches PersistAction::Fail(e) && e.message@ == m
}

/// One step of recording.
pub open spec fn persist_step_spec(stage: PersistStage, event: PersistEvent, next: PersistStage, action: PersistAction) -> bool {
    match event {
        PersistEvent::Begin => next is Snapshotting && action is ReadSnapshot,
        PersistEvent::SnapshotRead(Snapshot::Found(bytes)) => next == (PersistStage::WritingConfig { prior: Some(bytes) })
            && action is WriteConfig,
        PersistEvent::SnapshotRead(Snapshot::Missing) => next == (PersistStage::WritingConfig { prior: None })
            && action is WriteConfig,
        PersistEvent::SnapshotRead(Snapshot::Unreadable(e)) => next is Over && fails_with(action, snapshot_failure(e.message@)),
        PersistEvent::ConfigWritten(Err(e)) => next is Over && action == PersistAction::Fail(e),
        PersistEvent::ConfigWritten(Ok(())) => match stage {
            PersistStage::WritingConfig { prior } => next == (PersistStage::WritingState { prior }) && action is WriteState,
            _ => false,
        },
        PersistEvent::StateWritten(Ok(())) => next is Over && action is Done,
        PersistEvent::StateWritten(Err(e)) => match stage {
            PersistStage::WritingState { prior } => next == (PersistStage::RollingBack { state_error: e }) && match prior {
                Some(bytes) => action == PersistAction::Restore(bytes),
                None => action is RemoveConfig,
            },
            _ => false,
        },
        PersistEvent::Restored(rolled) => match stage {
            PersistStage::RollingBack { state_error } => next is Over && match rolled {
                Ok(()) => fails_with(action, state_failure(state_error.message@)),
                Err(r) => fails_with(action, rollback_failure(state_error.message@, r.message@)),
            },
            _ => false,
        },
        PersistEvent::Removed(removal) => match stage {
            PersistStage::RollingBack { state_error } => next is Over && match removal {
                Removal::Failed(r) => fails_with(action, rollback_failure(state_error.message@, r.message@)),
                _ => fails_with(action, state_failure(state_error.message@)),
            },
            _ => false,
        },
    }
}

fn failure(prefix: &str, e: &Error) -> (r: Error)
    ensures
        r.message@ == prefix@ + e.message@,
{
    let mut m = owned(prefix);
    m.append(e.message.as_str());
    Error::new(m)
}

fn rollback_error(state_error: &Error, rollback: &Error) -> (r: Error)
    ensures
        r.message@ == rollback_failure(state_error.message@, rollback.message@),
{
    let mut m = owned("failed to persist setup state after config write: ");
    m.append(state_error.message.as_str());
    m.append("; config rollback failed: ");
    m.append(rollback.message.as_str());
    Error::new(m)
}

/// Takes recording one step further: snapshot the configuration file,
/// write the configuration, write the state; if the state write fails, put
/// back the snapshot (or remove the file when there was none, which may
/// already be gone) and report the state error, with the rollback's error
/// when that failed too.
pub fn persist_step(stage: PersistStage, event: PersistEvent) -> (r: (PersistStage, PersistAction))
    requires
        persist_event_fits(stage, event),
    ensures
        persist_step_spec(stage, event, r.0, r.1),
{
    match event {
        PersistEvent::Begin => (PersistStage::Snapshotting, PersistAction::ReadSnapshot),
        PersistEvent::SnapshotRead(Snapshot::Found(bytes)) => (
            PersistStage::WritingConfig { prior: Some(bytes) },
            PersistAction::WriteConfig,
        ),
        PersistEvent::SnapshotRead(Snapshot::Missing) => (PersistStage::WritingConfig { prior: None }, PersistAction::WriteConfig),
        PersistEvent::SnapshotRead(Snapshot::Unreadable(e)) => (
            PersistStage::Over,
            PersistAction::Fail(failure("failed to snapshot existing config before setup write: ", &e)),
        ),
        PersistEvent::ConfigWritten(Err(e)) => (PersistStage::Over, PersistAction::Fail(e)),
        PersistEvent::ConfigWritten(Ok(())) => match stage {
            PersistStage::WritingConfig { prior } => (PersistStage::WritingState { prior }, PersistAction::WriteState),
            _ => {
                assert(false);
                (PersistStage::Over, PersistAction::Done)
            },
        },
        PersistEvent::StateWritten(Ok(())) => (PersistStage::Over, PersistAction::Done),
        PersistEvent::StateWritten(Err(e)) => match stage {
            PersistStage::WritingState { prior } => match prior {
                Some(bytes) => (PersistStage::RollingBack { state_error: e }, PersistAction::Restore(bytes)),
                None => (PersistStage::RollingBack { state_error: e }, PersistAction::RemoveConfig),
            },
            _ => {
                assert(false);
                (PersistStage::Over, PersistAction::Done)
            },
        },
        PersistEvent::Restored(rolled) => match stage {
            PersistStage::RollingBack { state_error } => match rolled {
                Ok(()) => (
                    PersistStage::Over,
                    PersistAction::Fail(failure("failed to persist setup state after config write: ", &state_error)),
                ),
                Err(r) => (PersistStage::Over, PersistAction::Fail(rollback_error(&state_error, &r))),
            },
            _ => {
                assert(false);
                (PersistStage::Over, PersistAction::Done)
            },
        },
        PersistEvent::Removed(removal) => match stage {
            PersistStage::RollingBack { state_error } => match removal {
                Removal::Failed(r) => (PersistStage::Over, PersistAction::Fail(rollback_error(&state_error, &r))),
                _ => (
                    PersistStage::Over,
                    PersistAction::Fail(failure("failed to persist setup state after config write: ", &state_error)),
                ),
            },
            _ => {
                assert(false);
                (PersistStage::Over, PersistAction::Done)
            },
        },
    }
}

} // verus!
