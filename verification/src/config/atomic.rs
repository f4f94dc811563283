//! Replacing a file atomically: the new contents go to a fresh temporary
//! file beside it, which is then renamed over it.  A name that is taken is
//! retried with a new one a limited number of times; a temporary file left
//! by a failed write or rename is removed.  The caller touches the files
//! and reads the clock, as each step asks.
use crate::app::paths::{join, path_join};
use crate::error::Error;
use crate::text::{decimal, owned, push_decimal};
use vstd::prelude::*;

verus! {

/// How many temporary names are tried.
pub const TEMP_ATTEMPTS: usize = 16;

/// What creating the temporary file came to.
pub enum OpenOutcome {
    Created,
    Exists,
    Failed(Error),
}

pub enum WriteStage {
    Start,
    Clocking { attempt: usize },
    Opening { attempt: usize, candidate: String },
    Writing { candidate: String },
    Renaming { candidate: String },
    CleaningUp { error: Error },
    Over,
}

pub enum WriteEvent {
    Begin,
    ClockRead(Result<u128, Error>),
    Opened(OpenOutcome),
    Written(Result<(), Error>),
    Renamed(Result<(), Error>),
    Cleaned,
}

pub enum WriteAction {
    /// Read the time in nanoseconds since the Unix epoch.
    ReadClock,
    /// Create this file, failing if it exists.
    CreateNew(String),
    /// Write the contents to the created file and flush it to disk.
    WriteContents(String),
    /// Rename the written file over the target.
    Rename(String),
    /// Remove this temporary file, whatever comes of it.
    RemoveTemp(String),
    Done,
    Fail(Error),
}

/// The temporary name for an attempt: hidden, after the file it replaces,
/// unique by process, time and attempt.
pub open spec fn temp_name(file_name: Seq<char>, pid: u32, nanos: u128, attempt: usize) -> Seq<char> {
    "."@ + file_name + ".tmp-"@ + decimal(pid as nat) + "-"@ + decimal(nanos as nat) + "-"@ + decimal(
        attempt as nat,
    )
}

pub open spec fn allocation_failure(target: Seq<char>) -> Seq<char> {
    "failed to allocate temp file for atomic write: "@ + target
}

pub open spec fn write_event_fits(stage: WriteStage, event: WriteEvent) -> bool {
    match stage {
        WriteStage::Start => event is Begin,
        WriteStage::Clocking { .. } => event is ClockRead,
        WriteStage::Opening { .. } => event is Opened,
        WriteStage::Writing { .. } => event is Written,
        WriteStage::Renaming { .. } => event is Renamed,
        WriteStage::CleaningUp { .. } => event is Cleaned,
        WriteStage::Over => false,
    }
}

/// A stage's attempt number is one that may still be made.
pub open spec fn write_stage_wf(stage: WriteStage) -> bool {
    match stage {
        WriteStage::Clocking { attempt } => attempt < TEMP_ATTEMPTS,
        WriteStage::Opening { attempt, .. } => attempt < TEMP_ATTEMPTS,
        _ => true,
    }
}

pub fn write_event_accepted(stage: &WriteStage, event: &WriteEvent) -> (r: bool)
    ensures
        r == write_event_fits(*stage, *event),
{
    match stage {
        WriteStage::Start => matches!(event, WriteEvent::Begin),
        WriteStage::Clocking { .. } => matches!(event, WriteEvent::ClockRead(_)),
        WriteStage::Opening { .. } => matches!(event, WriteEvent::Opened(_)),
        WriteStage::Writing { .. } => matches!(event, WriteEvent::Written(_)),
        WriteStage::Renaming { .. } => matches!(event, WriteEvent::Renamed(_)),
        WriteStage::CleaningUp { .. } => matches!(event, WriteEvent::Cleaned),
        WriteStage::Over => false,
    }
}

/// One step of an atomic write of `target`, whose directory is `parent` and
/// whose name is `file_name`, by process `pid`.
pub open spec fn write_step_spec(
    parent: Seq<char>,
    file_name: Seq<char>,
    target: Seq<char>,
    pid: u32,
    stage: WriteStage,
    event: WriteEvent,
    next: WriteStage,
    action: WriteAction,
) -> bool {
    match event {
        WriteEvent::Begin => next == (WriteStage::Clocking { attempt: 0 }) && action is ReadClock,
        WriteEvent::ClockRead(Err(e)) => next is Over && action == WriteAction::Fail(e),
        WriteEvent::ClockRead(Ok(nanos)) => match stage {
            WriteStage::Clocking { attempt } => next matches WriteStage::Opening { attempt: a, candidate } && a == attempt
                && candidate@ == path_join(parent, temp_name(file_name, pid, nanos, attempt))
                && action == WriteAction::CreateNew(candidate),
            _ => false,
        },
        WriteEvent::Opened(OpenOutcome::Created) => match stage {
            WriteStage::Opening { candidate, .. } => next == (WriteStage::Writing { candidate })
                && action == WriteAction::WriteContents(candidate),
            _ => false,
        },
        WriteEvent::Opened(OpenOutcome::Exists) => match stage {
            WriteStage::Opening { attempt, .. } => if attempt + 1 < TEMP_ATTEMPTS {
                next == (WriteStage::Clocking { attempt: (attempt + 1) as usize }) && action is ReadClock
            } else {
                next is Over && (action matches WriteAction::Fail(e) && e.message@ == allocation_failure(target))
            },
            _ => false,
        },
        WriteEvent::Opened(OpenOutcome::Failed(e)) => next is Over && action == WriteAction::Fail(e),
        WriteEvent::Written(Ok(())) => match stage {
            WriteStage::Writing { candidate } => next == (WriteStage::Renaming { candidate })
                && action == WriteAction::Rename(candidate),
            _ => false,
        },
        WriteEvent::Written(Err(e)) => match stage {
            WriteStage::Writing { candidate } => next == (WriteStage::CleaningUp { error: e })
                && action == WriteAction::RemoveTemp(candidate),
            _ => false,
        },
        WriteEvent::Renamed(Ok(())) => next is Over && action is Done,
        WriteEvent::Renamed(Err(e)) => match stage {
            WriteStage::Renaming { candidate } => next == (WriteStage::CleaningUp { error: e })
                && action == WriteAction::RemoveTemp(candidate),
            _ => false,
        },
        WriteEvent::Cleaned => match stage {
            WriteStage::CleaningUp { error } => next is Over && action == WriteAction::Fail(error),
            _ => false,
        },
    }
}

fn candidate_path(parent: &str, file_name: &str, pid: u32, nanos: u128, attempt: usize) -> (r: String)
    ensures
        r@ == path_join(parent@, temp_name(file_name@, pid, nanos, attempt)),
{
    let mut name = owned(".");
    name.append(file_name);
    name.append(".tmp-");
    push_decimal(&mut name, pid as u128);
    name.append("-");
    push_decimal(&mut name, nanos);
    name.append("-");
    push_decimal(&mut name, attempt as u128);
    join(parent, name.as_str())
}

/// Takes an atomic write one step further: read the clock and try to
/// create the temporary file of the next attempt; when its name is taken,
/// try again while attempts remain; write the contents to it and rename it
/// over the target; when writing or renaming fails, remove it and report
/// that failure.
pub fn atomic_write_step(
    parent: &str,
    file_name: &str,
    target: &str,
    pid: u32,
    stage: WriteStage,
    event: WriteEvent,
) -> (r: (WriteStage, WriteAction))
    requires
        write_event_fits(stage, event),
        write_stage_wf(stage),
    ensures
        write_step_spec(parent@, file_name@, target@, pid, stage, event, r.0, r.1),
        write_stage_wf(r.0),
{
    match event {
        WriteEvent::Begin => (WriteStage::Clocking { attempt: 0 }, WriteAction::ReadClock),
        WriteEvent::ClockRead(Err(e)) => (WriteStage::Over, WriteAction::Fail(e)),
        WriteEvent::ClockRead(Ok(nanos)) => match stage {
            WriteStage::Clocking { attempt } => {
                let candidate = candidate_path(parent, file_name, pid, nanos, attempt);
                let action = WriteAction::CreateNew(candidate.clone());
                (WriteStage::Opening { attempt, candidate }, action)
            },
            _ => {
                assert(false);
                (WriteStage::Over, WriteAction::Done)
            },
        },
        WriteEvent::Opened(OpenOutcome::Created) => match stage {
            WriteStage::Opening { candidate, .. } => {
                let action = WriteAction::WriteContents(candidate.clone());
                (WriteStage::Writing { candidate }, action)
            },
            _ => {
                assert(false);
                (WriteStage::Over, WriteAction::Done)
            },
        },
        WriteEvent::Opened(OpenOutcome::Exists) => match stage {
            WriteStage::Opening { attempt, .. } => {
                if attempt + 1 < TEMP_ATTEMPTS {
                    (WriteStage::Clocking { attempt: attempt + 1 }, WriteAction::ReadClock)
                } else {
                    let mut m = owned("failed to allocate temp file for atomic write: ");
                    m.append(target);
                    (WriteStage::Over, WriteAction::Fail(Error::new(m)))
                }
            },
            _ => {
                assert(false);
                (WriteStage::Over, WriteAction::Done)
            },
        },
        WriteEvent::Opened(OpenOutcome::Failed(e)) => (WriteStage::Over, WriteAction::Fail(e)),
        WriteEvent::Written(Ok(())) => match stage {
            WriteStage::Writing { candidate } => {
                let action = WriteAction::Rename(candidate.clone());
                (WriteStage::Renaming { candidate }, action)
            },
            _ => {
                assert(false);
                (WriteStage::Over, WriteAction::Done)
            },
        },
        WriteEvent::Written(Err(e)) => match stage {
            WriteStage::Writing { candidate } => (WriteStage::CleaningUp { error: e }, WriteAction::RemoveTemp(candidate)),
            _ => {
                assert(false);
                (WriteStage::Over, WriteAction::Done)
            },
        },
        WriteEvent::Renamed(Ok(())) => (WriteStage::Over, WriteAction::Done),
        WriteEvent::Renamed(Err(e)) => match stage {
            WriteStage::Renaming { candidate } => (WriteStage::CleaningUp { error: e }, WriteAction::RemoveTemp(candidate)),
            _ => {
                assert(false);
                (WriteStage::Over, WriteAction::Done)
            },
        },
        WriteEvent::Cleaned => match stage {
            WriteStage::CleaningUp { error } => (WriteStage::Over, WriteAction::Fail(error)),
            _ => {
                assert(false);
                (WriteStage::Over, WriteAction::Done)
            },
        },
    }
}

} // verus!
