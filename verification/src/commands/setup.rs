//! The setup command: which role to set up, and gathering what client
//! setup needs before it starts.
use crate::error::Error;
use crate::setup::client::{ClientSetupInput, SyncRootInput};
use vstd::prelude::*;

verus! {

#[derive(Debug, Clone, PartialEq, Eq)]
pub enum SetupCommand {
    Server,
    Client { server: Option<String> },
}

/// Where gathering what client setup needs stands.
pub enum RequestStage<T> {
    /// Nothing has been asked; the DNS name may be given in advance.
    Start { server_override: Option<String> },
    /// The preflight checks are running.
    Preflighting { server_override: Option<String> },
    /// The checks passed with `ready`; the server's DNS name is being asked.
    AskingDns { ready: T },
    /// The server is `server`; its sync roots are being asked.
    AskingRoots { ready: T, server: String },
    /// Gathering is complete or has failed.
    Over,
}

/// What the caller's last piece of work came to.
pub enum RequestEvent<T> {
    Begin,
    PreflightDone(Result<T, Error>),
    DnsDone(Result<String, Error>),
    RootsDone(Result<Vec<SyncRootInput>, Error>),
}

/// What the caller does next.
pub enum RequestAction<T> {
    /// Run the preflight checks.
    RunPreflight,
    /// Ask for the server's DNS name, offering this one.
    AskDns(Option<String>),
    /// Ask for the sync roots of this server.
    AskRoots(String),
    /// Gathering is complete: the preflight's result and setup's input.
    Done(T, ClientSetupInput),
    /// Gathering stopped with this error.
    Fail(Error),
}

/// The event that answers the action a stage was entered with.
pub open spec fn request_event_fits<T>(stage: RequestStage<T>, event: RequestEvent<T>) -> bool {
    match stage {
        RequestStage::Start { .. } => event is Begin,
        RequestStage::Preflighting { .. } => event is PreflightDone,
        RequestStage::AskingDns { .. } => event is DnsDone,
        RequestStage::AskingRoots { .. } => event is RootsDone,
        RequestStage::Over => false,
    }
}

pub fn request_event_accepted<T>(stage: &RequestStage<T>, event: &RequestEvent<T>) -> (r: bool)
    ensures
        r == request_event_fits(*stage, *event),
{
    match stage {
        RequestStage::Start { .. } => matches!(event, RequestEvent::Begin),
        RequestStage::Preflighting { .. } => matches!(event, RequestEvent::PreflightDone(_)),
        RequestStage::AskingDns { .. } => matches!(event, RequestEvent::DnsDone(_)),
        RequestStage::AskingRoots { .. } => matches!(event, RequestEvent::RootsDone(_)),
        RequestStage::Over => false,
    }
}

/// One step of gathering, from `stage` on `event` to `next` with `action`:
/// the preflight runs first; only once it passed is the DNS name asked,
/// and only once that is known are the sync roots asked.  A failure ends
/// gathering with its error and asks nothing more.
pub open spec fn request_step<T>(
    stage: RequestStage<T>,
    event: RequestEvent<T>,
    next: RequestStage<T>,
    action: RequestAction<T>,
) -> bool {
    match event {
        RequestEvent::Begin => match stage {
            RequestStage::Start { server_override } => next == RequestStage::<T>::Preflighting { server_override }
                && action is RunPreflight,
            _ => false,
        },
        RequestEvent::PreflightDone(Err(e)) => next is Over && action == RequestAction::<T>::Fail(e),
        RequestEvent::PreflightDone(Ok(ready)) => match stage {
            RequestStage::Preflighting { server_override } => next == RequestStage::AskingDns { ready }
                && action == RequestAction::<T>::AskDns(server_override),
            _ => false,
        },
        RequestEvent::DnsDone(Err(e)) => next is Over && action == RequestAction::<T>::Fail(e),
        RequestEvent::DnsDone(Ok(dns)) => match stage {
            RequestStage::AskingDns { ready } => next == RequestStage::AskingRoots { ready, server: dns }
                && (action matches RequestAction::AskRoots(s) && s@ == dns@),
            _ => false,
        },
        RequestEvent::RootsDone(Err(e)) => next is Over && action == RequestAction::<T>::Fail(e),
        RequestEvent::RootsDone(Ok(roots)) => match stage {
            RequestStage::AskingRoots { ready, server } => next is Over && action == RequestAction::Done(
                ready,
                ClientSetupInput { paired_server: server, sync_roots: roots },
            ),
            _ => false,
        },
    }
}

/// Takes gathering what client setup needs one step further: runs the
/// preflight checks, then asks for the server's DNS name (offering the
/// override), then for the sync roots of that server.  The first step that
/// fails ends the gathering with its error.
pub fn collect_client_setup_request<T>(stage: RequestStage<T>, event: RequestEvent<T>) -> (r: (
    RequestStage<T>,
    RequestAction<T>,
))
    requires
        request_event_fits(stage, event),
    ensures
        request_step(stage, event, r.0, r.1),
{
    match event {
        RequestEvent::Begin => match stage {
            RequestStage::Start { server_override } => (
                RequestStage::Preflighting { server_override },
                RequestAction::RunPreflight,
            ),
            _ => {
                assert(false);
                (RequestStage::Over, RequestAction::RunPreflight)
            },
        },
        RequestEvent::PreflightDone(Err(e)) => (RequestStage::Over, RequestAction::Fail(e)),
        RequestEvent::PreflightDone(Ok(ready)) => match stage {
            RequestStage::Preflighting { server_override } => (
                RequestStage::AskingDns { ready },
                RequestAction::AskDns(server_override),
            ),
            _ => {
                assert(false);
                (RequestStage::Over, RequestAction::RunPreflight)
            },
        },
        RequestEvent::DnsDone(Err(e)) => (RequestStage::Over, RequestAction::Fail(e)),
        RequestEvent::DnsDone(Ok(dns)) => match stage {
            RequestStage::AskingDns { ready } => {
                let asked = dns.clone();
                (RequestStage::AskingRoots { ready, server: dns }, RequestAction::AskRoots(asked))
            },
            _ => {
                assert(false);
                (RequestStage::Over, RequestAction::RunPreflight)
            },
        },
        RequestEvent::RootsDone(Err(e)) => (RequestStage::Over, RequestAction::Fail(e)),
        RequestEvent::RootsDone(Ok(roots)) => match stage {
            RequestStage::AskingRoots { ready, server } => (
                RequestStage::Over,
                RequestAction::Done(ready, ClientSetupInput { paired_server: server, sync_roots: roots }),
            ),
            _ => {
                assert(false);
                (RequestStage::Over, RequestAction::RunPreflight)
            },
        },
    }
}

/// Law: the DNS name is asked only right after a preflight that passed,
/// the sync roots only right after a DNS name was given, and a failure
/// ends gathering: no event is accepted after it, so nothing more is asked.
pub proof fn lemma_request_order<T>(
    stage: RequestStage<T>,
    event: RequestEvent<T>,
    next: RequestStage<T>,
    action: RequestAction<T>,
)
    requires
        request_event_fits(stage, event),
        request_step(stage, event, next, action),
    ensures
        action is AskDns ==> (event matches RequestEvent::PreflightDone(Ok(_))),
        action is AskRoots ==> (event matches RequestEvent::DnsDone(Ok(_))),
        action is Fail ==> next is Over && forall|e: RequestEvent<T>| !request_event_fits(next, e),
{
}

} // verus!
