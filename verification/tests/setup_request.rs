use std::cell::RefCell;

use eternalmac::commands::setup::{
    collect_client_setup_request, request_event_accepted, RequestAction, RequestEvent, RequestStage,
};
use eternalmac::setup::client::{ClientSetupInput, SyncRootInput};
use eternalmac::Error;

/// Runs the gathering steps, doing each action with the given closures.
fn collect<T>(
    server_override: Option<String>,
    preflight: impl FnOnce() -> Result<T, Error>,
    prompt_dns: impl FnOnce(Option<String>) -> Result<String, Error>,
    prompt_roots: impl FnOnce(&str) -> Result<Vec<SyncRootInput>, Error>,
) -> Result<(T, ClientSetupInput), Error> {
    let mut preflight = Some(preflight);
    let mut prompt_dns = Some(prompt_dns);
    let mut prompt_roots = Some(prompt_roots);
    let mut stage = RequestStage::Start { server_override };
    let mut event = RequestEvent::Begin;
    loop {
        assert!(request_event_accepted(&stage, &event));
        let (next, action) = collect_client_setup_request(stage, event);
        stage = next;
        event = match action {
            RequestAction::RunPreflight => RequestEvent::PreflightDone(preflight.take().unwrap()()),
            RequestAction::AskDns(o) => RequestEvent::DnsDone(prompt_dns.take().unwrap()(o)),
            RequestAction::AskRoots(server) => RequestEvent::RootsDone(prompt_roots.take().unwrap()(&server)),
            RequestAction::Done(ready, input) => return Ok((ready, input)),
            RequestAction::Fail(error) => return Err(error),
        };
    }
}

#[test]
fn client_setup_request_runs_preflight_before_prompts() {
    let calls = RefCell::new(Vec::new());

    let (preflight, input) = collect(
        Some("override.ts.net".into()),
        || {
            calls.borrow_mut().push("preflight");
            Ok("ready")
        },
        |server_override| {
            calls.borrow_mut().push("prompt-dns");
            assert_eq!(server_override.as_deref(), Some("override.ts.net"));
            Ok("mac-mini.example.ts.net".into())
        },
        |server_dns| {
            calls.borrow_mut().push("prompt-syncs");
            assert_eq!(server_dns, "mac-mini.example.ts.net");
            Ok(vec![SyncRootInput {
                name: "project".into(),
                local: "/Users/me/project".into(),
                remote: "mac-mini.example.ts.net:~/project".into(),
            }])
        },
    )
    .unwrap();

    assert_eq!(preflight, "ready");
    assert_eq!(
        calls.into_inner(),
        vec!["preflight", "prompt-dns", "prompt-syncs"]
    );
    assert_eq!(input.paired_server, "mac-mini.example.ts.net");
    assert_eq!(input.sync_roots.len(), 1);
    assert_eq!(input.sync_roots[0].name, "project");
}

#[test]
fn client_setup_request_stops_before_prompts_when_preflight_fails() {
    let calls = RefCell::new(Vec::new());

    let error = collect(
        None,
        || -> Result<(), Error> {
            calls.borrow_mut().push("preflight");
            Err(Error::msg("tailscale missing"))
        },
        |_server_override| {
            calls.borrow_mut().push("prompt-dns");
            Ok("mac-mini.example.ts.net".into())
        },
        |_server_dns| {
            calls.borrow_mut().push("prompt-syncs");
            Ok(vec![])
        },
    )
    .unwrap_err();

    assert!(error.to_string().contains("tailscale missing"));
    assert_eq!(calls.into_inner(), vec!["preflight"]);
}

#[test]
fn client_setup_request_stops_before_sync_prompt_when_dns_prompt_fails() {
    let calls = RefCell::new(Vec::new());

    let error = collect(
        None,
        || {
            calls.borrow_mut().push("preflight");
            Ok(())
        },
        |_server_override| {
            calls.borrow_mut().push("prompt-dns");
            Err(Error::msg("no server name"))
        },
        |_server_dns| {
            calls.borrow_mut().push("prompt-syncs");
            Ok(vec![])
        },
    )
    .unwrap_err();

    assert_eq!(error.to_string(), "no server name");
    assert_eq!(calls.into_inner(), vec!["preflight", "prompt-dns"]);
}

#[test]
fn client_setup_request_passes_a_sync_prompt_failure_through() {
    let error = collect(
        Some("mac-mini".into()),
        || Ok(()),
        |o| Ok(o.unwrap()),
        |_server_dns| Err(Error::msg("no roots")),
    )
    .unwrap_err();
    assert_eq!(error.to_string(), "no roots");
}

#[test]
fn client_setup_request_refuses_events_after_it_is_over() {
    let (stage, action) = collect_client_setup_request::<()>(
        RequestStage::Preflighting { server_override: None },
        RequestEvent::PreflightDone(Err(Error::msg("tailscale missing"))),
    );
    assert!(matches!(action, RequestAction::Fail(_)));
    assert!(!request_event_accepted(&stage, &RequestEvent::DnsDone(Ok("x".into()))));
    assert!(!request_event_accepted(&stage, &RequestEvent::Begin));
}
