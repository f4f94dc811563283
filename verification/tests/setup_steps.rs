use std::cell::RefCell;

use eternalmac::model::config::Role;
use eternalmac::platform::launchd::render;
use eternalmac::process::runner::{Output, Recorder, Runner};
use eternalmac::setup::client::{
    client_config, client_final_state, client_launch_agent, client_progress_state,
    client_summary, client_sync_pairs, ensure_sync_root, has_matching_existing_sync,
    list_existing_syncs, mark_created, pending_syncs, ClientPreflight, ClientSetupInput,
    SyncRootInput,
};
use eternalmac::setup::common::{
    install_prerequisites, is_expected_unload_absence, replace_launch_agent, DAEMON_PATH,
};
use eternalmac::setup::server::{
    bootstrap_sessions, check_server_reachability, resolve_server_dns, server_config,
    server_final_state, server_launch_agent, server_progress_state, server_summary,
    tmux_list_sessions_failed_without_server, DNS_UNAVAILABLE, ET_ADVICE, REMOTE_LOGIN_ADVICE,
};
use eternalmac::tooling::mutagen::ListedSession;
use eternalmac::tooling::tailscale::Status;
use eternalmac::Error;

struct Stub {
    program: &'static str,
    args: Vec<&'static str>,
    output: Output,
}

/// Answers each call from the first matching stub, else with an empty
/// success, and records the calls.
struct FakeRunner {
    calls: RefCell<Vec<(String, Vec<String>)>>,
    stubs: Vec<Stub>,
}

impl FakeRunner {
    fn new(stubs: Vec<Stub>) -> Self {
        Self {
            calls: RefCell::new(vec![]),
            stubs,
        }
    }

    fn called(&self, program: &str, args: &[&str]) -> bool {
        self.calls
            .borrow()
            .iter()
            .any(|(p, a)| p == program && a.iter().map(String::as_str).eq(args.iter().copied()))
    }

    fn programs(&self) -> Vec<String> {
        self.calls.borrow().iter().map(|(p, _)| p.clone()).collect()
    }
}

impl Runner for FakeRunner {
    fn run(&self, program: &str, args: &[String]) -> Result<Output, Error> {
        self.calls
            .borrow_mut()
            .push((program.to_string(), args.to_vec()));
        for stub in &self.stubs {
            if stub.program == program && stub.args.iter().copied().eq(args.iter().map(String::as_str)) {
                return Ok(stub.output.clone());
            }
        }
        Ok(out("", "", true))
    }
}

fn out(stdout: &str, stderr: &str, success: bool) -> Output {
    Output {
        stdout: stdout.into(),
        stderr: stderr.into(),
        success,
    }
}

fn stub(program: &'static str, args: Vec<&'static str>, output: Output) -> Stub {
    Stub { program, args, output }
}

fn running(dns: Option<&str>) -> Status {
    Status {
        backend_state: "Running".into(),
        dns_name: dns.map(String::from),
    }
}

fn root(name: &str, local: &str, remote: &str) -> SyncRootInput {
    SyncRootInput {
        name: name.into(),
        local: local.into(),
        remote: remote.into(),
    }
}

fn listed(name: &str, alpha: Option<&str>, beta: Option<&str>) -> ListedSession {
    ListedSession {
        name: name.into(),
        identifier: None,
        alpha_url: alpha.map(String::from),
        beta_url: beta.map(String::from),
        status: None,
    }
}

#[test]
fn install_prerequisites_runs_brew_then_tailscale_in_order() {
    let runner = FakeRunner::new(vec![stub(
        "tailscale",
        vec!["status", "--json"],
        out("{\"BackendState\":\"Running\"}", "", true),
    )]);
    let status = install_prerequisites(&mut Recorder::new(&runner)).unwrap();
    assert_eq!(status.stdout, "{\"BackendState\":\"Running\"}");
    let calls = runner.calls.borrow();
    let expected: Vec<(&str, Vec<&str>)> = vec![
        ("brew", vec!["tap", "mutagen-io/mutagen"]),
        ("brew", vec!["install", "et", "tmux", "mutagen-io/mutagen/mutagen"]),
        ("brew", vec!["install", "--cask", "tailscale-app"]),
        ("tailscale", vec!["status", "--json"]),
    ];
    assert_eq!(calls.len(), expected.len());
    for ((p, a), (ep, ea)) in calls.iter().zip(expected) {
        assert_eq!(p, ep);
        assert_eq!(a, &ea);
    }
}

#[test]
fn install_prerequisites_stops_at_the_first_failure() {
    let runner = FakeRunner::new(vec![stub(
        "brew",
        vec!["install", "et", "tmux", "mutagen-io/mutagen/mutagen"],
        out("", "no bottle", false),
    )]);
    let error = install_prerequisites(&mut Recorder::new(&runner)).unwrap_err();
    assert_eq!(
        error.to_string(),
        "command failed: brew install et tmux mutagen-io/mutagen/mutagen; stderr: no bottle"
    );
    assert_eq!(runner.calls.borrow().len(), 2);
    assert!(!runner.programs().contains(&"tailscale".to_string()));
}

#[test]
fn server_dns_requires_running_tailscale_with_a_name() {
    assert_eq!(
        resolve_server_dns(&running(Some("mac-mini.example.ts.net"))).unwrap(),
        "mac-mini.example.ts.net"
    );
    assert_eq!(
        resolve_server_dns(&running(None)).unwrap_err().to_string(),
        DNS_UNAVAILABLE
    );
    let stopped = Status {
        backend_state: "NeedsLogin".into(),
        dns_name: Some("x".into()),
    };
    assert_eq!(
        resolve_server_dns(&stopped).unwrap_err().to_string(),
        "tailscale is not connected (backend state: NeedsLogin); sign in to Tailscale and rerun `eternalMac setup server`"
    );
}

#[test]
fn reachability_errors_without_dns_before_running_anything() {
    let runner = FakeRunner::new(vec![]);
    let error = check_server_reachability(&mut Recorder::new(&runner), &running(None)).unwrap_err();
    assert!(error.to_string().contains("dns"));
    assert!(runner.calls.borrow().is_empty());
}

#[test]
fn reachability_probes_ssh_then_starts_and_probes_et() {
    let runner = FakeRunner::new(vec![]);
    let dns = check_server_reachability(&mut Recorder::new(&runner), &running(Some("mac-mini.example.ts.net"))).unwrap();
    assert_eq!(dns, "mac-mini.example.ts.net");
    assert!(runner.called("nc", &["-G", "5", "-z", "localhost", "22"]));
    assert!(runner.called("brew", &["services", "start", "et"]));
    assert!(runner.called("nc", &["-G", "5", "-z", "localhost", "2022"]));
    assert_eq!(runner.programs(), vec!["nc", "brew", "nc"]);
}

#[test]
fn reachability_reports_advice_when_a_probe_fails() {
    let runner = FakeRunner::new(vec![stub(
        "nc",
        vec!["-G", "5", "-z", "localhost", "22"],
        out(" ", "Connection refused\n", false),
    )]);
    let error = check_server_reachability(&mut Recorder::new(&runner), &running(Some("h"))).unwrap_err();
    assert_eq!(
        error.to_string(),
        format!("{REMOTE_LOGIN_ADVICE}; stderr: Connection refused")
    );
    assert_eq!(runner.calls.borrow().len(), 1);

    let runner = FakeRunner::new(vec![stub(
        "nc",
        vec!["-G", "5", "-z", "localhost", "2022"],
        out("timeout", "", false),
    )]);
    let error = check_server_reachability(&mut Recorder::new(&runner), &running(Some("h"))).unwrap_err();
    assert_eq!(error.to_string(), format!("{ET_ADVICE}; stdout: timeout"));
}

#[test]
fn server_setup_values_are_recorded_as_setup_describes() {
    let config = server_config("mac-mini".into(), "mac-mini.example.ts.net");
    let server = config.server.clone().unwrap();
    assert!(matches!(config.role, Role::Server));
    assert_eq!(server.host_label, "mac-mini");
    assert_eq!(server.default_session, "default");
    assert_eq!(server.boot_sessions, vec!["default"]);
    assert_eq!(server.tailscale_dns.as_deref(), Some("mac-mini.example.ts.net"));
    assert!(config.client.is_none());

    let progress = server_progress_state("mac-mini.example.ts.net");
    assert!(progress.tailscale_ok && !progress.healthy);

    let done = server_final_state("mac-mini.example.ts.net", vec!["default".into()]);
    assert_eq!(done.summary, "server setup complete; runtime health pending");
    assert!(done.healthy && done.server_reachable && !done.daemon_healthy);
    assert_eq!(done.known_sessions, vec!["default"]);

    let summary = server_summary("mac-mini.example.ts.net".into());
    assert_eq!(summary.dns_name, "mac-mini.example.ts.net");
    assert_eq!(summary.default_session, "default");
}

#[test]
fn bootstrap_creates_default_session_when_missing() {
    let runner = FakeRunner::new(vec![stub(
        "tmux",
        vec!["list-sessions", "-F", "#S"],
        out("pairing\n", "", true),
    )]);
    let sessions = bootstrap_sessions(&mut Recorder::new(&runner)).unwrap();
    assert_eq!(sessions, vec!["pairing", "default"]);
    assert!(runner.called("tmux", &["new-session", "-d", "-s", "default"]));
}

#[test]
fn bootstrap_skips_creation_when_default_session_already_exists() {
    let runner = FakeRunner::new(vec![stub(
        "tmux",
        vec!["list-sessions", "-F", "#S"],
        out("default\npairing\n", "", true),
    )]);
    let sessions = bootstrap_sessions(&mut Recorder::new(&runner)).unwrap();
    assert_eq!(sessions, vec!["default", "pairing"]);
    assert!(!runner.called("tmux", &["new-session", "-d", "-s", "default"]));
}

#[test]
fn bootstrap_treats_a_missing_tmux_server_as_no_sessions() {
    let runner = FakeRunner::new(vec![stub(
        "tmux",
        vec!["list-sessions", "-F", "#S"],
        out("", "no server running on /private/tmp/tmux-501/default\n", false),
    )]);
    assert_eq!(bootstrap_sessions(&mut Recorder::new(&runner)).unwrap(), vec!["default"]);
}

#[test]
fn bootstrap_reports_other_listing_failures_and_creation_failures() {
    let runner = FakeRunner::new(vec![stub(
        "tmux",
        vec!["list-sessions", "-F", "#S"],
        out("", "permission denied", false),
    )]);
    assert_eq!(
        bootstrap_sessions(&mut Recorder::new(&runner)).unwrap_err().to_string(),
        "command failed: tmux list-sessions -F #S; stderr: permission denied"
    );
    assert_eq!(runner.calls.borrow().len(), 1);

    let runner = FakeRunner::new(vec![stub(
        "tmux",
        vec!["new-session", "-d", "-s", "default"],
        out("", "tmux failed", false),
    )]);
    let error = bootstrap_sessions(&mut Recorder::new(&runner)).unwrap_err();
    assert!(error.to_string().contains("tmux failed"));
    assert!(!runner.programs().contains(&"launchctl".to_string()));
}

#[test]
fn tmux_absence_messages_are_recognised() {
    assert!(tmux_list_sessions_failed_without_server("No server running on /tmp/x"));
    assert!(tmux_list_sessions_failed_without_server("failed to connect to server"));
    assert!(tmux_list_sessions_failed_without_server(
        "error connecting to /tmp/tmux-501/default (No such file or directory)"
    ));
    assert!(tmux_list_sessions_failed_without_server(
        "error connecting to /tmp/tmux-501/default (Connection refused)"
    ));
    assert!(!tmux_list_sessions_failed_without_server("error connecting to /tmp/x (Permission denied)"));
    assert!(!tmux_list_sessions_failed_without_server("   "));
}

#[test]
fn server_launch_agent_runs_the_server_daemon_with_the_daemon_path() {
    let agent = server_launch_agent("/opt/homebrew/bin/eternalMac".into());
    assert_eq!(agent.label, "com.eternalmac.server");
    assert_eq!(
        agent.program_arguments,
        vec!["/opt/homebrew/bin/eternalMac", "daemon", "server"]
    );
    assert_eq!(
        agent.environment_variables,
        vec![("PATH".to_string(), DAEMON_PATH.to_string())]
    );
    let xml = render(&agent);
    assert!(xml.contains("<key>EnvironmentVariables</key>"));
    assert!(xml.contains("<key>PATH</key>"));
    assert!(xml.contains(
        "<string>/opt/homebrew/bin:/usr/local/bin:/usr/bin:/bin:/usr/sbin:/sbin</string>"
    ));
    let client = client_launch_agent("/x".into());
    assert_eq!(client.label, "com.eternalmac.client");
    assert_eq!(client.program_arguments, vec!["/x", "daemon", "client"]);
    assert!(client.run_at_load && client.keep_alive);
}

#[test]
fn replace_launch_agent_unloads_other_then_loads_own() {
    let runner = FakeRunner::new(vec![]);
    replace_launch_agent(&mut Recorder::new(&runner), "/a/client.plist", "/a/server.plist").unwrap();
    let calls = runner.calls.borrow();
    assert_eq!(calls.len(), 2);
    assert_eq!(calls[0].1, vec!["unload", "-w", "/a/client.plist"]);
    assert_eq!(calls[1].1, vec!["load", "-w", "/a/server.plist"]);
}

#[test]
fn replace_launch_agent_ignores_not_loaded_errors() {
    let runner = FakeRunner::new(vec![stub(
        "launchctl",
        vec!["unload", "-w", "/a/client.plist"],
        out("", "Could not find specified service", false),
    )]);
    replace_launch_agent(&mut Recorder::new(&runner), "/a/client.plist", "/a/server.plist").unwrap();
    assert!(runner.called("launchctl", &["load", "-w", "/a/server.plist"]));
}

#[test]
fn replace_launch_agent_fails_on_unexpected_unload_error_without_loading() {
    let runner = FakeRunner::new(vec![stub(
        "launchctl",
        vec!["unload", "-w", "/a/client.plist"],
        out("details", "permission denied", false),
    )]);
    let error = replace_launch_agent(&mut Recorder::new(&runner), "/a/client.plist", "/a/server.plist").unwrap_err();
    assert_eq!(
        error.to_string(),
        "command failed: launchctl unload -w /a/client.plist; stderr: permission denied; stdout: details"
    );
    assert!(!runner.called("launchctl", &["load", "-w", "/a/server.plist"]));
}

#[test]
fn replace_launch_agent_reports_load_failure() {
    let runner = FakeRunner::new(vec![stub(
        "launchctl",
        vec!["load", "-w", "/a/server.plist"],
        out("", "launch failed", false),
    )]);
    let error = replace_launch_agent(&mut Recorder::new(&runner), "/a/client.plist", "/a/server.plist").unwrap_err();
    assert_eq!(
        error.to_string(),
        "command failed: launchctl load -w /a/server.plist; stderr: launch failed"
    );
}

#[test]
fn unload_absence_reads_both_streams_case_insensitively() {
    assert!(is_expected_unload_absence(&out("Service NOT LOADED", "", false)));
    assert!(is_expected_unload_absence(&out("", "No such process", false)));
    assert!(is_expected_unload_absence(&out("", "path NOT FOUND", false)));
    assert!(!is_expected_unload_absence(&out("", "Input/output error", false)));
}

#[test]
fn client_setup_values_follow_the_requested_roots() {
    let input = ClientSetupInput {
        paired_server: "mac-mini.example.ts.net".into(),
        sync_roots: vec![
            root("project", "/Users/me/project", "mac-mini.example.ts.net:~/project"),
            root("documents", "/Users/me/documents", "mac-mini.example.ts.net:~/documents"),
        ],
    };
    let pairs = client_sync_pairs(&input);
    assert_eq!(pairs.len(), 2);
    assert_eq!(pairs[1].name, "documents");
    assert!(pairs.iter().all(|p| p.mode == "two-way-resolved"));

    let config = client_config("mac-mini.example.ts.net", pairs.clone());
    let client = config.client.clone().unwrap();
    assert!(matches!(config.role, Role::Client));
    assert_eq!(client.paired_server, "mac-mini.example.ts.net");
    assert!(client.pinned.is_empty());
    assert_eq!(client.sync_pairs, pairs);

    let mut syncs = pending_syncs(&pairs);
    assert!(syncs.iter().all(|s| s.status == "pending"));
    let progress = client_progress_state(true, syncs.clone(), 0);
    assert!(!progress.server_reachable);
    mark_created(&mut syncs, 0);
    assert_eq!(syncs[0].status, "created");
    assert_eq!(syncs[1].status, "pending");
    let progress = client_progress_state(true, syncs.clone(), 1);
    assert!(progress.server_reachable && !progress.healthy);

    let done = client_final_state(true, true, syncs.clone());
    assert!(done.healthy);
    assert_eq!(done.summary, "client setup complete; runtime health pending");
    assert!(!client_final_state(false, true, syncs).healthy);

    let summary = client_summary("mac-mini.example.ts.net".into(), &pairs);
    assert_eq!(summary.sync_names, vec!["project", "documents"]);

    assert!(ClientPreflight::from_status(&running(None)).tailscale_ok);
    let stopped = Status {
        backend_state: "Stopped".into(),
        dns_name: None,
    };
    assert!(!ClientPreflight::from_status(&stopped).tailscale_ok);
}

#[test]
fn existing_sync_matching_decides_create_skip_or_error() {
    let wanted = root("project", "/Users/me/project", "mac-mini.example.ts.net:~/project");
    assert_eq!(has_matching_existing_sync(&[], &wanted).unwrap(), false);
    let same = listed("project", Some("/Users/me/project"), Some("mac-mini.example.ts.net:~/project"));
    assert_eq!(
        has_matching_existing_sync(&[listed("other", None, None), same.clone()], &wanted).unwrap(),
        true
    );
    let error = has_matching_existing_sync(&[same.clone(), same], &wanted).unwrap_err();
    assert_eq!(
        error.to_string(),
        "multiple mutagen syncs already use the name `project`; remove the duplicates before rerunning `eternalMac setup client`"
    );
    let error = has_matching_existing_sync(&[listed("project", Some("/elsewhere"), None)], &wanted).unwrap_err();
    assert_eq!(
        error.to_string(),
        "existing mutagen sync `project` does not match requested endpoints; expected /Users/me/project <-> mac-mini.example.ts.net:~/project, found /elsewhere <-> unknown"
    );
}

#[test]
fn ensure_sync_root_skips_create_when_matching_sync_already_exists() {
    let runner = FakeRunner::new(vec![stub(
        "mutagen",
        vec!["sync", "list"],
        out(
            "Name: project\nAlpha:\n URL: /Users/me/project\nBeta:\n URL: mac-mini.example.ts.net:~/project\n",
            "",
            true,
        ),
    )]);
    let existing = list_existing_syncs(&mut Recorder::new(&runner)).unwrap();
    let wanted = root("project", "/Users/me/project", "mac-mini.example.ts.net:~/project");
    ensure_sync_root(&mut Recorder::new(&runner), &existing, &wanted).unwrap();
    assert_eq!(runner.programs(), vec!["mutagen"]);
}

#[test]
fn ensure_sync_root_creates_missing_sync_and_reports_failure() {
    let runner = FakeRunner::new(vec![]);
    let wanted = root("documents", "/Users/me/documents", "mac-mini.example.ts.net:~/documents");
    ensure_sync_root(&mut Recorder::new(&runner), &[], &wanted).unwrap();
    assert!(runner.called(
        "mutagen",
        &[
            "sync",
            "create",
            "--name",
            "documents",
            "--sync-mode",
            "two-way-resolved",
            "/Users/me/documents",
            "mac-mini.example.ts.net:~/documents",
        ]
    ));

    let runner = FakeRunner::new(vec![stub(
        "mutagen",
        vec![
            "sync",
            "create",
            "--name",
            "documents",
            "--sync-mode",
            "two-way-resolved",
            "/Users/me/documents",
            "mac-mini.example.ts.net:~/documents",
        ],
        out("", "mutagen failed", false),
    )]);
    let error = ensure_sync_root(&mut Recorder::new(&runner), &[], &wanted).unwrap_err();
    assert!(error.to_string().contains("mutagen failed"));
}

