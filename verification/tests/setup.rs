use std::cell::RefCell;
use std::collections::BTreeMap;

use eternalmac::app::paths::Paths;
use eternalmac::model::config::{Config, Role};
use eternalmac::model::state::State;
use eternalmac::platform::launchd::render;
use eternalmac::process::runner::{Output, Recorder, Runner};
use eternalmac::setup::client::{ClientPreflight, ClientSetupInput, ClientSetupSummary, SyncRootInput};
use eternalmac::setup::client_flow::{client_setup_step, ClientAction, ClientEvent, ClientStage};
use eternalmac::setup::common::install_prerequisites;
use eternalmac::setup::persist::{
    persist_step, PersistAction, PersistEvent, PersistStage, Removal, Snapshot,
};
use eternalmac::setup::server::ServerSetupSummary;
use eternalmac::setup::server_flow::{server_setup_step, ServerAction, ServerEvent, ServerStage};
use eternalmac::tooling::tailscale::Status;
use eternalmac::Error;

const EXECUTABLE: &str = "/opt/homebrew/bin/eternalMac";

#[derive(Debug, Clone)]
struct Stub {
    program: String,
    args: Vec<String>,
    output: Output,
}

#[derive(Default)]
struct FakeRunner {
    calls: RefCell<Vec<(String, Vec<String>)>>,
    stubs: Vec<Stub>,
}

impl FakeRunner {
    fn with_stubs(stubs: Vec<Stub>) -> Self {
        Self { calls: RefCell::new(vec![]), stubs }
    }

    fn with_failure(program: &str, args: Vec<String>, stderr: &str) -> Self {
        Self::with_stubs(vec![Stub {
            program: program.to_string(),
            args,
            output: Output { stdout: String::new(), stderr: stderr.to_string(), success: false },
        }])
    }
}

fn call_index(calls: &[(String, Vec<String>)], program: &str, args: &[String]) -> Option<usize> {
    calls.iter().position(|(called_program, called_args)| {
        called_program == program && called_args.as_slice() == args
    })
}

impl Runner for FakeRunner {
    fn run(&self, program: &str, args: &[String]) -> Result<Output, Error> {
        self.calls.borrow_mut().push((program.to_string(), args.to_vec()));
        if let Some(stub) = self.stubs.iter().find(|stub| stub.program == program && stub.args == args) {
            return Ok(stub.output.clone());
        }
        let stdout = match (program, args.first().map(String::as_str)) {
            ("tailscale", Some("status")) => {
                r#"{"BackendState":"Running","Self":{"DNSName":"mac-mini.example.ts.net"}}"#.to_string()
            }
            _ => String::new(),
        };
        Ok(Output { stdout, stderr: String::new(), success: true })
    }
}

/// The home directory's files, kept in memory: the configuration file may
/// be a directory, and the state directory may be a file.
#[derive(Default)]
struct Home {
    config: Option<Config>,
    config_is_directory: bool,
    state: Option<State>,
    state_dir_is_file: bool,
    plists: BTreeMap<String, String>,
}

impl Home {
    fn save_state(&mut self, state: State) -> Result<(), Error> {
        if self.state_dir_is_file {
            return Err(Error::msg("Not a directory (os error 20)"));
        }
        self.state = Some(state);
        Ok(())
    }

    fn persist(&mut self, config: Config, state: State) -> Result<(), Error> {
        let mut prior: Option<Config> = None;
        let mut stage = PersistStage::Start;
        let mut event = PersistEvent::Begin;
        loop {
            let (next, action) = persist_step(stage, event);
            stage = next;
            event = match action {
                PersistAction::ReadSnapshot => PersistEvent::SnapshotRead(if self.config_is_directory {
                    Snapshot::Unreadable(Error::msg("Is a directory (os error 21)"))
                } else {
                    prior = self.config.clone();
                    match &self.config {
                        Some(c) => Snapshot::Found(format!("{c:?}").into_bytes()),
                        None => Snapshot::Missing,
                    }
                }),
                PersistAction::WriteConfig => {
                    self.config = Some(config.clone());
                    PersistEvent::ConfigWritten(Ok(()))
                }
                PersistAction::WriteState => PersistEvent::StateWritten(self.save_state(state.clone())),
                PersistAction::Restore(_) => {
                    self.config = prior.clone();
                    PersistEvent::Restored(Ok(()))
                }
                PersistAction::RemoveConfig => {
                    PersistEvent::Removed(if self.config.take().is_some() { Removal::Removed } else { Removal::Missing })
                }
                PersistAction::Done => return Ok(()),
                PersistAction::Fail(e) => return Err(e),
            };
        }
    }
}

fn parse_status_json(json: &str) -> Result<Status, Error> {
    let value: serde_json::Value = serde_json::from_str(json).map_err(|e| Error::new(e.to_string()))?;
    Ok(Status {
        backend_state: value["BackendState"].as_str().unwrap_or_default().to_string(),
        dns_name: value["Self"]["DNSName"].as_str().map(String::from),
    })
}

fn paths() -> Paths {
    Paths::new("/Users/me".into())
}

fn apply_server_setup(paths: &Paths, home: &mut Home, runner: &FakeRunner, host_label: &str) -> Result<ServerSetupSummary, Error> {
    let mut stage = ServerStage::Start;
    let mut event = ServerEvent::Begin;
    loop {
        let (next, action) = server_setup_step(&mut Recorder::new(runner), paths, host_label, stage, event);
        stage = next;
        event = match action {
            ServerAction::ParseStatus(json) => ServerEvent::StatusParsed(parse_status_json(&json)),
            ServerAction::Persist(config, state) => ServerEvent::Persisted(home.persist(config, state)),
            ServerAction::FindExecutable => ServerEvent::ExecutableFound(Ok(EXECUTABLE.into())),
            ServerAction::WriteAgent(path, agent) => {
                home.plists.insert(path, render(&agent));
                ServerEvent::AgentWritten(Ok(()))
            }
            ServerAction::RecordState(state) => ServerEvent::StateRecorded(home.save_state(state)),
            ServerAction::Done(summary) => return Ok(summary),
            ServerAction::Fail(e) => return Err(e),
        };
    }
}

fn apply_client_setup(paths: &Paths, home: &mut Home, runner: &FakeRunner, input: ClientSetupInput) -> Result<ClientSetupSummary, Error> {
    let status_output = install_prerequisites(&mut Recorder::new(runner))?;
    let preflight = ClientPreflight::from_status(&parse_status_json(&status_output.stdout)?);
    let mut stage = ClientStage::Start;
    let mut event = ClientEvent::Begin;
    loop {
        let (next, action) = client_setup_step(&mut Recorder::new(runner), paths, &preflight, &input, stage, event);
        stage = next;
        event = match action {
            ClientAction::Persist(config, state) => ClientEvent::Persisted(home.persist(config, state)),
            ClientAction::RecordState(state) => ClientEvent::StateRecorded(home.save_state(state)),
            ClientAction::FindExecutable => ClientEvent::ExecutableFound(Ok(EXECUTABLE.into())),
            ClientAction::WriteAgent(path, agent) => {
                home.plists.insert(path, render(&agent));
                ClientEvent::AgentWritten(Ok(()))
            }
            ClientAction::Done(summary) => return Ok(summary),
            ClientAction::Fail(e) => return Err(e),
        };
    }
}

fn project_input() -> ClientSetupInput {
    ClientSetupInput {
        paired_server: "mac-mini.example.ts.net".into(),
        sync_roots: vec![SyncRootInput {
            name: "project".into(),
            local: "/Users/me/project".into(),
            remote: "mac-mini.example.ts.net:~/project".into(),
        }],
    }
}

fn strings(values: &[&str]) -> Vec<String> {
    values.iter().map(|v| v.to_string()).collect()
}

#[test]
fn server_setup_writes_config_state_launch_agent_and_bootstrap_session() {
    let paths = paths();
    let mut home = Home::default();
    let runner = FakeRunner::default();

    let summary = apply_server_setup(&paths, &mut home, &runner, "mac-mini").unwrap();

    let config = home.config.clone().unwrap();
    assert!(matches!(config.role, Role::Server));
    assert_eq!(config.server.as_ref().unwrap().host_label, "mac-mini");
    assert_eq!(config.server.as_ref().unwrap().tailscale_dns.as_deref(), Some("mac-mini.example.ts.net"));

    let state = home.state.clone().unwrap();
    assert_eq!(state.tailscale_dns.as_deref(), Some("mac-mini.example.ts.net"));
    assert!(state.tailscale_ok);
    assert!(state.server_reachable);
    assert!(state.healthy);
    assert_eq!(state.summary, "server setup complete; runtime health pending");
    assert!(!state.daemon_healthy);
    assert_eq!(state.known_sessions, vec!["default"]);
    assert!(state.default_session_present);

    let server_plist = home.plists.get(&paths.server_plist).unwrap();
    assert!(server_plist.contains(EXECUTABLE));
    assert!(server_plist.contains("<key>EnvironmentVariables</key>"));
    assert!(server_plist.contains("<key>PATH</key>"));
    assert!(server_plist.contains("<string>/opt/homebrew/bin:/usr/local/bin:/usr/bin:/bin:/usr/sbin:/sbin</string>"));
    assert_eq!(summary.dns_name, "mac-mini.example.ts.net");
    assert_eq!(summary.default_session, "default");

    let calls = runner.calls.borrow();
    let brew_tap_args = strings(&["tap", "mutagen-io/mutagen"]);
    let brew_install_args = strings(&["install", "et", "tmux", "mutagen-io/mutagen/mutagen"]);
    let cask_args = strings(&["install", "--cask", "tailscale-app"]);
    let status_args = strings(&["status", "--json"]);
    let tmux_args = strings(&["new-session", "-d", "-s", "default"]);
    let unload_client_args = strings(&["unload", "-w", &paths.client_plist]);
    let launchctl_args = strings(&["load", "-w", &paths.server_plist]);
    assert!(call_index(&calls, "brew", &cask_args).is_some());
    assert!(call_index(&calls, "tailscale", &status_args).is_some());
    let brew_tap_index = call_index(&calls, "brew", &brew_tap_args).unwrap();
    let brew_install_index = call_index(&calls, "brew", &brew_install_args).unwrap();
    let tmux_index = call_index(&calls, "tmux", &tmux_args).unwrap();
    let unload_index = call_index(&calls, "launchctl", &unload_client_args).unwrap();
    let launchctl_index = call_index(&calls, "launchctl", &launchctl_args).unwrap();
    assert!(brew_tap_index < brew_install_index);
    assert!(unload_index < launchctl_index);
    assert!(tmux_index < launchctl_index);
}

#[test]
fn server_setup_errors_when_tailscale_dns_is_unavailable() {
    let paths = paths();
    let mut home = Home::default();
    let runner = FakeRunner::with_stubs(vec![Stub {
        program: "tailscale".to_string(),
        args: strings(&["status", "--json"]),
        output: Output { stdout: r#"{"BackendState":"Running","Self":{}}"#.to_string(), stderr: String::new(), success: true },
    }]);

    let err = apply_server_setup(&paths, &mut home, &runner, "mac-mini").unwrap_err();
    let err_text = err.to_string();
    assert!(err_text.contains("tailscale"));
    assert!(err_text.contains("dns"));

    assert!(home.config.is_none());
    assert!(home.state.is_none());

    let calls = runner.calls.borrow();
    assert!(!calls.iter().any(|(program, _)| program == "tmux"));
    assert!(!calls.iter().any(|(program, _)| program == "launchctl"));
}

#[test]
fn server_setup_skips_bootstrap_when_default_session_already_exists() {
    let paths = paths();
    let mut home = Home::default();
    let runner = FakeRunner::with_stubs(vec![Stub {
        program: "tmux".to_string(),
        args: strings(&["list-sessions", "-F", "#S"]),
        output: Output { stdout: "default\npairing\n".to_string(), stderr: String::new(), success: true },
    }]);

    apply_server_setup(&paths, &mut home, &runner, "mac-mini").unwrap();

    let calls = runner.calls.borrow();
    assert!(call_index(&calls, "tmux", &strings(&["list-sessions", "-F", "#S"])).is_some());
    assert!(call_index(&calls, "tmux", &strings(&["new-session", "-d", "-s", "default"])).is_none());
}

#[test]
fn client_setup_persists_sync_pairs_and_creates_mutagen_sessions() {
    let paths = paths();
    let mut home = Home::default();
    let runner = FakeRunner::default();

    let summary = apply_client_setup(&paths, &mut home, &runner, project_input()).unwrap();

    let config = home.config.clone().unwrap();
    assert!(matches!(config.role, Role::Client));
    assert_eq!(config.client.as_ref().unwrap().paired_server, "mac-mini.example.ts.net");
    assert_eq!(config.client.as_ref().unwrap().sync_pairs.len(), 1);
    assert_eq!(config.client.as_ref().unwrap().sync_pairs[0].mode, "two-way-resolved");

    let state = home.state.clone().unwrap();
    assert!(state.tailscale_ok);
    assert!(state.server_reachable);
    assert!(state.healthy);
    assert_eq!(state.summary, "client setup complete; runtime health pending");
    assert!(!state.daemon_healthy);
    assert_eq!(state.syncs.len(), 1);
    assert_eq!(state.syncs[0].name, "project");
    assert_eq!(state.syncs[0].local, "/Users/me/project");
    assert_eq!(state.syncs[0].remote, "mac-mini.example.ts.net:~/project");
    assert_eq!(state.syncs[0].mode, "two-way-resolved");
    assert_eq!(state.syncs[0].status, "created");

    let client_plist = home.plists.get(&paths.client_plist).unwrap();
    assert!(client_plist.contains(EXECUTABLE));
    assert!(client_plist.contains("<key>EnvironmentVariables</key>"));
    assert!(client_plist.contains("<key>PATH</key>"));
    assert!(client_plist.contains("<string>/opt/homebrew/bin:/usr/local/bin:/usr/bin:/bin:/usr/sbin:/sbin</string>"));
    assert_eq!(summary.paired_server, "mac-mini.example.ts.net");
    assert_eq!(summary.sync_names, vec!["project"]);

    let calls = runner.calls.borrow();
    let mutagen_args = strings(&[
        "sync", "create", "--name", "project", "--sync-mode", "two-way-resolved",
        "/Users/me/project", "mac-mini.example.ts.net:~/project",
    ]);
    let brew_tap_args = strings(&["tap", "mutagen-io/mutagen"]);
    let brew_install_args = strings(&["install", "et", "tmux", "mutagen-io/mutagen/mutagen"]);
    let unload_server_args = strings(&["unload", "-w", &paths.server_plist]);
    let launchctl_args = strings(&["load", "-w", &paths.client_plist]);
    assert!(call_index(&calls, "brew", &strings(&["install", "--cask", "tailscale-app"])).is_some());
    assert!(call_index(&calls, "tailscale", &strings(&["status", "--json"])).is_some());
    let brew_tap_index = call_index(&calls, "brew", &brew_tap_args).unwrap();
    let brew_install_index = call_index(&calls, "brew", &brew_install_args).unwrap();
    let mutagen_index = call_index(&calls, "mutagen", &mutagen_args).unwrap();
    let unload_index = call_index(&calls, "launchctl", &unload_server_args).unwrap();
    let launchctl_index = call_index(&calls, "launchctl", &launchctl_args).unwrap();
    assert!(brew_tap_index < brew_install_index);
    assert!(unload_index < launchctl_index);
    assert!(mutagen_index < launchctl_index);
}

#[test]
fn client_setup_skips_mutagen_create_when_matching_sync_already_exists() {
    let paths = paths();
    let mut home = Home::default();
    let runner = FakeRunner::with_stubs(vec![Stub {
        program: "mutagen".to_string(),
        args: strings(&["sync", "list"]),
        output: Output {
            stdout: "Name: project\nIdentifier: sync_123\nLabels: None\nAlpha:\n    URL: /Users/me/project\n    Connection state: Connected\nBeta:\n    URL: mac-mini.example.ts.net:~/project\n    Connection state: Connected\nStatus: Watching for changes\n".to_string(),
            stderr: String::new(),
            success: true,
        },
    }]);

    let summary = apply_client_setup(&paths, &mut home, &runner, project_input()).unwrap();
    assert_eq!(summary.sync_names, vec!["project"]);

    let calls = runner.calls.borrow();
    assert!(call_index(&calls, "mutagen", &strings(&["sync", "list"])).is_some());
    assert!(call_index(
        &calls,
        "mutagen",
        &strings(&[
            "sync", "create", "--name", "project", "--sync-mode", "two-way-resolved",
            "/Users/me/project", "mac-mini.example.ts.net:~/project",
        ])
    )
    .is_none());

    let state = home.state.clone().unwrap();
    assert_eq!(state.syncs.len(), 1);
    assert_eq!(state.syncs[0].status, "created");
}

#[test]
fn server_setup_fails_when_client_unload_returns_unexpected_error() {
    let paths = paths();
    let mut home = Home::default();
    let runner = FakeRunner::with_failure("launchctl", strings(&["unload", "-w", &paths.client_plist]), "permission denied");

    let err = apply_server_setup(&paths, &mut home, &runner, "mac-mini").unwrap_err();
    let err_text = err.to_string();
    assert!(err_text.contains("launchctl"));
    assert!(err_text.contains("unload"));
    assert!(err_text.contains("permission denied"));

    let calls = runner.calls.borrow();
    assert!(call_index(&calls, "launchctl", &strings(&["load", "-w", &paths.server_plist])).is_none());
}

#[test]
fn server_setup_ignores_client_unload_not_loaded_error() {
    let paths = paths();
    let mut home = Home::default();
    let runner = FakeRunner::with_stubs(vec![Stub {
        program: "launchctl".to_string(),
        args: strings(&["unload", "-w", &paths.client_plist]),
        output: Output { stdout: String::new(), stderr: "Could not find specified service".to_string(), success: false },
    }]);

    let summary = apply_server_setup(&paths, &mut home, &runner, "mac-mini").unwrap();
    assert_eq!(summary.dns_name, "mac-mini.example.ts.net");

    let calls = runner.calls.borrow();
    assert!(call_index(&calls, "launchctl", &strings(&["load", "-w", &paths.server_plist])).is_some());
}

#[test]
fn client_setup_fails_when_server_unload_returns_unexpected_error() {
    let paths = paths();
    let mut home = Home::default();
    let runner = FakeRunner::with_failure("launchctl", strings(&["unload", "-w", &paths.server_plist]), "permission denied");

    let err = apply_client_setup(&paths, &mut home, &runner, project_input()).unwrap_err();
    let err_text = err.to_string();
    assert!(err_text.contains("launchctl"));
    assert!(err_text.contains("unload"));
    assert!(err_text.contains("permission denied"));

    let calls = runner.calls.borrow();
    assert!(call_index(&calls, "launchctl", &strings(&["load", "-w", &paths.client_plist])).is_none());
}

#[test]
fn client_setup_ignores_server_unload_not_loaded_error() {
    let paths = paths();
    let mut home = Home::default();
    let runner = FakeRunner::with_stubs(vec![Stub {
        program: "launchctl".to_string(),
        args: strings(&["unload", "-w", &paths.server_plist]),
        output: Output { stdout: String::new(), stderr: "Could not find specified service".to_string(), success: false },
    }]);

    let summary = apply_client_setup(&paths, &mut home, &runner, project_input()).unwrap();
    assert_eq!(summary.sync_names, vec!["project"]);

    let calls = runner.calls.borrow();
    assert!(call_index(&calls, "launchctl", &strings(&["load", "-w", &paths.client_plist])).is_some());
}

#[test]
fn server_setup_returns_error_before_launchctl_when_tmux_reports_failure() {
    let paths = paths();
    let mut home = Home::default();
    let runner = FakeRunner::with_failure("tmux", strings(&["new-session", "-d", "-s", "default"]), "tmux failed");

    let err = apply_server_setup(&paths, &mut home, &runner, "mac-mini").unwrap_err();
    let err_text = err.to_string();
    assert!(err_text.contains("tmux"));
    assert!(err_text.contains("new-session"));
    assert!(err_text.contains("tmux failed"));

    assert!(matches!(home.config.as_ref().unwrap().role, Role::Server));
    assert!(matches!(home.state.as_ref().unwrap().role, Role::Server));

    let calls = runner.calls.borrow();
    assert!(!calls.iter().any(|(program, _)| program == "launchctl"));
}

#[test]
fn server_setup_launchctl_failure_does_not_persist_completed_healthy_state() {
    let paths = paths();
    let mut home = Home::default();
    let runner = FakeRunner::with_failure("launchctl", strings(&["load", "-w", &paths.server_plist]), "launch failed");

    let err = apply_server_setup(&paths, &mut home, &runner, "mac-mini").unwrap_err();
    let err_text = err.to_string();
    assert!(err_text.contains("launchctl"));
    assert!(err_text.contains("load"));
    assert!(err_text.contains("launch failed"));

    let state = home.state.clone().unwrap();
    assert!(!state.healthy);
    assert_ne!(state.summary, "server setup complete; runtime health pending");
}

#[test]
fn server_setup_errors_when_config_snapshot_read_fails_with_non_not_found() {
    let paths = paths();
    let mut home = Home { config_is_directory: true, ..Home::default() };
    let runner = FakeRunner::default();

    let err = apply_server_setup(&paths, &mut home, &runner, "mac-mini").unwrap_err();
    let err_text = err.to_string();
    assert!(err_text.contains("snapshot"));
    assert!(err_text.contains("config"));

    assert!(home.config_is_directory && home.config.is_none());
    assert!(home.state.is_none());

    let calls = runner.calls.borrow();
    assert!(!calls.iter().any(|(program, _)| program == "tmux"));
    assert!(!calls.iter().any(|(program, _)| program == "launchctl"));
}

#[test]
fn server_setup_rolls_back_config_when_state_write_fails() {
    let paths = paths();
    let mut home = Home { state_dir_is_file: true, ..Home::default() };
    let runner = FakeRunner::default();

    let err = apply_server_setup(&paths, &mut home, &runner, "mac-mini").unwrap_err();
    let err_text = err.to_string();
    assert!(err_text.contains("state"));

    assert!(home.config.is_none());
    assert!(home.state.is_none());

    let calls = runner.calls.borrow();
    assert!(!calls.iter().any(|(program, _)| program == "tmux"));
    assert!(!calls.iter().any(|(program, _)| program == "launchctl"));
}

#[test]
fn client_setup_returns_error_and_keeps_persisted_state_when_launchctl_reports_failure() {
    let paths = paths();
    let mut home = Home::default();
    let runner = FakeRunner::with_failure("launchctl", strings(&["load", "-w", &paths.client_plist]), "launch failed");

    let err = apply_client_setup(&paths, &mut home, &runner, project_input()).unwrap_err();
    let err_text = err.to_string();
    assert!(err_text.contains("launchctl"));
    assert!(err_text.contains("load"));
    assert!(err_text.contains("launch failed"));

    assert!(matches!(home.config.as_ref().unwrap().role, Role::Client));
    let state = home.state.clone().unwrap();
    assert!(state.tailscale_ok);
    assert!(!state.healthy);
    assert_ne!(state.summary, "client setup complete; runtime health pending");
}

#[test]
fn client_setup_mutagen_failure_after_partial_creation_persists_progress() {
    let paths = paths();
    let mut home = Home::default();
    let runner = FakeRunner::with_stubs(vec![Stub {
        program: "mutagen".into(),
        args: strings(&[
            "sync", "create", "--name", "documents", "--sync-mode", "two-way-resolved",
            "/Users/me/documents", "mac-mini.example.ts.net:~/documents",
        ]),
        output: Output { stdout: String::new(), stderr: "mutagen failed".to_string(), success: false },
    }]);

    let err = apply_client_setup(
        &paths,
        &mut home,
        &runner,
        ClientSetupInput {
            paired_server: "mac-mini.example.ts.net".into(),
            sync_roots: vec![
                SyncRootInput {
                    name: "project".into(),
                    local: "/Users/me/project".into(),
                    remote: "mac-mini.example.ts.net:~/project".into(),
                },
                SyncRootInput {
                    name: "documents".into(),
                    local: "/Users/me/documents".into(),
                    remote: "mac-mini.example.ts.net:~/documents".into(),
                },
            ],
        },
    )
    .unwrap_err();

    let err_text = err.to_string();
    assert!(err_text.contains("mutagen"));
    assert!(err_text.contains("sync"));
    assert!(err_text.contains("mutagen failed"));

    let state = home.state.clone().unwrap();
    assert_eq!(state.syncs.len(), 2);
    assert_eq!(state.syncs[0].name, "project");
    assert_eq!(state.syncs[0].status, "created");
    assert_eq!(state.syncs[1].name, "documents");
    assert_eq!(state.syncs[1].status, "pending");
    assert!(!state.healthy);

    let calls = runner.calls.borrow();
    assert!(!calls.iter().any(|(program, _)| program == "launchctl"));
}

#[test]
fn client_setup_errors_when_config_snapshot_read_fails_with_non_not_found() {
    let paths = paths();
    let mut home = Home { config_is_directory: true, ..Home::default() };
    let runner = FakeRunner::default();

    let err = apply_client_setup(&paths, &mut home, &runner, project_input()).unwrap_err();
    let err_text = err.to_string();
    assert!(err_text.contains("snapshot"));
    assert!(err_text.contains("config"));

    assert!(home.config_is_directory && home.config.is_none());
    assert!(home.state.is_none());

    let calls = runner.calls.borrow();
    assert!(!calls.iter().any(|(program, _)| program == "mutagen"));
    assert!(!calls.iter().any(|(program, _)| program == "launchctl"));
}

#[test]
fn client_setup_rolls_back_config_when_state_write_fails() {
    let paths = paths();
    let mut home = Home { state_dir_is_file: true, ..Home::default() };
    let runner = FakeRunner::default();

    let err = apply_client_setup(&paths, &mut home, &runner, project_input()).unwrap_err();
    let err_text = err.to_string();
    assert!(err_text.contains("state"));

    assert!(home.config.is_none());
    assert!(home.state.is_none());

    let calls = runner.calls.borrow();
    assert!(!calls.iter().any(|(program, _)| program == "mutagen"));
    assert!(!calls.iter().any(|(program, _)| program == "launchctl"));
}
