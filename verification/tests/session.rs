use std::cell::RefCell;

use eternalmac::commands::session::{
    create_with, list_with, pin_session_with, unpin_session_with, PIN_NEEDS_CLIENT,
    UNPIN_NEEDS_CLIENT,
};
use eternalmac::model::config::{ClientConfig, Config, Role, SessionConfig};
use eternalmac::process::runner::{Output, Recorder, Runner};
use eternalmac::session::service::{pin, unpin};
use eternalmac::tooling::tmux::{list_sessions_args, new_session_args};
use eternalmac::Error;

struct FakeRunner {
    calls: RefCell<Vec<(String, Vec<String>)>>,
    output: Output,
}

impl FakeRunner {
    fn success(stdout: &str) -> Self {
        Self {
            calls: RefCell::new(vec![]),
            output: Output {
                stdout: stdout.into(),
                stderr: String::new(),
                success: true,
            },
        }
    }

    fn failure(stderr: &str) -> Self {
        Self {
            calls: RefCell::new(vec![]),
            output: Output {
                stdout: String::new(),
                stderr: stderr.into(),
                success: false,
            },
        }
    }
}

impl Runner for FakeRunner {
    fn run(&self, program: &str, args: &[String]) -> Result<Output, Error> {
        self.calls
            .borrow_mut()
            .push((program.to_string(), args.to_vec()));
        Ok(self.output.clone())
    }
}

fn client_config(pinned: Vec<String>) -> Config {
    Config {
        role: Role::Client,
        server: None,
        client: Some(ClientConfig {
            paired_server: "mac-mini".into(),
            server_ssh_user: None,
            server_etterminal_path: None,
            pinned,
            sync_pairs: vec![],
        }),
        session: SessionConfig { auto_attach: true },
    }
}

#[test]
fn pin_adds_missing_session() {
    let pinned = pin(vec!["default".into()], "pairing");
    assert_eq!(pinned, vec!["default", "pairing"]);
}

#[test]
fn pin_deduplicates_existing_session() {
    let pinned = pin(vec!["default".into()], "default");
    assert_eq!(pinned, vec!["default"]);
}

#[test]
fn unpin_removes_all_matching_sessions() {
    let pinned = unpin(
        vec!["default".into(), "pairing".into(), "default".into()],
        "default",
    );
    assert_eq!(pinned, vec!["pairing"]);
}

#[test]
fn unpin_is_noop_when_session_not_present() {
    let pinned = unpin(vec!["default".into()], "pairing");
    assert_eq!(pinned, vec!["default"]);
}

#[test]
fn session_list_runs_tmux_list_and_parses_output() {
    let runner = FakeRunner::success("default\npairing\n");

    let sessions = list_with(&mut Recorder::new(&runner)).unwrap();

    assert_eq!(sessions, vec!["default", "pairing"]);
    let calls = runner.calls.borrow();
    assert_eq!(calls.as_slice(), &[("tmux".into(), list_sessions_args())]);
}

#[test]
fn session_create_runs_tmux_new_session() {
    let runner = FakeRunner::success("");

    create_with(&mut Recorder::new(&runner), "demo").unwrap();

    let calls = runner.calls.borrow();
    assert_eq!(
        calls.as_slice(),
        &[("tmux".into(), new_session_args("demo"))]
    );
}

#[test]
fn session_create_returns_clear_error_on_non_zero_exit() {
    let runner = FakeRunner::failure("session exists");

    let error = create_with(&mut Recorder::new(&runner), "demo").unwrap_err();
    assert!(error.to_string().contains("command failed: tmux"));
    assert!(error.to_string().contains("stderr: session exists"));
}

#[test]
fn session_pin_persists_deduplicated_state() {
    let mut config = client_config(vec!["default".into()]);

    let pinned = pin_session_with(&mut config, "default").unwrap();
    assert_eq!(pinned, vec!["default"]);

    let pinned = pin_session_with(&mut config, "pairing").unwrap();
    assert_eq!(pinned, vec!["default", "pairing"]);

    assert_eq!(config.client.unwrap().pinned, vec!["default", "pairing"]);
}

#[test]
fn session_unpin_persists_updated_state() {
    let mut config = client_config(vec!["default".into(), "pairing".into()]);

    let pinned = unpin_session_with(&mut config, "default").unwrap();
    assert_eq!(pinned, vec!["pairing"]);

    assert_eq!(config.client.unwrap().pinned, vec!["pairing"]);
}

#[test]
fn pin_and_unpin_require_client_config_and_leave_it_unchanged() {
    let mut config = Config {
        role: Role::Server,
        server: None,
        client: None,
        session: SessionConfig { auto_attach: false },
    };
    let before = config.clone();
    assert_eq!(
        pin_session_with(&mut config, "x").unwrap_err().to_string(),
        PIN_NEEDS_CLIENT
    );
    assert_eq!(
        unpin_session_with(&mut config, "x").unwrap_err().to_string(),
        UNPIN_NEEDS_CLIENT
    );
    assert_eq!(config, before);
}

#[test]
fn pin_then_unpin_leaves_other_sessions_in_order() {
    let pinned = pin(vec!["a".into(), "b".into()], "c");
    assert_eq!(pinned, vec!["a", "b", "c"]);
    let pinned = unpin(pinned, "c");
    assert_eq!(pinned, vec!["a", "b"]);
    let twice = pin(pin(vec!["a".into()], "b"), "b");
    assert_eq!(twice, vec!["a", "b"]);
}

#[test]
fn session_list_reports_failure_and_trims_names() {
    let runner = FakeRunner::success("  default \n\n work\n");
    assert_eq!(list_with(&mut Recorder::new(&runner)).unwrap(), vec!["default", "work"]);

    let runner = FakeRunner::failure("no server running on /tmp/tmux-501/default");
    let error = list_with(&mut Recorder::new(&runner)).unwrap_err();
    assert_eq!(
        error.to_string(),
        "command failed: tmux list-sessions -F #S; stderr: no server running on /tmp/tmux-501/default"
    );
}
