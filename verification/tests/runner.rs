use std::cell::RefCell;

use eternalmac::process::runner::{
    candidate_program_paths, command_failure_message, dedupe, has_several_components, launch_start,
    launch_step, run_checked, LaunchEvent, LaunchStep, Output, Recorder, Runner,
};
use eternalmac::Error;

struct FakeRunner {
    calls: RefCell<Vec<(String, Vec<String>)>>,
    answer: Result<Output, Error>,
}

impl Runner for FakeRunner {
    fn run(&self, program: &str, args: &[String]) -> Result<Output, Error> {
        self.calls
            .borrow_mut()
            .push((program.to_string(), args.to_vec()));
        self.answer.clone()
    }
}

fn output(stdout: &str, stderr: &str, success: bool) -> Output {
    Output {
        stdout: stdout.into(),
        stderr: stderr.into(),
        success,
    }
}

#[test]
fn candidate_program_paths_cover_homebrew_locations_for_named_commands() {
    assert_eq!(
        candidate_program_paths("tmux"),
        vec![
            "tmux".to_string(),
            "/opt/homebrew/bin/tmux".to_string(),
            "/usr/local/bin/tmux".to_string(),
        ]
    );
}

#[test]
fn candidate_program_paths_include_tailscale_app_binary() {
    assert_eq!(
        candidate_program_paths("tailscale"),
        vec![
            "tailscale".to_string(),
            "/opt/homebrew/bin/tailscale".to_string(),
            "/usr/local/bin/tailscale".to_string(),
            "/Applications/Tailscale.app/Contents/MacOS/Tailscale".to_string(),
        ]
    );
}

#[test]
fn candidate_program_paths_do_not_expand_explicit_paths() {
    assert_eq!(
        candidate_program_paths("/Users/me/bin/custom"),
        vec!["/Users/me/bin/custom".to_string()]
    );
}

#[test]
fn candidate_program_paths_treat_relative_paths_as_explicit() {
    assert_eq!(candidate_program_paths("./tmux"), vec!["./tmux".to_string()]);
    assert_eq!(candidate_program_paths("bin/tmux"), vec!["bin/tmux".to_string()]);
}

#[test]
fn path_component_counting_matches_std_paths() {
    for path in [
        "tmux", "./tmux", "bin/tmux", "/", "/usr", "a/", ".", "./", "a/./b", "../a", "//a", "",
        "a//", "/.", "./.",
    ] {
        let expected = std::path::Path::new(path).components().count() > 1;
        assert_eq!(has_several_components(path), expected, "path {path:?}");
    }
}

#[test]
fn dedupe_keeps_first_occurrences_in_order() {
    let values = vec!["b", "a", "b", "c", "a"]
        .into_iter()
        .map(String::from)
        .collect();
    assert_eq!(dedupe(values), vec!["b", "a", "c"]);
}

#[test]
fn run_checked_returns_output_of_successful_command() {
    let runner = FakeRunner {
        calls: RefCell::new(vec![]),
        answer: Ok(output("ok\n", "", true)),
    };
    let out = run_checked(&mut Recorder::new(&runner), "tmux", &vec!["ls".to_string()]).unwrap();
    assert_eq!(out.stdout, "ok\n");
    assert_eq!(
        runner.calls.borrow().as_slice(),
        &[("tmux".to_string(), vec!["ls".to_string()])]
    );
}

#[test]
fn run_checked_reports_failed_command_with_trimmed_stderr() {
    let runner = FakeRunner {
        calls: RefCell::new(vec![]),
        answer: Ok(output("", "  boom \n", false)),
    };
    let error = run_checked(
        &mut Recorder::new(&runner),
        "mutagen",
        &vec!["sync".to_string(), "list".to_string()],
    )
    .unwrap_err();
    assert_eq!(error.to_string(), "command failed: mutagen sync list; stderr: boom");
}

#[test]
fn run_checked_omits_blank_stderr() {
    let runner = FakeRunner {
        calls: RefCell::new(vec![]),
        answer: Ok(output("", " \n ", false)),
    };
    let error = run_checked(&mut Recorder::new(&runner), "et", &vec![]).unwrap_err();
    assert_eq!(error.to_string(), "command failed: et ");
}

#[test]
fn run_checked_passes_runner_errors_through() {
    let runner = FakeRunner {
        calls: RefCell::new(vec![]),
        answer: Err(Error::msg("running tmux; searched tmux")),
    };
    let error = run_checked(&mut Recorder::new(&runner), "tmux", &vec![]).unwrap_err();
    assert_eq!(error.to_string(), "running tmux; searched tmux");
}

#[test]
fn command_failure_message_joins_arguments_with_spaces() {
    let args = vec!["a".to_string(), "b c".to_string()];
    assert_eq!(
        command_failure_message("prog", &args, "err"),
        "command failed: prog a b c; stderr: err"
    );
}

fn tried(step: &LaunchStep) -> String {
    match step {
        LaunchStep::Try(path) => path.clone(),
        LaunchStep::Finished(_) => panic!("expected another path to try"),
    }
}

fn finished(step: LaunchStep) -> Result<Output, Error> {
    match step {
        LaunchStep::Finished(result) => result,
        LaunchStep::Try(path) => panic!("expected the end, got {path}"),
    }
}

#[test]
fn launch_tries_candidate_paths_in_order_and_reports_the_search() {
    let (launch, step) = launch_start("tmux");
    assert_eq!(tried(&step), "tmux");
    let (launch, step) = launch_step(launch, LaunchEvent::NotFound("gone".into()));
    assert_eq!(tried(&step), "/opt/homebrew/bin/tmux");
    let (launch, step) = launch_step(launch, LaunchEvent::NotFound("gone".into()));
    assert_eq!(tried(&step), "/usr/local/bin/tmux");
    let (_, step) = launch_step(launch, LaunchEvent::NotFound("No such file or directory".into()));
    let error = finished(step).unwrap_err();
    assert_eq!(
        error.to_string(),
        "running tmux; searched tmux, /opt/homebrew/bin/tmux, /usr/local/bin/tmux"
    );
    assert_eq!(error.cause.as_deref(), Some("No such file or directory"));
}

#[test]
fn launch_stops_at_the_first_started_program() {
    let (launch, _) = launch_start("tailscale");
    let (launch, _) = launch_step(launch, LaunchEvent::NotFound("gone".into()));
    let (_, step) = launch_step(launch, LaunchEvent::Started(output("up", "", true)));
    assert_eq!(finished(step).unwrap().stdout, "up");
}

#[test]
fn launch_stops_at_other_start_failures() {
    let (launch, _) = launch_start("/bin/custom");
    let (_, step) = launch_step(launch, LaunchEvent::Failed("permission denied".into()));
    let error = finished(step).unwrap_err();
    assert_eq!(error.to_string(), "running /bin/custom");
    assert_eq!(error.cause.as_deref(), Some("permission denied"));
}
