//! The steps that server and client setup share: installing the tools,
//! and replacing the other role's launch agent with this role's.
use crate::error::Error;
use crate::platform::launchd::Definition;
use crate::process::runner::{append_stream, command_failure, command_failure_message, failed_with, ran, ran_ok, run_checked, stream_note, succeeded, CommandLine, Output, Recorder, Runner};
use crate::text::{chars_of, contains, contains_str, owned, string_views};
use crate::tooling::brew::{install_cask_args, install_formula_args, tap_args};
use crate::tooling::dependencies::{required_formulae, MUTAGEN_TAP, TAILSCALE_CASK};
use crate::tooling::tailscale::status_args;
use vstd::prelude::*;

verus! {

/// The search path that the launch agents run the daemon with.
pub const DAEMON_PATH: &'static str = "/opt/homebrew/bin:/usr/local/bin:/usr/bin:/bin:/usr/sbin:/sbin";

pub open spec fn tap_mutagen_view() -> Seq<Seq<char>> {
    seq!["tap"@, MUTAGEN_TAP@]
}

pub open spec fn install_formulae_view() -> Seq<Seq<char>> {
    seq!["install"@, "et"@, "tmux"@, "mutagen-io/mutagen/mutagen"@]
}

pub open spec fn install_cask_view() -> Seq<Seq<char>> {
    seq!["install"@, "--cask"@, TAILSCALE_CASK@]
}

pub open spec fn tailscale_status_view() -> Seq<Seq<char>> {
    seq!["status"@, "--json"@]
}

/// The commands that install the tools and ask Tailscale for its status,
/// in the order they run.
pub open spec fn prerequisite_calls() -> Seq<CommandLine> {
    seq![
        ("brew"@, tap_mutagen_view()),
        ("brew"@, install_formulae_view()),
        ("brew"@, install_cask_view()),
        ("tailscale"@, tailscale_status_view()),
    ]
}

/// The tools were installed and Tailscale answered with `out`.
pub open spec fn prerequisites_ready<R: Runner>(runner: &R, out: Output) -> bool {
    &&& succeeded(runner, "brew"@, tap_mutagen_view())
    &&& succeeded(runner, "brew"@, install_formulae_view())
    &&& succeeded(runner, "brew"@, install_cask_view())
    &&& ran_ok(runner, "tailscale"@, tailscale_status_view(), out)
}

/// Installing the tools stopped with `e` at the first command that failed,
/// and nothing after it ran.
pub open spec fn prerequisites_failed<R: Runner>(before: Recorder<R>, after: Recorder<R>, e: Error) -> bool {
    let runner = before.runner();
    let calls = prerequisite_calls();
    ||| ran(before, after, calls.take(1)) && failed_with(runner, "brew"@, tap_mutagen_view(), e)
    ||| ran(before, after, calls.take(2)) && succeeded(runner, "brew"@, tap_mutagen_view()) && failed_with(
        runner,
        "brew"@,
        install_formulae_view(),
        e,
    )
    ||| ran(before, after, calls.take(3)) && succeeded(runner, "brew"@, tap_mutagen_view()) && succeeded(
        runner,
        "brew"@,
        install_formulae_view(),
    ) && failed_with(runner, "brew"@, install_cask_view(), e)
    ||| ran(before, after, calls) && succeeded(runner, "brew"@, tap_mutagen_view()) && succeeded(
        runner,
        "brew"@,
        install_formulae_view(),
    ) && succeeded(runner, "brew"@, install_cask_view()) && failed_with(runner, "tailscale"@, tailscale_status_view(), e)
}

/// Installs Mutagen's tap, the formulae and the Tailscale app with Homebrew,
/// then asks Tailscale for its status, stopping at the first command that
/// fails.  Gives what `tailscale status --json` printed.
pub fn install_prerequisites<R: Runner>(rec: &mut Recorder<R>) -> (res: Result<Output, Error>)
    ensures
        match res {
            Ok(out) => ran(*old(rec), *final(rec), prerequisite_calls()) && prerequisites_ready(old(rec).runner(), out),
            Err(e) => prerequisites_failed(*old(rec), *final(rec), e),
        },
{
    let ghost calls = prerequisite_calls();
    let ghost start = rec.history();
    let tap = tap_args(MUTAGEN_TAP);
    assert(string_views(tap@) == tap_mutagen_view());
    let tapped = run_checked(rec, "brew", &tap);
    assert(rec.history() =~= start + calls.take(1));
    if let Err(e) = tapped {
        return Err(e);
    }
    let formulae = required_formulae();
    let install = install_formula_args(formulae.as_slice());
    assert(string_views(install@) =~= install_formulae_view());
    let installed = run_checked(rec, "brew", &install);
    assert(rec.history() =~= start + calls.take(2));
    if let Err(e) = installed {
        return Err(e);
    }
    let cask = install_cask_args(TAILSCALE_CASK);
    let casked = run_checked(rec, "brew", &cask);
    assert(rec.history() =~= start + calls.take(3));
    if let Err(e) = casked {
        return Err(e);
    }
    let status = status_args();
    let r = run_checked(rec, "tailscale", &status);
    assert(rec.history() =~= start + calls);
    r
}

/// `d` is the launch agent labelled `label` that runs `executable daemon
/// <role>` at load and keeps it alive, with the daemon search path in its
/// environment.
pub open spec fn is_daemon_agent(d: Definition, label: Seq<char>, executable: Seq<char>, role: Seq<char>) -> bool {
    &&& d.label@ == label
    &&& string_views(d.program_arguments@) == seq![executable, "daemon"@, role]
    &&& d.environment_variables@.len() == 1
    &&& d.environment_variables@[0].0@ == "PATH"@
    &&& d.environment_variables@[0].1@ == DAEMON_PATH@
    &&& d.run_at_load
    &&& d.keep_alive
}

pub fn daemon_agent(label: &str, executable: String, role: &str) -> (d: Definition)
    ensures
        is_daemon_agent(d, label@, executable@, role@),
{
    let ghost exe = executable@;
    let program_arguments = vec![executable, owned("daemon"), owned(role)];
    assert(string_views(program_arguments@) =~= seq![exe, "daemon"@, role@]);
    Definition {
        label: owned(label),
        program_arguments,
        environment_variables: vec![(owned("PATH"), owned(DAEMON_PATH))],
        run_at_load: true,
        keep_alive: true,
    }
}

/// Names what `str::to_lowercase` returns for a string: its full Unicode
/// lowercase mapping.
pub uninterp spec fn unicode_lowercase(s: Seq<char>) -> Seq<char>;

/// Calls `str::to_lowercase`; the result is the name above applied to the
/// argument, and nothing more is claimed of it.
#[verifier::external_body]
fn to_lowercase(s: &str) -> (r: String)
    ensures
        r@ == unicode_lowercase(s@),
{
    s.to_lowercase()
}

/// What `launchctl unload` prints when the agent was not loaded at all.
pub open spec fn reports_absence(text: Seq<char>) -> bool {
    ||| contains(text, "could not find specified service"@)
    ||| contains(text, "could not find service"@)
    ||| contains(text, "not loaded"@)
    ||| contains(text, "no such process"@)
    ||| contains(text, "not found"@)
}

/// An unload that failed only because there was nothing to unload: the
/// lowercased stdout and stderr, a newline between them, say so.
pub open spec fn unload_absence(out: Output) -> bool {
    reports_absence(unicode_lowercase(out.stdout@) + "\n"@ + unicode_lowercase(out.stderr@))
}

/// Whether lowercased `launchctl unload` output says that nothing was
/// loaded.
pub fn reports_unload_absence(lowered: &str) -> (r: bool)
    ensures
        r == reports_absence(lowered@),
{
    let c = chars_of(lowered);
    contains_str(&c, "could not find specified service") || contains_str(&c, "could not find service")
        || contains_str(&c, "not loaded") || contains_str(&c, "no such process") || contains_str(
        &c,
        "not found",
    )
}

pub fn is_expected_unload_absence(output: &Output) -> (r: bool)
    ensures
        r == unload_absence(*output),
{
    let mut combined = to_lowercase(output.stdout.as_str());
    combined.append("\n");
    let lower_err = to_lowercase(output.stderr.as_str());
    combined.append(lower_err.as_str());
    reports_unload_absence(combined.as_str())
}

pub open spec fn unload_view(plist: Seq<char>) -> Seq<Seq<char>> {
    seq!["unload"@, "-w"@, plist]
}

pub open spec fn load_view(plist: Seq<char>) -> Seq<Seq<char>> {
    seq!["load"@, "-w"@, plist]
}

/// The message of an unload that failed for another reason than absence.
pub open spec fn unload_failure(plist: Seq<char>, out: Output) -> Seq<char> {
    command_failure("launchctl"@, unload_view(plist), out.stderr@) + stream_note("; stdout: "@, out.stdout@)
}

/// Unloading went through: the runner's answer was a success or a report
/// that nothing was loaded.
pub open spec fn unloaded<R: Runner>(runner: &R, plist: Seq<char>) -> bool {
    exists|out: Output| #[trigger] runner.answers("launchctl"@, unload_view(plist), Ok(out)) && (out.success || unload_absence(out))
}

pub open spec fn unload_failed_with<R: Runner>(runner: &R, plist: Seq<char>, e: Error) -> bool {
    exists|raw: Result<Output, Error>| #[trigger] runner.answers("launchctl"@, unload_view(plist), raw) && match raw {
        Err(x) => e.message@ == x.message@,
        Ok(out) => !out.success && !unload_absence(out) && e.message@ == unload_failure(plist, out),
    }
}

/// The other agent was unloaded and then this agent loaded, and nothing
/// else ran.
pub open spec fn agent_replaced<R: Runner>(before: Recorder<R>, after: Recorder<R>, other_plist: Seq<char>, own_plist: Seq<char>) -> bool {
    &&& ran(before, after, seq![("launchctl"@, unload_view(other_plist)), ("launchctl"@, load_view(own_plist))])
    &&& unloaded(before.runner(), other_plist)
    &&& succeeded(before.runner(), "launchctl"@, load_view(own_plist))
}

/// Replacing the agent stopped with `e`: at the unload, in which case
/// nothing was loaded, or at the load.
pub open spec fn agent_replace_failed<R: Runner>(before: Recorder<R>, after: Recorder<R>, other_plist: Seq<char>, own_plist: Seq<char>, e: Error) -> bool {
    ||| ran(before, after, seq![("launchctl"@, unload_view(other_plist))]) && unload_failed_with(before.runner(), other_plist, e)
    ||| ran(before, after, seq![("launchctl"@, unload_view(other_plist)), ("launchctl"@, load_view(own_plist))])
        && unloaded(before.runner(), other_plist) && failed_with(before.runner(), "launchctl"@, load_view(own_plist), e)
}

/// Unloads the agent at `other_plist` (tolerating that it was not loaded),
/// then loads the agent at `own_plist`.
pub fn replace_launch_agent<R: Runner>(rec: &mut Recorder<R>, other_plist: &str, own_plist: &str) -> (res: Result<(), Error>)
    ensures
        match res {
            Ok(()) => agent_replaced(*old(rec), *final(rec), other_plist@, own_plist@),
            Err(e) => agent_replace_failed(*old(rec), *final(rec), other_plist@, own_plist@, e),
        },
{
    let ghost start = rec.history();
    let unload = vec![owned("unload"), owned("-w"), owned(other_plist)];
    assert(string_views(unload@) =~= unload_view(other_plist@));
    let raw = rec.run("launchctl", unload.as_slice());
    assert(rec.history() =~= start + seq![("launchctl"@, unload_view(other_plist@))]);
    match raw {
        Err(e) => {
            return Err(e);
        },
        Ok(out) => {
            if !(out.success || is_expected_unload_absence(&out)) {
                let mut m = command_failure_message("launchctl", &unload, out.stderr.as_str());
                append_stream(&mut m, "; stdout: ", out.stdout.as_str());
                return Err(Error::new(m));
            }
        },
    }
    let load = vec![owned("load"), owned("-w"), owned(own_plist)];
    assert(string_views(load@) =~= load_view(own_plist@));
    let r = run_checked(rec, "launchctl", &load);
    assert(rec.history() =~= start + seq![("launchctl"@, unload_view(other_plist@)), ("launchctl"@, load_view(own_plist@))]);
    match r {
        Ok(_) => Ok(()),
        Err(e) => Err(e),
    }
}

/// The message of a probe that did not connect: the advice, then what the
/// probe printed on stderr and on stdout.
pub open spec fn probe_failure(advice: Seq<char>, out: Output) -> Seq<char> {
    advice + stream_note("; stderr: "@, out.stderr@) + stream_note("; stdout: "@, out.stdout@)
}

pub open spec fn probe_passed<R: Runner>(runner: &R, args: Seq<Seq<char>>) -> bool {
    succeeded(runner, "nc"@, args)
}

pub open spec fn probe_failed_with<R: Runner>(runner: &R, args: Seq<Seq<char>>, advice: Seq<char>, e: Error) -> bool {
    exists|raw: Result<Output, Error>| #[trigger] runner.answers("nc"@, args, raw) && match raw {
        Err(x) => e.message@ == x.message@,
        Ok(out) => !out.success && e.message@ == probe_failure(advice, out),
    }
}

/// Runs `nc` with `args`, and nothing else; an unsuccessful exit is an
/// error made of `advice` and what the probe printed.
pub fn probe<R: Runner>(rec: &mut Recorder<R>, args: &Vec<String>, advice: &str) -> (res: Result<(), Error>)
    ensures
        ran(*old(rec), *final(rec), seq![("nc"@, string_views(args@))]),
        match res {
            Ok(()) => probe_passed(old(rec).runner(), string_views(args@)),
            Err(e) => probe_failed_with(old(rec).runner(), string_views(args@), advice@, e),
        },
{
    match rec.run("nc", args.as_slice()) {
        Err(e) => Err(e),
        Ok(out) => {
            if out.success {
                return Ok(());
            }
            let mut m = owned(advice);
            append_stream(&mut m, "; stderr: ", out.stderr.as_str());
            append_stream(&mut m, "; stdout: ", out.stdout.as_str());
            Err(Error::new(m))
        },
    }
}

} // verus!
