//! Attaching to a session on the paired server.
use crate::error::Error;
use crate::model::config::{opt_view, ClientConfig, Config};
use crate::process::runner::{
    append_stream, attended, command_failure, command_failure_message, failed_with, ran,
    run_interactive_checked, stream_note, succeeded, CommandLine, Output, Recorder, Runner,
};
use crate::text::{owned, string_of, trim, trimmed};
use crate::tooling::et::{
    attach_command, build_attach_args_with_options, build_new_session_args_with_options, et_args,
    new_session_command, opt_str_view,
};
use vstd::prelude::*;

verus! {

pub const DEFAULT_SESSION: &'static str = "default";

/// The session to attach to: the requested name trimmed, or `default` when
/// none is requested or the name is blank.
pub open spec fn chosen_session(session: Option<Seq<char>>) -> Seq<char> {
    match session {
        None => DEFAULT_SESSION@,
        Some(s) => if trim(s).len() == 0 {
            DEFAULT_SESSION@
        } else {
            trim(s)
        },
    }
}

/// Law: a requested name that is not blank is used as it is, only with the
/// blanks around it removed: every character, letter case included, is
/// kept; a name without surrounding blanks is used unchanged.  Without a
/// usable name the session is `default`.
pub proof fn lemma_chosen_session_keeps_the_name(s: Seq<char>)
    ensures
        trim(s).len() > 0 ==> chosen_session(Some(s)) == trim(s),
        trim(s).len() > 0 && trim(s) == s ==> chosen_session(Some(s)) == s,
        trim(s).len() == 0 ==> chosen_session(Some(s)) == "default"@,
        chosen_session(None) == "default"@,
{
}

pub fn resolve_session_name(session: Option<&str>) -> (r: String)
    ensures
        r@ == chosen_session(opt_str_view(session)),
{
    match session {
        None => owned(DEFAULT_SESSION),
        Some(s) => {
            let t = trimmed(s);
            if t.len() == 0 {
                owned(DEFAULT_SESSION)
            } else {
                string_of(&t)
            }
        },
    }
}

pub const NEEDS_CLIENT_CONFIG: &'static str = "attach requires client config; run `eternalMac setup client` on this machine first";

pub const SESSION_OR_NEW: &'static str = "attach accepts either an existing session or --new";

/// The `et` arguments that attach to `session` through client `c`'s
/// connection to its server.
pub open spec fn attach_view(c: ClientConfig, session: Seq<char>) -> Seq<Seq<char>> {
    et_args(c.paired_server@, opt_view(c.server_etterminal_path), attach_command(session))
}

/// The `et` arguments that start the session `name` on client `c`'s server.
pub open spec fn new_session_view(c: ClientConfig, name: Seq<char>) -> Seq<Seq<char>> {
    et_args(c.paired_server@, opt_view(c.server_etterminal_path), new_session_command(name))
}

/// The message of a session creation that exited unsuccessfully: the
/// failed command and what it printed on stderr, or on stdout when stderr
/// is blank.
pub open spec fn creation_failure(args: Seq<Seq<char>>, out: Output) -> Seq<char> {
    command_failure("et"@, args, out.stderr@) + if trim(out.stderr@).len() == 0 {
        stream_note("; stdout: "@, out.stdout@)
    } else {
        Seq::empty()
    }
}

pub open spec fn creation_failed_with<R: Runner>(runner: &R, args: Seq<Seq<char>>, e: Error) -> bool {
    exists|raw: Result<Output, Error>| #[trigger] runner.answers("et"@, args, raw) && match raw {
        Err(x) => e.message@ == x.message@,
        Ok(out) => !out.success && e.message@ == creation_failure(args, out),
    }
}

/// Attaching to `session` in the user's terminal ran that one command and
/// came to `res`.
pub open spec fn attached_to<R: Runner>(before: Recorder<R>, after: Recorder<R>, args: Seq<Seq<char>>, res: Result<(), Error>) -> bool {
    &&& attended(before, after, seq![("et"@, args)])
    &&& match res {
        Ok(()) => succeeded(before.runner(), "et"@, args),
        Err(e) => failed_with(before.runner(), "et"@, args, e),
    }
}

/// What `attach` does with client configuration `c`: with both a session
/// and `--new` it refuses and runs nothing; with `--new` it starts that
/// session, and only once it started attaches to it; otherwise it attaches
/// to the chosen session.
pub open spec fn attach_outcome<R: Runner>(
    before: Recorder<R>,
    after: Recorder<R>,
    c: ClientConfig,
    session: Option<Seq<char>>,
    new_session: Option<Seq<char>>,
    res: Result<(), Error>,
) -> bool {
    let runner = before.runner();
    match new_session {
        Some(n) => if session is Some {
            res is Err && res->Err_0.message@ == SESSION_OR_NEW@ && ran(before, after, seq![])
        } else {
            let name = chosen_session(Some(n));
            let create = new_session_view(c, name);
            let attach = attach_view(c, name);
            &&& after.runner() == before.runner()
            &&& after.history() == before.history() + seq![("et"@, create)]
            &&& {
                ||| res is Err && after.sessions() == before.sessions() && creation_failed_with(runner, create, res->Err_0)
                ||| succeeded(runner, "et"@, create) && after.sessions() == before.sessions() + seq![("et"@, attach)]
                    && match res {
                    Ok(()) => succeeded(runner, "et"@, attach),
                    Err(e) => failed_with(runner, "et"@, attach, e),
                }
            }
        },
        None => attached_to(before, after, attach_view(c, chosen_session(session)), res),
    }
}

fn opt_as_str(o: &Option<String>) -> (r: Option<&str>)
    ensures
        opt_str_view(r) == opt_view(*o),
{
    match o {
        Some(s) => Some(s.as_str()),
        None => None,
    }
}

/// Starts the session `name` on the server without attaching to it.
fn create_session<R: Runner>(rec: &mut Recorder<R>, client: &ClientConfig, name: &str) -> (res: Result<(), Error>)
    ensures
        ran(*old(rec), *final(rec), seq![("et"@, new_session_view(*client, name@))]),
        match res {
            Ok(()) => succeeded(old(rec).runner(), "et"@, new_session_view(*client, name@)),
            Err(e) => creation_failed_with(old(rec).runner(), new_session_view(*client, name@), e),
        },
{
    let args = build_new_session_args_with_options(
        client.paired_server.as_str(),
        opt_as_str(&client.server_ssh_user),
        opt_as_str(&client.server_etterminal_path),
        name,
    );
    match rec.run("et", args.as_slice()) {
        Err(e) => Err(e),
        Ok(out) => {
            if out.success {
                return Ok(());
            }
            let mut m = command_failure_message("et", &args, out.stderr.as_str());
            if trimmed(out.stderr.as_str()).len() == 0 {
                append_stream(&mut m, "; stdout: ", out.stdout.as_str());
            }
            Err(Error::new(m))
        },
    }
}

/// Attaches the user's terminal to the session `name` on the server.
fn attach_session<R: Runner>(rec: &mut Recorder<R>, client: &ClientConfig, name: &str) -> (res: Result<(), Error>)
    ensures
        attached_to(*old(rec), *final(rec), attach_view(*client, name@), res),
{
    let args = build_attach_args_with_options(
        client.paired_server.as_str(),
        opt_as_str(&client.server_ssh_user),
        opt_as_str(&client.server_etterminal_path),
        name,
    );
    run_interactive_checked(rec, "et", &args)
}

/// Attaches to a session on the paired server with `et`: to the chosen
/// session, or, with `new_session`, to a session it first starts.  A
/// machine without client configuration cannot attach.
pub fn run_with<R: Runner>(
    config: &Config,
    rec: &mut Recorder<R>,
    session: Option<&str>,
    new_session: Option<&str>,
) -> (res: Result<(), Error>)
    ensures
        match config.client {
            None => res is Err && res->Err_0.message@ == NEEDS_CLIENT_CONFIG@ && ran(*old(rec), *final(rec), seq![]),
            Some(c) => attach_outcome(*old(rec), *final(rec), c, opt_str_view(session), opt_str_view(new_session), res),
        },
{
    assert(rec.history() =~= rec.history() + Seq::<CommandLine>::empty());
    let client = match &config.client {
        Some(c) => c,
        None => {
            return Err(Error::msg(NEEDS_CLIENT_CONFIG));
        },
    };
    match new_session {
        Some(n) => {
            if session.is_some() {
                return Err(Error::msg(SESSION_OR_NEW));
            }
            let name = resolve_session_name(Some(n));
            match create_session(rec, client, name.as_str()) {
                Err(e) => Err(e),
                Ok(()) => attach_session(rec, client, name.as_str()),
            }
        },
        None => {
            let name = resolve_session_name(session);
            attach_session(rec, client, name.as_str())
        },
    }
}

} // verus!
