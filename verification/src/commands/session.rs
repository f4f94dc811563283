//! Listing, creating, pinning and unpinning sessions.
use crate::error::Error;
use crate::model::config::{ClientConfig, ClientConfigView, Config, ConfigView};
use crate::process::runner::{failed_with, ran, ran_ok, run_checked, succeeded, Output, Recorder, Runner};
use crate::session::service::{pin, pinned_with, pinned_without, unpin};
use crate::text::{lines, string_views};
use crate::tooling::tmux::{list_sessions_args, new_session_args, nonblank_trimmed, parse_sessions};
use vstd::prelude::*;

verus! {

/// The sessions that tmux lists.
pub fn list_with<R: Runner>(rec: &mut Recorder<R>) -> (res: Result<Vec<String>, Error>)
    ensures
        ran(*old(rec), *final(rec), seq![("tmux"@, seq!["list-sessions"@, "-F"@, "#S"@])]),
        match res {
            Ok(v) => exists|out: Output| ran_ok(old(rec).runner(), "tmux"@, seq!["list-sessions"@, "-F"@, "#S"@], out)
                && #[trigger] string_views(v@) == nonblank_trimmed(lines(out.stdout@)),
            Err(e) => failed_with(old(rec).runner(), "tmux"@, seq!["list-sessions"@, "-F"@, "#S"@], e),
        },
{
    let args = list_sessions_args();
    match run_checked(rec, "tmux", &args) {
        Ok(out) => Ok(parse_sessions(out.stdout.as_str())),
        Err(e) => Err(e),
    }
}

/// Starts a detached tmux session named `name`.
pub fn create_with<R: Runner>(rec: &mut Recorder<R>, name: &str) -> (res: Result<(), Error>)
    ensures
        ran(*old(rec), *final(rec), seq![("tmux"@, seq!["new-session"@, "-d"@, "-s"@, name@])]),
        match res {
            Ok(()) => succeeded(old(rec).runner(), "tmux"@, seq!["new-session"@, "-d"@, "-s"@, name@]),
            Err(e) => failed_with(old(rec).runner(), "tmux"@, seq!["new-session"@, "-d"@, "-s"@, name@], e),
        },
{
    let args = new_session_args(name);
    match run_checked(rec, "tmux", &args) {
        Ok(_) => Ok(()),
        Err(e) => Err(e),
    }
}

pub const PIN_NEEDS_CLIENT: &'static str = "session pin requires client config; run `eternalMac setup client` on this machine first";

pub const UNPIN_NEEDS_CLIENT: &'static str = "session unpin requires client config; run `eternalMac setup client` on this machine first";

/// `config` with the client's pinned list replaced.
pub open spec fn with_pinned(config: ConfigView, pinned: Seq<Seq<char>>) -> ConfigView {
    ConfigView { client: Some(ClientConfigView { pinned, ..config.client->0 }), ..config }
}

/// Pins `name` in the client configuration and gives the pinned list.
pub fn pin_session_with(config: &mut Config, name: &str) -> (res: Result<Vec<String>, Error>)
    ensures
        match old(config).client {
            None => res is Err && res->Err_0.message@ == PIN_NEEDS_CLIENT@ && final(config)@ == old(config)@,
            Some(c) => {
                let pinned = pinned_with(string_views(c.pinned@), name@);
                &&& res is Ok && string_views(res->Ok_0@) == pinned
                &&& final(config)@ == with_pinned(old(config)@, pinned)
            },
        },
{
    match config.client.take() {
        None => Err(Error::msg(PIN_NEEDS_CLIENT)),
        Some(c) => {
            let ClientConfig { paired_server, server_ssh_user, server_etterminal_path, pinned, sync_pairs } = c;
            let pinned = pin(pinned, name);
            let copy = pinned.clone();
            assert(string_views(copy@) =~= string_views(pinned@)) by {
                assert forall|i: int| 0 <= i < pinned@.len() implies copy@[i]@ == pinned@[i]@ by {
                    assert(vstd::pervasive::cloned(pinned@[i], copy@[i]));
                }
            }
            config.client = Some(
                ClientConfig { paired_server, server_ssh_user, server_etterminal_path, pinned, sync_pairs },
            );
            Ok(copy)
        },
    }
}

/// Unpins `name` in the client configuration and gives the pinned list.
pub fn unpin_session_with(config: &mut Config, name: &str) -> (res: Result<Vec<String>, Error>)
    ensures
        match old(config).client {
            None => res is Err && res->Err_0.message@ == UNPIN_NEEDS_CLIENT@ && final(config)@ == old(config)@,
            Some(c) => {
                let pinned = pinned_without(string_views(c.pinned@), name@);
                &&& res is Ok && string_views(res->Ok_0@) == pinned
                &&& final(config)@ == with_pinned(old(config)@, pinned)
            },
        },
{
    match config.client.take() {
        None => Err(Error::msg(UNPIN_NEEDS_CLIENT)),
        Some(c) => {
            let ClientConfig { paired_server, server_ssh_user, server_etterminal_path, pinned, sync_pairs } = c;
            let pinned = unpin(pinned, name);
            let copy = pinned.clone();
            assert(string_views(copy@) =~= string_views(pinned@)) by {
                assert forall|i: int| 0 <= i < pinned@.len() implies copy@[i]@ == pinned@[i]@ by {
                    assert(vstd::pervasive::cloned(pinned@[i], copy@[i]));
                }
            }
            config.client = Some(
                ClientConfig { paired_server, server_ssh_user, server_etterminal_path, pinned, sync_pairs },
            );
            Ok(copy)
        },
    }
}

} // verus!
