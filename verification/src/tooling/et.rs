//! Eternal Terminal command lines.  The remote command that `et` runs is
//! read by a shell on the server, so a session name goes into it as a single
//! quoted shell word.
use crate::text::{owned, string_views};
use vstd::prelude::*;

verus! {

/// What one character of a name becomes inside single quotes: a single
/// quote closes the quoting, is escaped, and reopens it.
pub open spec fn quoted_char(c: char) -> Seq<char> {
    if c == '\'' {
        seq!['\'', '\\', '\'', '\'']
    } else {
        seq![c]
    }
}

pub open spec fn quote_body(s: Seq<char>) -> Seq<char>
    decreases s.len(),
{
    if s.len() == 0 {
        Seq::empty()
    } else {
        quoted_char(s[0]) + quote_body(s.drop_first())
    }
}

/// `s` as one single-quoted shell word.
pub open spec fn shell_quote(s: Seq<char>) -> Seq<char> {
    seq!['\''] + quote_body(s) + seq!['\'']
}

/// The value of a shell word made only of single-quoted runs and
/// backslash-escaped characters, read from `w` with `inside` telling
/// whether a single quote is open; `None` when `w` holds a character that
/// is neither quoted nor escaped, or leaves a quote open.
pub open spec fn read_word(w: Seq<char>, inside: bool) -> Option<Seq<char>>
    decreases w.len(),
{
    if w.len() == 0 {
        if inside {
            None
        } else {
            Some(Seq::empty())
        }
    } else if inside {
        if w[0] == '\'' {
            read_word(w.drop_first(), false)
        } else {
            match read_word(w.drop_first(), true) {
                Some(rest) => Some(seq![w[0]] + rest),
                None => None,
            }
        }
    } else if w[0] == '\'' {
        read_word(w.drop_first(), true)
    } else if w[0] == '\\' && w.len() >= 2 {
        match read_word(w.subrange(2, w.len() as int), false) {
            Some(rest) => Some(seq![w[1]] + rest),
            None => None,
        }
    } else {
        None
    }
}

proof fn lemma_quote_body_push(s: Seq<char>, c: char)
    ensures
        quote_body(s.push(c)) == quote_body(s) + quoted_char(c),
    decreases s.len(),
{
    if s.len() == 0 {
        assert(s.push(c).drop_first() =~= Seq::<char>::empty());
        assert(quote_body(Seq::<char>::empty()) == Seq::<char>::empty());
        assert(s.push(c)[0] == c);
        assert(quote_body(s) == Seq::<char>::empty());
        assert(quote_body(s.push(c)) =~= quoted_char(c));
    } else {
        assert(s.push(c).drop_first() =~= s.drop_first().push(c));
        lemma_quote_body_push(s.drop_first(), c);
        assert(quote_body(s.push(c)) =~= quote_body(s) + quoted_char(c));
    }
}

proof fn lemma_read_quoted_body(s: Seq<char>)
    ensures
        read_word(quote_body(s) + seq!['\''], true) == Some(s),
    decreases s.len(),
{
    let w = quote_body(s) + seq!['\''];
    if s.len() == 0 {
        assert(quote_body(s) == Seq::<char>::empty());
        assert(w =~= seq!['\'']);
        assert(w.drop_first() =~= Seq::<char>::empty());
        assert(read_word(Seq::<char>::empty(), false) == Some(Seq::<char>::empty()));
        assert(s =~= Seq::<char>::empty());
    } else {
        let rest = s.drop_first();
        let tail = quote_body(rest) + seq!['\''];
        lemma_read_quoted_body(rest);
        if s[0] == '\'' {
            assert(w =~= seq!['\'', '\\', '\'', '\''] + tail);
            let after_close = w.drop_first();
            assert(after_close =~= seq!['\\', '\'', '\''] + tail);
            let after_escape = after_close.subrange(2, after_close.len() as int);
            assert(after_escape =~= seq!['\''] + tail);
            assert(after_escape.drop_first() =~= tail);
            assert(read_word(after_escape, false) == Some(rest));
            assert(after_close[0] == '\\' && after_close[1] == '\'');
            assert(read_word(after_close, false) == Some(seq![after_close[1]] + rest));
            assert(seq![after_close[1]] + rest =~= s);
        } else {
            assert(w =~= seq![s[0]] + tail);
            assert(w.drop_first() =~= tail);
            assert(w[0] == s[0]);
            assert(seq![s[0]] + rest =~= s);
        }
    }
}

/// Law: a quoted name reads back, as one shell word, as exactly the name;
/// no character of it stands outside the quoting.
pub proof fn lemma_shell_quote_reads_back(s: Seq<char>)
    ensures
        read_word(shell_quote(s), false) == Some(s),
{
    lemma_read_quoted_body(s);
    assert(shell_quote(s).drop_first() =~= quote_body(s) + seq!['\'']);
}

/// Appends `s` as one single-quoted shell word to `out`.
pub fn push_shell_quoted(out: &mut String, s: &str)
    ensures
        final(out)@ == old(out)@ + shell_quote(s@),
{
    let ghost start = old(out)@;
    let ghost mut seen: Seq<char> = Seq::empty();
    out.push('\'');
    for c in it: s.chars()
        invariant
            it.seq() == s@,
            seen == it.seq().take(it.index() as int),
            out@ == start + seq!['\''] + quote_body(seen),
    {
        proof {
            lemma_quote_body_push(seen, c);
        }
        if c == '\'' {
            out.push('\'');
            out.push('\\');
            out.push('\'');
            out.push('\'');
        } else {
            out.push(c);
        }
        proof {
            assert(it.seq().take(it.index() + 1) =~= seen.push(c));
            seen = seen.push(c);
        }
        assert(out@ =~= start + seq!['\''] + quote_body(seen));
    }
    assert(seen =~= s@);
    out.push('\'');
    assert(out@ =~= start + shell_quote(s@));
}

/// The remote command that attaches to the tmux session `session`.
pub open spec fn attach_command(session: Seq<char>) -> Seq<char> {
    "tmux attach -t "@ + shell_quote(session)
}

/// The remote command that starts the detached tmux session `name`.
pub open spec fn new_session_command(name: Seq<char>) -> Seq<char> {
    "tmux new-session -d -s "@ + shell_quote(name)
}

/// The `et` arguments that run `command` on `server`, naming the server's
/// `etterminal` when its path is known.
pub open spec fn et_args(server: Seq<char>, terminal_path: Option<Seq<char>>, command: Seq<char>) -> Seq<Seq<char>> {
    match terminal_path {
        Some(p) => seq![server, "--terminal-path"@, p, "-c"@, command],
        None => seq![server, "-c"@, command],
    }
}

/// The character view of an optional string slice.
pub open spec fn opt_str_view(o: Option<&str>) -> Option<Seq<char>> {
    match o {
        Some(s) => Some(s@),
        None => None,
    }
}

fn et_command_args(server: &str, terminal_path: Option<&str>, command: String) -> (r: Vec<String>)
    ensures
        string_views(r@) == et_args(server@, opt_str_view(terminal_path), command@),
{
    let ghost c = command@;
    let r = match terminal_path {
        Some(p) => vec![owned(server), owned("--terminal-path"), owned(p), owned("-c"), command],
        None => vec![owned(server), owned("-c"), command],
    };
    assert(string_views(r@) =~= et_args(server@, opt_str_view(terminal_path), c));
    r
}

/// `et` arguments that attach to the tmux session `session` on `server`.
pub fn build_attach_args(server: &str, session: &str) -> (r: Vec<String>)
    ensures
        string_views(r@) == et_args(server@, None, attach_command(session@)),
{
    build_attach_args_with_options(server, None, None, session)
}

/// `et` arguments that attach to the tmux session `session` on `server`,
/// through the server's `etterminal` at `terminal_path` when it is known.
/// The SSH user does not enter the arguments.
pub fn build_attach_args_with_options(
    server: &str,
    ssh_user: Option<&str>,
    terminal_path: Option<&str>,
    session: &str,
) -> (r: Vec<String>)
    ensures
        string_views(r@) == et_args(server@, opt_str_view(terminal_path), attach_command(session@)),
{
    let _ = ssh_user;
    let mut command = "tmux attach -t ".to_string();
    push_shell_quoted(&mut command, session);
    et_command_args(server, terminal_path, command)
}

/// `et` arguments that start the detached tmux session `name` on `server`.
pub fn build_new_session_args(server: &str, name: &str) -> (r: Vec<String>)
    ensures
        string_views(r@) == et_args(server@, None, new_session_command(name@)),
{
    build_new_session_args_with_options(server, None, None, name)
}

/// `et` arguments that start the detached tmux session `name` on `server`,
/// through the server's `etterminal` at `terminal_path` when it is known.
/// The SSH user does not enter the arguments.
pub fn build_new_session_args_with_options(
    server: &str,
    ssh_user: Option<&str>,
    terminal_path: Option<&str>,
    name: &str,
) -> (r: Vec<String>)
    ensures
        string_views(r@) == et_args(server@, opt_str_view(terminal_path), new_session_command(name@)),
{
    let _ = ssh_user;
    let mut command = "tmux new-session -d -s ".to_string();
    push_shell_quoted(&mut command, name);
    et_command_args(server, terminal_path, command)
}

} // verus!
