//! Running external programs: the runner abstraction, the checked run that
//! turns a failed exit into an error, and where a named program is looked
//! for.
use crate::error::Error;
use crate::text::{chars_eq_str, chars_of, join, join_strings, owned, push_chars, split_chars, split_on, str_eq, string_views, trim, trimmed, views};
use vstd::prelude::*;

verus! {

#[derive(Debug, Clone, PartialEq, Eq)]
pub struct Output {
    pub stdout: String,
    pub stderr: String,
    pub success: bool,
}

/// Runs a program with arguments and reports what it printed and whether it
/// exited successfully.  Implementations talk to the operating system (or,
/// in tests, to a script of answers).  What the library proves of code that
/// runs programs holds for every runner: it is stated over `answers`, which
/// code generic in the runner cannot see into, so it ties each result to
/// the exact program and arguments that were run.
pub trait Runner {
    /// `result` is an answer that this runner can give when asked to run
    /// `program` with `args`.  By default any answer can be given; a runner
    /// with a model of its programs can say more.
    closed spec fn answers(&self, program: Seq<char>, args: Seq<Seq<char>>, result: Result<Output, Error>) -> bool {
        true
    }

    fn run(&self, program: &str, args: &[String]) -> (result: Result<Output, Error>)
        ensures
            self.answers(program@, string_views(args@), result),
    ;

    /// Runs a program attached to the user's terminal, so that the user
    /// works in it until it exits.  By default this is a plain run.
    fn run_interactive(&self, program: &str, args: &[String]) -> (result: Result<Output, Error>)
        ensures
            self.answers(program@, string_views(args@), result),
    {
        self.run(program, args)
    }
}

/// A command line as the library records it: the program and its
/// arguments.
pub type CommandLine = (Seq<char>, Seq<Seq<char>>);

/// A runner together with the commands run through it so far.  The
/// library runs every command through one of these, so its contracts can
/// say exactly which commands ran and in what order.
pub struct Recorder<'a, R: Runner> {
    runner: &'a R,
    history: Ghost<Seq<CommandLine>>,
    sessions: Ghost<Seq<CommandLine>>,
}

impl<'a, R: Runner> Recorder<'a, R> {
    pub closed spec fn runner(&self) -> &'a R {
        self.runner
    }

    /// The commands run so far, oldest first.
    pub closed spec fn history(&self) -> Seq<CommandLine> {
        self.history@
    }

    /// The commands run attached to the user's terminal so far, oldest
    /// first.
    pub closed spec fn sessions(&self) -> Seq<CommandLine> {
        self.sessions@
    }

    pub fn new(runner: &'a R) -> (r: Self)
        ensures
            r.runner() == runner,
            r.history() == Seq::<CommandLine>::empty(),
            r.sessions() == Seq::<CommandLine>::empty(),
    {
        Recorder { runner, history: Ghost(Seq::empty()), sessions: Ghost(Seq::empty()) }
    }

    /// Runs `program` with `args` and records it.
    pub fn run(&mut self, program: &str, args: &[String]) -> (result: Result<Output, Error>)
        ensures
            final(self).runner() == old(self).runner(),
            final(self).history() == old(self).history() + seq![(program@, string_views(args@))],
            final(self).sessions() == old(self).sessions(),
            old(self).runner().answers(program@, string_views(args@), result),
    {
        let result = self.runner.run(program, args);
        let ghost line: CommandLine = (program@, string_views(args@));
        proof {
            assert(self.history@.push(line) =~= self.history@ + seq![line]);
        }
        self.history = Ghost(self.history@ + seq![line]);
        result
    }

    /// Runs `program` with `args` attached to the user's terminal and
    /// records it.
    pub fn run_interactive(&mut self, program: &str, args: &[String]) -> (result: Result<Output, Error>)
        ensures
            final(self).runner() == old(self).runner(),
            final(self).history() == old(self).history(),
            final(self).sessions() == old(self).sessions() + seq![(program@, string_views(args@))],
            old(self).runner().answers(program@, string_views(args@), result),
    {
        let result = self.runner.run_interactive(program, args);
        let ghost line: CommandLine = (program@, string_views(args@));
        self.sessions = Ghost(self.sessions@ + seq![line]);
        result
    }
}

/// Between `before` and `after` the same runner ran exactly the commands
/// `made`, in that order, and none attached to the user's terminal.
pub open spec fn ran<R: Runner>(before: Recorder<R>, after: Recorder<R>, made: Seq<CommandLine>) -> bool {
    &&& after.runner() == before.runner()
    &&& after.history() == before.history() + made
    &&& after.sessions() == before.sessions()
}

/// Between `before` and `after` the same runner ran exactly the commands
/// `made` attached to the user's terminal, in that order, and no other
/// command.
pub open spec fn attended<R: Runner>(before: Recorder<R>, after: Recorder<R>, made: Seq<CommandLine>) -> bool {
    &&& after.runner() == before.runner()
    &&& after.history() == before.history()
    &&& after.sessions() == before.sessions() + made
}

/// `"; <label>: <text>"` when the trimmed `text` is not blank, else nothing.
pub open spec fn stream_note(label: Seq<char>, text: Seq<char>) -> Seq<char> {
    if trim(text).len() > 0 {
        label + trim(text)
    } else {
        Seq::empty()
    }
}

/// The message of a run that exited unsuccessfully.
pub open spec fn command_failure(program: Seq<char>, args: Seq<Seq<char>>, stderr: Seq<char>) -> Seq<char> {
    "command failed: "@ + program + " "@ + join(args, " "@) + stream_note("; stderr: "@, stderr)
}

/// The runner answered `program` with `args` by a successful exit printing `out`.
pub open spec fn ran_ok<R: Runner>(runner: &R, program: Seq<char>, args: Seq<Seq<char>>, out: Output) -> bool {
    runner.answers(program, args, Ok(out)) && out.success
}

/// The runner answered `program` with `args` by a successful exit.
pub open spec fn succeeded<R: Runner>(runner: &R, program: Seq<char>, args: Seq<Seq<char>>) -> bool {
    exists|out: Output| #[trigger] runner.answers(program, args, Ok(out)) && out.success
}

/// `e` is the error of a checked run of `program` with `args` that the runner
/// could answer: its own error, or the failure message of an unsuccessful
/// exit.
pub open spec fn failed_with<R: Runner>(runner: &R, program: Seq<char>, args: Seq<Seq<char>>, e: Error) -> bool {
    exists|raw: Result<Output, Error>|
        #[trigger] runner.answers(program, args, raw) && match raw {
            Err(x) => e.message@ == x.message@,
            Ok(o) => !o.success && e.message@ == command_failure(program, args, o.stderr@),
        }
}

/// Appends `label` and the trimmed `text` to `message` when `text` is not blank.
pub fn append_stream(message: &mut String, label: &str, text: &str)
    ensures
        final(message)@ == old(message)@ + stream_note(label@, text@),
{
    let t = trimmed(text);
    if t.len() > 0 {
        message.append(label);
        push_chars(message, &t);
    }
}

pub fn command_failure_message(program: &str, args: &Vec<String>, stderr: &str) -> (m: String)
    ensures
        m@ == command_failure(program@, string_views(args@), stderr@),
{
    let mut m = "command failed: ".to_string();
    m.append(program);
    m.append(" ");
    let joined = join_strings(args, " ");
    m.append(joined.as_str());
    append_stream(&mut m, "; stderr: ", stderr);
    m
}

/// Runs `program` and turns an unsuccessful exit into an error that names
/// the command and what it printed on stderr.
pub fn run_checked<R: Runner>(rec: &mut Recorder<R>, program: &str, args: &Vec<String>) -> (res: Result<Output, Error>)
    ensures
        ran(*old(rec), *final(rec), seq![(program@, string_views(args@))]),
        match res {
            Ok(out) => ran_ok(old(rec).runner(), program@, string_views(args@), out),
            Err(e) => failed_with(old(rec).runner(), program@, string_views(args@), e),
        },
{
    let raw = rec.run(program, args.as_slice());
    match raw {
        Err(e) => Err(e),
        Ok(out) => {
            if out.success {
                Ok(out)
            } else {
                let m = command_failure_message(program, args, out.stderr.as_str());
                Err(Error::new(m))
            }
        },
    }
}

/// Runs `program` attached to the user's terminal and turns an
/// unsuccessful exit into the same error as `run_checked`.
pub fn run_interactive_checked<R: Runner>(rec: &mut Recorder<R>, program: &str, args: &Vec<String>) -> (res: Result<(), Error>)
    ensures
        attended(*old(rec), *final(rec), seq![(program@, string_views(args@))]),
        match res {
            Ok(()) => succeeded(old(rec).runner(), program@, string_views(args@)),
            Err(e) => failed_with(old(rec).runner(), program@, string_views(args@), e),
        },
{
    match rec.run_interactive(program, args.as_slice()) {
        Err(e) => Err(e),
        Ok(out) => {
            if out.success {
                Ok(())
            } else {
                let m = command_failure_message(program, args, out.stderr.as_str());
                Err(Error::new(m))
            }
        },
    }
}

pub const TAILSCALE_APP_BINARY: &'static str = "/Applications/Tailscale.app/Contents/MacOS/Tailscale";

/// The number of normal or parent components among path segments: the
/// segments that are neither empty nor `.`.
pub open spec fn named_segments(segs: Seq<Seq<char>>) -> int
    decreases segs.len(),
{
    if segs.len() == 0 {
        0
    } else {
        named_segments(segs.drop_last()) + if segs.last().len() > 0 && segs.last() != "."@ {
            1int
        } else {
            0int
        }
    }
}

proof fn lemma_named_segments_grow(segs: Seq<Seq<char>>, k: int)
    requires
        0 <= k <= segs.len(),
    ensures
        named_segments(segs.take(k)) <= named_segments(segs),
    decreases segs.len() - k,
{
    if k < segs.len() {
        lemma_named_segments_grow(segs, k + 1);
        assert(segs.take(k + 1).drop_last() =~= segs.take(k));
    } else {
        assert(segs.take(k) =~= segs);
    }
}

/// How many components `Path::new(s).components()` yields on Unix: the root
/// for a leading `/`, the current directory for a leading `.` segment, and
/// every other segment that is neither empty nor `.`.
pub open spec fn component_count(s: Seq<char>) -> int {
    let segs = split_on(s, '/');
    (if s.len() > 0 && s[0] == '/' { 1int } else { 0int }) + (if segs[0] == "."@ {
        1int
    } else {
        0int
    }) + named_segments(segs)
}

/// The first occurrence of each item of `s`, in order.
pub open spec fn dedupe_spec(s: Seq<Seq<char>>) -> Seq<Seq<char>>
    decreases s.len(),
{
    if s.len() == 0 {
        Seq::empty()
    } else {
        let prev = dedupe_spec(s.drop_last());
        if prev.contains(s.last()) {
            prev
        } else {
            prev.push(s.last())
        }
    }
}

/// Law: deduplicating keeps every item and repeats none.
pub proof fn lemma_dedupe_unique_and_complete(s: Seq<Seq<char>>)
    ensures
        dedupe_spec(s).no_duplicates(),
        forall|x: Seq<char>| s.contains(x) <==> #[trigger] dedupe_spec(s).contains(x),
    decreases s.len(),
{
    if s.len() > 0 {
        let prev = s.drop_last();
        lemma_dedupe_unique_and_complete(prev);
        let p = dedupe_spec(prev);
        let d = dedupe_spec(s);
        assert forall|x: Seq<char>| s.contains(x) <==> #[trigger] d.contains(x) by {
            if s.contains(x) {
                let k = choose|k: int| 0 <= k < s.len() && s[k] == x;
                if k < s.len() - 1 {
                    assert(prev[k] == x);
                    assert(prev.contains(x));
                    assert(p.contains(x));
                    let j = choose|j: int| 0 <= j < p.len() && p[j] == x;
                    if !p.contains(s.last()) {
                        assert(d[j] == x);
                    }
                } else if !p.contains(s.last()) {
                    assert(d[p.len() as int] == x);
                }
            }
            if d.contains(x) {
                let j = choose|j: int| 0 <= j < d.len() && d[j] == x;
                if j < p.len() {
                    assert(p[j] == x);
                    assert(p.contains(x));
                    assert(prev.contains(x));
                    let k = choose|k: int| 0 <= k < prev.len() && prev[k] == x;
                    assert(s[k] == x);
                } else {
                    assert(x == s.last());
                    assert(s[s.len() - 1] == x);
                }
            }
        }
        if !p.contains(s.last()) {
            assert forall|i: int, j: int| 0 <= i < d.len() && 0 <= j < d.len() && i != j implies d[i] != d[j] by {
                if i < p.len() && j < p.len() {
                    assert(d[i] == p[i] && d[j] == p[j]);
                } else if i < p.len() {
                    assert(d[i] == p[i]);
                    assert(p.contains(p[i]));
                } else {
                    assert(d[j] == p[j]);
                    assert(p.contains(p[j]));
                }
            }
        }
    }
}

/// Where `program` is looked for: an explicit path as it is; a bare name
/// as given, then in the two Homebrew prefixes, and for `tailscale` also in
/// the standalone app bundle.
pub open spec fn candidate_paths(program: Seq<char>) -> Seq<Seq<char>> {
    if component_count(program) > 1 {
        seq![program]
    } else {
        dedupe_spec(
            seq![program, "/opt/homebrew/bin/"@ + program, "/usr/local/bin/"@ + program] + if program
                == "tailscale"@ {
                seq![TAILSCALE_APP_BINARY@]
            } else {
                Seq::<Seq<char>>::empty()
            },
        )
    }
}

/// Whether `s` is one of the strings of `v`.
pub fn contains_string(v: &Vec<String>, s: &str) -> (r: bool)
    ensures
        r == string_views(v@).contains(s@),
{
    let mut i: usize = 0;
    while i < v.len()
        invariant
            i <= v.len(),
            forall|k: int| 0 <= k < i ==> v@[k]@ != s@,
        decreases v.len() - i,
    {
        if str_eq(v[i].as_str(), s) {
            assert(string_views(v@)[i as int] == s@);
            return true;
        }
        i = i + 1;
    }
    assert(!string_views(v@).contains(s@)) by {
        if string_views(v@).contains(s@) {
            let k = choose|k: int| 0 <= k < string_views(v@).len() && string_views(v@)[k] == s@;
            assert(v@[k]@ == s@);
        }
    }
    false
}

/// The first occurrence of each of `values`, in order.
pub fn dedupe(values: Vec<String>) -> (r: Vec<String>)
    ensures
        string_views(r@) == dedupe_spec(string_views(values@)),
{
    let ghost vals = string_views(values@);
    let mut unique: Vec<String> = Vec::new();
    let mut i: usize = 0;
    while i < values.len()
        invariant
            i <= values.len(),
            vals == string_views(values@),
            string_views(unique@) == dedupe_spec(vals.take(i as int)),
        decreases values.len() - i,
    {
        assert(vals.take(i + 1).drop_last() =~= vals.take(i as int));
        let value = values[i].clone();
        if !contains_string(&unique, value.as_str()) {
            unique.push(value);
            assert(string_views(unique@) =~= dedupe_spec(vals.take(i as int)).push(vals[i as int]));
        }
        i = i + 1;
    }
    assert(vals.take(values.len() as int) =~= vals);
    unique
}

/// Whether `program` names a path of more than one component.
pub fn has_several_components(program: &str) -> (r: bool)
    ensures
        r == (component_count(program@) > 1),
{
    let v = chars_of(program);
    let segs = split_chars(&v, '/');
    let mut count: usize = 0;
    if v.len() > 0 && v[0] == '/' {
        count = count + 1;
    }
    if chars_eq_str(&segs[0], ".") {
        count = count + 1;
    }
    let ghost base = count as int;
    assert(views(segs@)[0] == segs@[0]@);
    let mut i: usize = 0;
    while i < segs.len()
        invariant
            i <= segs.len(),
            views(segs@) == split_on(program@, '/'),
            base <= 2,
            base == (if program@.len() > 0 && program@[0] == '/' { 1int } else { 0int }) + (if split_on(program@, '/')[0] == "."@ { 1int } else { 0int }),
            count == base + named_segments(views(segs@).take(i as int)),
            count <= 2,
        decreases segs.len() - i,
    {
        assert(views(segs@).take(i + 1).drop_last() =~= views(segs@).take(i as int));
        if segs[i].len() > 0 && !chars_eq_str(&segs[i], ".") {
            count = count + 1;
        }
        i = i + 1;
        if count > 1 {
            proof {
                lemma_named_segments_grow(views(segs@), i as int);
            }
            return true;
        }
    }
    assert(views(segs@).take(segs.len() as int) =~= views(segs@));
    count > 1
}

/// Where to look for `program`, in the order to try.
pub fn candidate_program_paths(program: &str) -> (r: Vec<String>)
    ensures
        string_views(r@) == candidate_paths(program@),
{
    if has_several_components(program) {
        let r = vec![owned(program)];
        assert(string_views(r@) =~= seq![program@]);
        return r;
    }
    let mut homebrew = "/opt/homebrew/bin/".to_string();
    homebrew.append(program);
    let mut local = "/usr/local/bin/".to_string();
    local.append(program);
    let mut candidates = vec![owned(program), homebrew, local];
    let ghost first = string_views(candidates@);
    if str_eq(program, "tailscale") {
        candidates.push(owned(TAILSCALE_APP_BINARY));
    }
    assert(string_views(candidates@) =~= seq![program@, "/opt/homebrew/bin/"@ + program@, "/usr/local/bin/"@ + program@]
        + if program@ == "tailscale"@ {
        seq![TAILSCALE_APP_BINARY@]
    } else {
        Seq::<Seq<char>>::empty()
    });
    dedupe(candidates)
}

/// Starting a program: its candidate paths, the next one to try, and what
/// the last path that did not exist was reported as.
pub struct Launch {
    pub program: String,
    pub candidates: Vec<String>,
    pub next: usize,
    pub missing: Option<String>,
}

/// What trying a candidate path came to.
pub enum LaunchEvent {
    /// The program ran and gave this output.
    Started(Output),
    /// Nothing exists at the path; the text says so.
    NotFound(String),
    /// The program could not be started for another reason, given as text.
    Failed(String),
}

/// What the caller does next.
pub enum LaunchStep {
    /// Try to start the program at this path.
    Try(String),
    /// Starting is over, with this result.
    Finished(Result<Output, Error>),
}

/// The message when no candidate path exists: the paths searched.
pub open spec fn searched_message(program: Seq<char>, candidates: Seq<Seq<char>>) -> Seq<char> {
    "running "@ + program + "; searched "@ + join(candidates, ", "@)
}

/// The cause of a search that found no path: the last report of a
/// missing path, or that the command was not found when none was tried.
pub open spec fn searched_cause(missing: Option<Seq<char>>) -> Seq<char> {
    match missing {
        Some(t) => t,
        None => "command not found"@,
    }
}

/// The step that `l` offers: the next candidate, or the end of the search.
pub open spec fn launch_offer(l: Launch, step: LaunchStep) -> bool {
    if l.next < l.candidates.len() {
        step matches LaunchStep::Try(path) && path@ == l.candidates@[l.next as int]@
    } else {
        step matches LaunchStep::Finished(Err(e)) && {
            &&& e.message@ == searched_message(l.program@, string_views(l.candidates@))
            &&& (e.cause matches Some(c) && c@ == searched_cause(
                match l.missing {
                    Some(t) => Some(t@),
                    None => None,
                },
            ))
        }
    }
}

fn offer(l: &Launch) -> (step: LaunchStep)
    ensures
        launch_offer(*l, step),
{
    if l.next < l.candidates.len() {
        LaunchStep::Try(l.candidates[l.next].clone())
    } else {
        let mut m = owned("running ");
        m.append(l.program.as_str());
        m.append("; searched ");
        let joined = join_strings(&l.candidates, ", ");
        m.append(joined.as_str());
        let cause = match &l.missing {
            Some(t) => t.clone(),
            None => owned("command not found"),
        };
        LaunchStep::Finished(Err(Error::with_cause(m, cause)))
    }
}

/// Begins starting `program`: its candidate paths are tried in order.
pub fn launch_start(program: &str) -> (r: (Launch, LaunchStep))
    ensures
        r.0.program@ == program@,
        string_views(r.0.candidates@) == candidate_paths(program@),
        r.0.next == 0,
        r.0.missing is None,
        launch_offer(r.0, r.1),
{
    let l = Launch { program: owned(program), candidates: candidate_program_paths(program), next: 0, missing: None };
    let step = offer(&l);
    (l, step)
}

/// Takes starting one step further: a started program or another failure
/// ends it; a missing path moves on to the next candidate, and past the
/// last one ends it with what was searched.
pub fn launch_step(l: Launch, event: LaunchEvent) -> (r: (Launch, LaunchStep))
    ensures
        l.next >= l.candidates.len() ==> r.0 == l && launch_offer(l, r.1),
        l.next < l.candidates.len() ==> match event {
            LaunchEvent::Started(out) => r.1 == LaunchStep::Finished(Ok(out)),
            LaunchEvent::Failed(t) => r.1 matches LaunchStep::Finished(Err(e)) && {
                &&& e.message@ == "running "@ + l.program@
                &&& (e.cause matches Some(c) && c@ == t@)
            },
            LaunchEvent::NotFound(t) => {
                &&& r.0.program == l.program
                &&& r.0.candidates == l.candidates
                &&& r.0.next == l.next + 1
                &&& r.0.missing == Some(t)
                &&& launch_offer(r.0, r.1)
            },
        },
{
    if l.next >= l.candidates.len() {
        let step = offer(&l);
        return (l, step);
    }
    match event {
        LaunchEvent::Started(out) => (l, LaunchStep::Finished(Ok(out))),
        LaunchEvent::Failed(t) => {
            let mut m = owned("running ");
            m.append(l.program.as_str());
            (l, LaunchStep::Finished(Err(Error::with_cause(m, t))))
        },
        LaunchEvent::NotFound(t) => {
            let next = Launch { program: l.program, candidates: l.candidates, next: l.next + 1, missing: Some(t) };
            let step = offer(&next);
            (next, step)
        },
    }
}

} // verus!
