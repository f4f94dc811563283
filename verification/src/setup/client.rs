//! Client setup: the decisions of pairing this machine with a server and
//! creating its sync sessions.  The steps that touch files (recording
//! configuration and state, finding this executable, writing the launch
//! agent) are done by the caller between these steps.
use crate::error::Error;
use crate::model::config::{opt_view, pair_views, ClientConfig, ClientConfigView, Config, ConfigView, Role, SessionConfig, SyncPairConfig, SyncPairView};
use crate::model::state::{sync_state_views, State, StateView, SyncPairState, SyncStateView};
use crate::platform::launchd::Definition;
use crate::process::runner::{failed_with, ran, ran_ok, run_checked, succeeded, CommandLine, Output, Recorder, Runner};
use crate::setup::common::{daemon_agent, is_daemon_agent};
use crate::text::{owned, str_eq, string_views};
use crate::tooling::mutagen::{
    build_create_args, list_args, listed_sessions, listed_views, parse_list_output, ListedSession,
    ListedView, SYNC_MODE_TWO_WAY_RESOLVED,
};
use crate::tooling::tailscale::Status;
use vstd::prelude::*;

verus! {

#[derive(Debug, Clone, PartialEq, Eq)]
pub struct SyncRootInput {
    pub name: String,
    pub local: String,
    pub remote: String,
}

#[derive(Debug, Clone, PartialEq, Eq)]
pub struct ClientSetupInput {
    pub paired_server: String,
    pub sync_roots: Vec<SyncRootInput>,
}

#[derive(Debug, Clone, PartialEq, Eq)]
pub struct ClientSetupSummary {
    pub paired_server: String,
    pub sync_names: Vec<String>,
}

/// What the checks before client setup found.
#[derive(Debug, Clone, PartialEq, Eq)]
pub struct ClientPreflight {
    pub tailscale_ok: bool,
}

impl ClientPreflight {
    pub fn from_status(status: &Status) -> (p: ClientPreflight)
        ensures
            p.tailscale_ok == (status.backend_state@ == "Running"@),
    {
        ClientPreflight { tailscale_ok: str_eq(status.backend_state.as_str(), "Running") }
    }
}

/// The sync pair that a sync root becomes.
pub open spec fn root_pair(root: SyncRootInput) -> SyncPairView {
    SyncPairView { name: root.name@, local: root.local@, remote: root.remote@, mode: SYNC_MODE_TWO_WAY_RESOLVED@ }
}

pub open spec fn root_pairs(roots: Seq<SyncRootInput>) -> Seq<SyncPairView> {
    roots.map_values(|r: SyncRootInput| root_pair(r))
}

/// The sync pairs of the requested roots, all two-way-resolved.
pub fn client_sync_pairs(input: &ClientSetupInput) -> (r: Vec<SyncPairConfig>)
    ensures
        pair_views(r@) == root_pairs(input.sync_roots@),
{
    let ghost want = root_pairs(input.sync_roots@);
    let mut pairs: Vec<SyncPairConfig> = Vec::new();
    let mut i: usize = 0;
    while i < input.sync_roots.len()
        invariant
            i <= input.sync_roots.len(),
            want == root_pairs(input.sync_roots@),
            pair_views(pairs@) == want.take(i as int),
        decreases input.sync_roots.len() - i,
    {
        let root = &input.sync_roots[i];
        let ghost before = pair_views(pairs@);
        assert(want[i as int] == root_pair(input.sync_roots@[i as int]));
        pairs.push(
            SyncPairConfig {
                name: root.name.clone(),
                local: root.local.clone(),
                remote: root.remote.clone(),
                mode: owned(SYNC_MODE_TWO_WAY_RESOLVED),
            },
        );
        assert(pair_views(pairs@) =~= before.push(want[i as int]));
        assert(want.take(i + 1) =~= want.take(i as int).push(want[i as int]));
        i = i + 1;
    }
    assert(want.take(input.sync_roots.len() as int) =~= want);
    pairs
}

/// The configuration of a client paired with `paired_server`, with nothing
/// pinned and the given sync pairs.
pub open spec fn client_config_view(paired_server: Seq<char>, pairs: Seq<SyncPairView>) -> ConfigView {
    ConfigView {
        role: Role::Client,
        server: None,
        client: Some(ClientConfigView {
            paired_server,
            server_ssh_user: None,
            server_etterminal_path: None,
            pinned: Seq::empty(),
            sync_pairs: pairs,
        }),
        auto_attach: true,
    }
}

pub fn client_config(paired_server: &str, sync_pairs: Vec<SyncPairConfig>) -> (c: Config)
    ensures
        c@ == client_config_view(paired_server@, pair_views(sync_pairs@)),
{
    let pinned: Vec<String> = Vec::new();
    assert(string_views(pinned@) =~= Seq::<Seq<char>>::empty());
    Config {
        role: Role::Client,
        server: None,
        client: Some(ClientConfig {
            paired_server: owned(paired_server),
            server_ssh_user: None,
            server_etterminal_path: None,
            pinned,
            sync_pairs,
        }),
        session: SessionConfig { auto_attach: true },
    }
}

/// The sync state of a pair with the given status.
pub open spec fn pair_state(p: SyncPairView, status: Seq<char>) -> SyncStateView {
    SyncStateView { name: p.name, local: p.local, remote: p.remote, mode: p.mode, status }
}

/// Every pair, waiting to be created.
pub fn pending_syncs(pairs: &Vec<SyncPairConfig>) -> (r: Vec<SyncPairState>)
    ensures
        sync_state_views(r@) == pair_views(pairs@).map_values(|p: SyncPairView| pair_state(p, "pending"@)),
{
    let ghost want = pair_views(pairs@).map_values(|p: SyncPairView| pair_state(p, "pending"@));
    let mut states: Vec<SyncPairState> = Vec::new();
    let mut i: usize = 0;
    while i < pairs.len()
        invariant
            i <= pairs.len(),
            want == pair_views(pairs@).map_values(|p: SyncPairView| pair_state(p, "pending"@)),
            sync_state_views(states@) == want.take(i as int),
        decreases pairs.len() - i,
    {
        let p = &pairs[i];
        let ghost before = sync_state_views(states@);
        assert(want[i as int] == pair_state(pairs@[i as int]@, "pending"@));
        states.push(
            SyncPairState {
                name: p.name.clone(),
                local: p.local.clone(),
                remote: p.remote.clone(),
                mode: p.mode.clone(),
                status: owned("pending"),
            },
        );
        assert(sync_state_views(states@) =~= before.push(want[i as int]));
        assert(want.take(i + 1) =~= want.take(i as int).push(want[i as int]));
        i = i + 1;
    }
    assert(want.take(pairs.len() as int) =~= want);
    states
}

/// Marks the sync at `index` as created.
pub fn mark_created(syncs: &mut Vec<SyncPairState>, index: usize)
    requires
        index < old(syncs).len(),
    ensures
        sync_state_views(final(syncs)@) == sync_state_views(old(syncs)@).update(
            index as int,
            SyncStateView { status: "created"@, ..sync_state_views(old(syncs)@)[index as int] },
        ),
{
    let ghost before = sync_state_views(syncs@);
    let old_entry = &syncs[index];
    let entry = SyncPairState {
        name: old_entry.name.clone(),
        local: old_entry.local.clone(),
        remote: old_entry.remote.clone(),
        mode: old_entry.mode.clone(),
        status: owned("created"),
    };
    syncs.set(index, entry);
    assert(sync_state_views(syncs@) =~= before.update(
        index as int,
        SyncStateView { status: "created"@, ..before[index as int] },
    ));
}

/// The state recorded while sync sessions are still being created: the
/// server counts as reachable once one sync has been created.
pub open spec fn client_progress_view(tailscale_ok: bool, syncs: Seq<SyncStateView>, created: int) -> StateView {
    StateView {
        role: Role::Client,
        tailscale_ok,
        server_reachable: created > 0,
        healthy: false,
        summary: "client setup in progress; finalizing sync prerequisites"@,
        tailscale_dns: None,
        daemon_healthy: false,
        daemon_heartbeat_unix: 0,
        default_session_present: false,
        known_sessions: Seq::empty(),
        syncs,
    }
}

pub fn client_progress_state(tailscale_ok: bool, syncs: Vec<SyncPairState>, created: usize) -> (s: State)
    ensures
        s@ == client_progress_view(tailscale_ok, sync_state_views(syncs@), created as int),
{
    let s = State {
        role: Role::Client,
        tailscale_ok,
        server_reachable: created > 0,
        healthy: false,
        summary: owned("client setup in progress; finalizing sync prerequisites"),
        tailscale_dns: None,
        daemon_healthy: false,
        daemon_heartbeat_unix: 0,
        default_session_present: false,
        known_sessions: Vec::new(),
        syncs,
    };
    assert(string_views(s.known_sessions@) =~= Seq::<Seq<char>>::empty());
    s
}

/// `v` are the sessions of a successful `mutagen sync list`.
pub open spec fn syncs_listed<R: Runner>(runner: &R, v: Seq<ListedView>) -> bool {
    exists|out: Output| ran_ok(runner, "mutagen"@, seq!["sync"@, "list"@], out) && #[trigger] listed_sessions(out.stdout@) == v
}

/// Lists the sync sessions that Mutagen already has.
pub fn list_existing_syncs<R: Runner>(rec: &mut Recorder<R>) -> (res: Result<Vec<ListedSession>, Error>)
    ensures
        ran(*old(rec), *final(rec), seq![("mutagen"@, seq!["sync"@, "list"@])]),
        match res {
            Ok(v) => syncs_listed(old(rec).runner(), listed_views(v@)),
            Err(e) => failed_with(old(rec).runner(), "mutagen"@, seq!["sync"@, "list"@], e),
        },
{
    let args = list_args();
    assert(string_views(args@) == seq!["sync"@, "list"@]);
    match run_checked(rec, "mutagen", &args) {
        Ok(out) => {
            let v = parse_list_output(out.stdout.as_str());
            Ok(v)
        },
        Err(e) => Err(e),
    }
}

/// The listed sessions named `name`, in order.
pub open spec fn named(existing: Seq<ListedView>, name: Seq<char>) -> Seq<ListedView>
    decreases existing.len(),
{
    if existing.len() == 0 {
        Seq::empty()
    } else if existing.last().name == name {
        named(existing.drop_last(), name).push(existing.last())
    } else {
        named(existing.drop_last(), name)
    }
}

pub open spec fn duplicate_message(name: Seq<char>) -> Seq<char> {
    "multiple mutagen syncs already use the name `"@ + name
        + "`; remove the duplicates before rerunning `eternalMac setup client`"@
}

pub open spec fn or_unknown(url: Option<Seq<char>>) -> Seq<char> {
    match url {
        Some(u) => u,
        None => "unknown"@,
    }
}

pub open spec fn mismatch_message(root: SyncRootInput, found: ListedView) -> Seq<char> {
    "existing mutagen sync `"@ + root.name@ + "` does not match requested endpoints; expected "@
        + root.local@ + " <-> "@ + root.remote@ + ", found "@ + or_unknown(found.alpha_url)
        + " <-> "@ + or_unknown(found.beta_url)
}

/// Whether Mutagen already has the sync of `root`: no session of that name
/// means no; exactly one with the root's endpoints means yes; several of
/// that name, or one with other endpoints, is an error.
pub open spec fn matching_sync(existing: Seq<ListedView>, root: SyncRootInput) -> Result<bool, Seq<char>> {
    let m = named(existing, root.name@);
    if m.len() == 0 {
        Ok(false)
    } else if m.len() > 1 {
        Err(duplicate_message(root.name@))
    } else if m[0].alpha_url == Some(root.local@) && m[0].beta_url == Some(root.remote@) {
        Ok(true)
    } else {
        Err(mismatch_message(root, m[0]))
    }
}

/// The sessions named `name` are exactly the listed ones of that name.
proof fn lemma_named_members(existing: Seq<ListedView>, name: Seq<char>)
    ensures
        forall|j: int|
            #![trigger named(existing, name)[j]]
            0 <= j < named(existing, name).len() ==> named(existing, name)[j].name == name && existing.contains(
                named(existing, name)[j],
            ),
        forall|i: int| 0 <= i < existing.len() && #[trigger] existing[i].name == name ==> named(existing, name).contains(existing[i]),
    decreases existing.len(),
{
    if existing.len() > 0 {
        let prev = existing.drop_last();
        lemma_named_members(prev, name);
        let m = named(existing, name);
        let q = named(prev, name);
        assert forall|j: int| #![trigger m[j]] 0 <= j < m.len() implies m[j].name == name && existing.contains(m[j]) by {
            if j < q.len() {
                assert(m[j] == q[j]);
                let k = choose|k: int| 0 <= k < prev.len() && prev[k] == q[j];
                assert(existing[k] == prev[k]);
            } else {
                assert(m[j] == existing.last());
                assert(existing[existing.len() - 1] == existing.last());
            }
        }
        assert forall|i: int| 0 <= i < existing.len() && #[trigger] existing[i].name == name implies m.contains(existing[i]) by {
            if i < prev.len() {
                assert(prev[i] == existing[i]);
                let k = choose|k: int| 0 <= k < q.len() && q[k] == prev[i];
                assert(m[k] == q[k]);
            } else {
                assert(m[m.len() - 1] == existing.last());
            }
        }
    }
}

/// Law: Mutagen's listing counts as already holding the sync of `root` only
/// when a listed session of the root's name has exactly the root's local
/// (alpha) and remote (beta) endpoints; a listed session of that name with
/// any other endpoint makes it an error, never a reuse; and with no session
/// of that name the sync is created.
pub proof fn lemma_reuse_needs_both_endpoints(existing: Seq<ListedView>, root: SyncRootInput)
    ensures
        matching_sync(existing, root) == Ok::<bool, Seq<char>>(true) ==> exists|i: int|
            0 <= i < existing.len() && #[trigger] existing[i].name == root.name@ && existing[i].alpha_url == Some(root.local@)
                && existing[i].beta_url == Some(root.remote@),
        forall|i: int|
            0 <= i < existing.len() && #[trigger] existing[i].name == root.name@ && (existing[i].alpha_url != Some(root.local@)
                || existing[i].beta_url != Some(root.remote@)) ==> matching_sync(existing, root) is Err,
        (forall|i: int| 0 <= i < existing.len() ==> #[trigger] existing[i].name != root.name@) ==> matching_sync(existing, root)
            == Ok::<bool, Seq<char>>(false),
        existing.len() == 1 && existing[0].name == root.name@ && (existing[0].alpha_url != Some(root.local@)
            || existing[0].beta_url != Some(root.remote@)) ==> matching_sync(existing, root) == Err::<bool, Seq<char>>(
            mismatch_message(root, existing[0]),
        ),
{
    let name = root.name@;
    let m = named(existing, name);
    lemma_named_members(existing, name);
    if matching_sync(existing, root) == Ok::<bool, Seq<char>>(true) {
        assert(m.len() == 1);
        assert(existing.contains(m[0]));
        let i = choose|i: int| 0 <= i < existing.len() && existing[i] == m[0];
        assert(existing[i].name == root.name@);
    }
    assert forall|i: int|
        0 <= i < existing.len() && #[trigger] existing[i].name == root.name@ && (existing[i].alpha_url != Some(root.local@)
            || existing[i].beta_url != Some(root.remote@)) implies matching_sync(existing, root) is Err by {
        assert(m.contains(existing[i]));
        let j = choose|j: int| 0 <= j < m.len() && m[j] == existing[i];
        if m.len() == 1 {
            assert(j == 0);
        }
    }
    if forall|i: int| 0 <= i < existing.len() ==> #[trigger] existing[i].name != root.name@ {
        if m.len() > 0 {
            assert(existing.contains(m[0]));
            let i = choose|i: int| 0 <= i < existing.len() && existing[i] == m[0];
            assert(existing[i].name == name);
        }
    }
    if existing.len() == 1 && existing[0].name == root.name@ {
        assert(existing.drop_last().len() == 0);
        assert(named(existing.drop_last(), name) =~= Seq::<ListedView>::empty());
        assert(existing.last() == existing[0]);
        assert(m.len() == 1);
        assert(m[0] == existing[0]);
    }
}

fn push_or_unknown(m: &mut String, url: &Option<String>)
    ensures
        final(m)@ == old(m)@ + or_unknown(opt_view(*url)),
{
    match url {
        Some(u) => m.append(u.as_str()),
        None => m.append("unknown"),
    }
}

fn opt_eq(a: &Option<String>, b: &str) -> (r: bool)
    ensures
        r == (opt_view(*a) == Some(b@)),
{
    match a {
        Some(x) => str_eq(x.as_str(), b),
        None => false,
    }
}

pub fn has_matching_existing_sync(existing_syncs: &[ListedSession], root: &SyncRootInput) -> (r: Result<bool, Error>)
    ensures
        match matching_sync(listed_views(existing_syncs@), *root) {
            Ok(b) => r == Ok::<bool, Error>(b),
            Err(msg) => r is Err && r->Err_0.message@ == msg,
        },
{
    let ghost all = listed_views(existing_syncs@);
    let mut count: usize = 0;
    let mut first: usize = 0;
    let mut i: usize = 0;
    while i < existing_syncs.len()
        invariant
            i <= existing_syncs.len(),
            all == listed_views(existing_syncs@),
            count <= i,
            count == named(all.take(i as int), root.name@).len(),
            count > 0 ==> first < i && named(all.take(i as int), root.name@)[0] == all[first as int],
        decreases existing_syncs.len() - i,
    {
        assert(all.take(i + 1).drop_last() =~= all.take(i as int));
        assert(all[i as int] == existing_syncs@[i as int]@);
        if str_eq(existing_syncs[i].name.as_str(), root.name.as_str()) {
            if count == 0 {
                first = i;
            }
            count = count + 1;
        }
        i = i + 1;
    }
    assert(all.take(existing_syncs.len() as int) =~= all);
    if count == 0 {
        return Ok(false);
    }
    if count > 1 {
        let mut m = owned("multiple mutagen syncs already use the name `");
        m.append(root.name.as_str());
        m.append("`; remove the duplicates before rerunning `eternalMac setup client`");
        return Err(Error::new(m));
    }
    let existing = &existing_syncs[first];
    assert(all[first as int] == existing@);
    if opt_eq(&existing.alpha_url, root.local.as_str()) && opt_eq(&existing.beta_url, root.remote.as_str()) {
        return Ok(true);
    }
    let mut m = owned("existing mutagen sync `");
    m.append(root.name.as_str());
    m.append("` does not match requested endpoints; expected ");
    m.append(root.local.as_str());
    m.append(" <-> ");
    m.append(root.remote.as_str());
    m.append(", found ");
    push_or_unknown(&mut m, &existing.alpha_url);
    m.append(" <-> ");
    push_or_unknown(&mut m, &existing.beta_url);
    Err(Error::new(m))
}

pub open spec fn create_view(root: SyncRootInput) -> Seq<Seq<char>> {
    seq![
        "sync"@,
        "create"@,
        "--name"@,
        root.name@,
        "--sync-mode"@,
        SYNC_MODE_TWO_WAY_RESOLVED@,
        root.local@,
        root.remote@,
    ]
}

/// Mutagen has the sync of `root`: a matching session was there, and no
/// command ran, or the sync was created by the one command that ran.
pub open spec fn root_ensured<R: Runner>(before: Recorder<R>, after: Recorder<R>, existing: Seq<ListedView>, root: SyncRootInput) -> bool {
    match matching_sync(existing, root) {
        Err(_) => false,
        Ok(true) => ran(before, after, seq![]),
        Ok(false) => ran(before, after, seq![("mutagen"@, create_view(root))]) && succeeded(
            before.runner(),
            "mutagen"@,
            create_view(root),
        ),
    }
}

/// Making sure of the sync of `root` failed with `e`: a conflicting
/// session, and no command ran, or a creation that failed.
pub open spec fn root_failed<R: Runner>(before: Recorder<R>, after: Recorder<R>, existing: Seq<ListedView>, root: SyncRootInput, e: Error) -> bool {
    match matching_sync(existing, root) {
        Err(msg) => ran(before, after, seq![]) && e.message@ == msg,
        Ok(true) => false,
        Ok(false) => ran(before, after, seq![("mutagen"@, create_view(root))]) && failed_with(
            before.runner(),
            "mutagen"@,
            create_view(root),
            e,
        ),
    }
}

/// Makes sure Mutagen has the sync of `root`: creates it unless a matching
/// session exists; a conflicting session is an error and creates nothing.
pub fn ensure_sync_root<R: Runner>(rec: &mut Recorder<R>, existing_syncs: &[ListedSession], root: &SyncRootInput) -> (res: Result<(), Error>)
    ensures
        match res {
            Ok(()) => root_ensured(*old(rec), *final(rec), listed_views(existing_syncs@), *root),
            Err(e) => root_failed(*old(rec), *final(rec), listed_views(existing_syncs@), *root, e),
        },
{
    let ghost start_history = rec.history();
    assert(start_history =~= start_history + Seq::<CommandLine>::empty());
    match has_matching_existing_sync(existing_syncs, root) {
        Err(e) => Err(e),
        Ok(true) => Ok(()),
        Ok(false) => {
            let args = build_create_args(root.name.as_str(), root.local.as_str(), root.remote.as_str());
            match run_checked(rec, "mutagen", &args) {
                Ok(_) => Ok(()),
                Err(e) => Err(e),
            }
        },
    }
}

/// The launch agent that runs `executable daemon client`.
pub fn client_launch_agent(executable: String) -> (d: Definition)
    ensures
        is_daemon_agent(d, "com.eternalmac.client"@, executable@, "client"@),
{
    daemon_agent("com.eternalmac.client", executable, "client")
}

/// The state recorded once client setup is complete: the server counts as
/// reachable when there is a sync pair, and the client as healthy when
/// besides Tailscale runs.
pub open spec fn client_final_view(tailscale_ok: bool, has_sync_pairs: bool, syncs: Seq<SyncStateView>) -> StateView {
    StateView {
        role: Role::Client,
        tailscale_ok,
        server_reachable: has_sync_pairs,
        healthy: tailscale_ok && has_sync_pairs,
        summary: "client setup complete; runtime health pending"@,
        tailscale_dns: None,
        daemon_healthy: false,
        daemon_heartbeat_unix: 0,
        default_session_present: false,
        known_sessions: Seq::empty(),
        syncs,
    }
}

pub fn client_final_state(tailscale_ok: bool, has_sync_pairs: bool, syncs: Vec<SyncPairState>) -> (s: State)
    ensures
        s@ == client_final_view(tailscale_ok, has_sync_pairs, sync_state_views(syncs@)),
{
    let s = State {
        role: Role::Client,
        tailscale_ok,
        server_reachable: has_sync_pairs,
        healthy: tailscale_ok && has_sync_pairs,
        summary: owned("client setup complete; runtime health pending"),
        tailscale_dns: None,
        daemon_healthy: false,
        daemon_heartbeat_unix: 0,
        default_session_present: false,
        known_sessions: Vec::new(),
        syncs,
    };
    assert(string_views(s.known_sessions@) =~= Seq::<Seq<char>>::empty());
    s
}

/// The summary of a finished client setup: the paired server and the names
/// of the sync pairs, in order.
pub fn client_summary(paired_server: String, pairs: &Vec<SyncPairConfig>) -> (s: ClientSetupSummary)
    ensures
        s.paired_server@ == paired_server@,
        string_views(s.sync_names@) == pair_views(pairs@).map_values(|p: SyncPairView| p.name),
{
    let ghost want = pair_views(pairs@).map_values(|p: SyncPairView| p.name);
    let mut names: Vec<String> = Vec::new();
    let mut i: usize = 0;
    while i < pairs.len()
        invariant
            i <= pairs.len(),
            want == pair_views(pairs@).map_values(|p: SyncPairView| p.name),
            string_views(names@) == want.take(i as int),
        decreases pairs.len() - i,
    {
        let ghost before = string_views(names@);
        assert(want[i as int] == pairs@[i as int].name@);
        names.push(pairs[i].name.clone());
        assert(string_views(names@) =~= before.push(want[i as int]));
        assert(want.take(i + 1) =~= want.take(i as int).push(want[i as int]));
        i = i + 1;
    }
    assert(want.take(pairs.len() as int) =~= want);
    ClientSetupSummary { paired_server, sync_names: names }
}

} // verus!
