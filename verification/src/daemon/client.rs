//! The client daemon: what a client should do given its pinned sessions and
//! network, and the state it records from Tailscale and Mutagen.
use crate::error::Error;
use crate::model::config::{opt_view, pair_views, ClientConfig, Config, Role, SyncPairView};
use crate::model::state::{sync_state_views, State, SyncPairState, SyncStateView};
use crate::text::{
    chars_of, contains, contains_str, lines, lower_ascii, ascii_lower, owned, split_lines,
    starts_with, str_eq, string_of, string_views, strip_prefix, trim, trim_chars, trimmed, views,
};
use crate::tooling::mutagen::after;
use crate::tooling::tailscale::Status;
use vstd::prelude::*;

verus! {

#[derive(Debug, Clone)]
pub struct ClientInput {
    pub pinned_sessions: Vec<String>,
    pub tailscale_ready: bool,
}

#[derive(Debug, Clone, PartialEq, Eq)]
pub struct ClientState {
    pub auto_attach: Vec<String>,
    pub healthy: bool,
}

/// A client attaches to its pinned sessions, and is healthy, exactly when
/// Tailscale is ready; otherwise it attaches to nothing.
pub fn reconcile_client(input: ClientInput) -> (r: ClientState)
    ensures
        r.healthy == input.tailscale_ready,
        string_views(r.auto_attach@) == if input.tailscale_ready {
            string_views(input.pinned_sessions@)
        } else {
            Seq::empty()
        },
{
    if !input.tailscale_ready {
        let r = ClientState { auto_attach: Vec::new(), healthy: false };
        assert(string_views(r.auto_attach@) =~= Seq::<Seq<char>>::empty());
        return r;
    }
    ClientState { auto_attach: input.pinned_sessions, healthy: true }
}

/// A sync session's name and status as `mutagen sync list` reports them.
#[derive(Debug, Clone, PartialEq, Eq)]
pub struct MutagenSyncStatus {
    pub name: String,
    pub status: String,
}

/// Where the reading of a status listing stands.
pub struct StatusScan {
    pub parsed: Seq<(Seq<char>, Seq<char>)>,
    pub name: Option<Seq<char>>,
    pub status: Option<Seq<char>>,
}

/// The entries so far with the one being read added when it has both a name
/// and a status; either way the one being read is dropped.
pub open spec fn scan_flushed(st: StatusScan) -> StatusScan {
    StatusScan {
        parsed: match (st.name, st.status) {
            (Some(n), Some(s)) => st.parsed.push((n, s)),
            _ => st.parsed,
        },
        name: None,
        status: None,
    }
}

/// Reading one line: a blank line ends an entry, a `Name:` line ends one
/// and starts the next, a `Status:` line sets the status of the one being
/// read.
pub open spec fn scan_step(st: StatusScan, raw: Seq<char>) -> StatusScan {
    let line = trim(raw);
    if line.len() == 0 {
        scan_flushed(st)
    } else if starts_with(line, "Name:"@) {
        StatusScan { name: Some(after(line, "Name:"@)), ..scan_flushed(st) }
    } else if starts_with(line, "Status:"@) {
        StatusScan { status: Some(after(line, "Status:"@)), ..st }
    } else {
        st
    }
}

pub open spec fn scan_after(ls: Seq<Seq<char>>) -> StatusScan
    decreases ls.len(),
{
    if ls.len() == 0 {
        StatusScan { parsed: Seq::empty(), name: None, status: None }
    } else {
        scan_step(scan_after(ls.drop_last()), ls.last())
    }
}

/// The (name, status) entries of a whole listing.
pub open spec fn sync_statuses(output: Seq<char>) -> Seq<(Seq<char>, Seq<char>)> {
    scan_flushed(scan_after(lines(output))).parsed
}

pub open spec fn status_views(v: Seq<MutagenSyncStatus>) -> Seq<(Seq<char>, Seq<char>)> {
    v.map_values(|e: MutagenSyncStatus| (e.name@, e.status@))
}

fn scan_flush(parsed: &mut Vec<MutagenSyncStatus>, name: Option<String>, status: Option<String>)
    ensures
        status_views(final(parsed)@) == scan_flushed(
            StatusScan { parsed: status_views(old(parsed)@), name: opt_view(name), status: opt_view(status) },
        ).parsed,
{
    let ghost before = status_views(parsed@);
    match (name, status) {
        (Some(n), Some(s)) => {
            let ghost e = (n@, s@);
            parsed.push(MutagenSyncStatus { name: n, status: s });
            assert(status_views(parsed@) =~= before.push(e));
        },
        _ => {},
    }
}

fn rest_of(line: &Vec<char>, p: &str) -> (r: Option<String>)
    ensures
        r is Some <==> starts_with(line@, p@),
        r is Some ==> r->0@ == after(line@, p@),
{
    match strip_prefix(line, p) {
        Some(rest) => Some(string_of(&trim_chars(&rest))),
        None => None,
    }
}

/// The sync entries that `mutagen sync list` printed, with both a name and
/// a status, in order.
pub fn parse_sync_statuses(mutagen_output: &str) -> (r: Vec<MutagenSyncStatus>)
    ensures
        status_views(r@) == sync_statuses(mutagen_output@),
{
    let text = chars_of(mutagen_output);
    let ls = split_lines(&text);
    let ghost lv = views(ls@);
    let mut parsed: Vec<MutagenSyncStatus> = Vec::new();
    let mut name: Option<String> = None;
    let mut status: Option<String> = None;
    assert(status_views(parsed@) =~= Seq::<(Seq<char>, Seq<char>)>::empty());
    let mut i: usize = 0;
    while i < ls.len()
        invariant
            i <= ls.len(),
            lv == views(ls@),
            scan_after(lv.take(i as int)) == (StatusScan {
                parsed: status_views(parsed@),
                name: opt_view(name),
                status: opt_view(status),
            }),
        decreases ls.len() - i,
    {
        assert(lv.take(i + 1).drop_last() =~= lv.take(i as int));
        assert(lv[i as int] == ls@[i as int]@);
        let line = trim_chars(&ls[i]);
        if line.len() == 0 {
            scan_flush(&mut parsed, name, status);
            name = None;
            status = None;
        } else if let Some(n) = rest_of(&line, "Name:") {
            scan_flush(&mut parsed, name, status);
            name = Some(n);
            status = None;
        } else if let Some(s) = rest_of(&line, "Status:") {
            status = Some(s);
        }
        i = i + 1;
    }
    assert(lv.take(ls.len() as int) =~= lv);
    scan_flush(&mut parsed, name, status);
    parsed
}

/// The markers of a steady, healthy sync.
pub open spec fn has_healthy_marker(s: Seq<char>) -> bool {
    contains(s, "watching for changes"@) || contains(s, "idle"@) || contains(s, "synchronized"@)
}

/// The markers of a sync that is stopped, failing or still busy.
pub open spec fn has_trouble_marker(s: Seq<char>) -> bool {
    ||| contains(s, "paused"@)
    ||| contains(s, "halted"@)
    ||| contains(s, "problem"@)
    ||| contains(s, "problems"@)
    ||| contains(s, "error"@)
    ||| contains(s, "stopped"@)
    ||| contains(s, "disconnected"@)
    ||| contains(s, "reconnect"@)
    ||| contains(s, "reconnecting"@)
    ||| contains(s, "scanning"@)
    ||| contains(s, "staging"@)
    ||| contains(s, "synchronizing"@)
    ||| contains(s, "applying"@)
    ||| contains(s, "waiting"@)
    ||| contains(s, "conflict"@)
}

/// A status counts as active when, trimmed and in ASCII lowercase, it is
/// not blank, shows a healthy marker and no trouble marker.
pub open spec fn is_active(status: Seq<char>) -> bool {
    let normalized = ascii_lower(trim(status));
    normalized.len() > 0 && has_healthy_marker(normalized) && !has_trouble_marker(normalized)
}

fn any_marker(v: &Vec<char>, markers: &[&str]) -> (r: bool)
    ensures
        r == exists|i: int| 0 <= i < markers@.len() && contains(v@, #[trigger] markers@[i]@),
{
    let mut i: usize = 0;
    while i < markers.len()
        invariant
            i <= markers.len(),
            forall|k: int| 0 <= k < i ==> !contains(v@, #[trigger] markers@[k]@),
        decreases markers.len() - i,
    {
        if contains_str(v, markers[i]) {
            return true;
        }
        i = i + 1;
    }
    false
}

pub fn status_is_active(status: &str) -> (r: bool)
    ensures
        r == is_active(status@),
{
    let normalized = lower_ascii(&trimmed(status));
    if normalized.len() == 0 {
        return false;
    }
    let healthy = ["watching for changes", "idle", "synchronized"];
    let has_healthy = any_marker(&normalized, &healthy);
    assert(has_healthy == has_healthy_marker(normalized@)) by {
        if has_healthy_marker(normalized@) {
            if contains(normalized@, "watching for changes"@) {
                assert(contains(normalized@, healthy@[0]@));
            } else if contains(normalized@, "idle"@) {
                assert(contains(normalized@, healthy@[1]@));
            } else {
                assert(contains(normalized@, healthy@[2]@));
            }
        }
    }
    if !has_healthy {
        return false;
    }
    let trouble = [
        "paused",
        "halted",
        "problem",
        "problems",
        "error",
        "stopped",
        "disconnected",
        "reconnect",
        "reconnecting",
        "scanning",
        "staging",
        "synchronizing",
        "applying",
        "waiting",
        "conflict",
    ];
    let has_trouble = any_marker(&normalized, &trouble);
    assert(has_trouble == has_trouble_marker(normalized@)) by {
        if has_trouble_marker(normalized@) {
            let n = normalized@;
            if contains(n, "paused"@) { assert(contains(n, trouble@[0]@)); }
            else if contains(n, "halted"@) { assert(contains(n, trouble@[1]@)); }
            else if contains(n, "problem"@) { assert(contains(n, trouble@[2]@)); }
            else if contains(n, "problems"@) { assert(contains(n, trouble@[3]@)); }
            else if contains(n, "error"@) { assert(contains(n, trouble@[4]@)); }
            else if contains(n, "stopped"@) { assert(contains(n, trouble@[5]@)); }
            else if contains(n, "disconnected"@) { assert(contains(n, trouble@[6]@)); }
            else if contains(n, "reconnect"@) { assert(contains(n, trouble@[7]@)); }
            else if contains(n, "reconnecting"@) { assert(contains(n, trouble@[8]@)); }
            else if contains(n, "scanning"@) { assert(contains(n, trouble@[9]@)); }
            else if contains(n, "staging"@) { assert(contains(n, trouble@[10]@)); }
            else if contains(n, "synchronizing"@) { assert(contains(n, trouble@[11]@)); }
            else if contains(n, "applying"@) { assert(contains(n, trouble@[12]@)); }
            else if contains(n, "waiting"@) { assert(contains(n, trouble@[13]@)); }
            else { assert(contains(n, trouble@[14]@)); }
        }
    }
    !has_trouble
}

/// The status that the first entry named `name` reports.
pub open spec fn first_status(entries: Seq<(Seq<char>, Seq<char>)>, name: Seq<char>) -> Option<Seq<char>>
    decreases entries.len(),
{
    if entries.len() == 0 {
        None
    } else if entries[0].0 == name {
        Some(entries[0].1)
    } else {
        first_status(entries.drop_first(), name)
    }
}

/// How a configured sync stands: `missing` when Mutagen does not list it,
/// `active` when its status is active, `degraded` otherwise.
pub open spec fn sync_condition(entries: Seq<(Seq<char>, Seq<char>)>, name: Seq<char>) -> Seq<char> {
    match first_status(entries, name) {
        None => "missing"@,
        Some(s) => if is_active(s) {
            "active"@
        } else {
            "degraded"@
        },
    }
}

pub fn sync_status(parsed_syncs: &[MutagenSyncStatus], sync_name: &str) -> (r: String)
    ensures
        r@ == sync_condition(status_views(parsed_syncs@), sync_name@),
{
    let ghost es = status_views(parsed_syncs@);
    let mut i: usize = 0;
    assert(es.subrange(0, es.len() as int) =~= es);
    while i < parsed_syncs.len()
        invariant
            i <= parsed_syncs.len(),
            es == status_views(parsed_syncs@),
            first_status(es, sync_name@) == first_status(es.subrange(i as int, es.len() as int), sync_name@),
        decreases parsed_syncs.len() - i,
    {
        let ghost rest = es.subrange(i as int, es.len() as int);
        assert(rest.drop_first() =~= es.subrange(i + 1, es.len() as int));
        assert(rest[0] == (parsed_syncs@[i as int].name@, parsed_syncs@[i as int].status@));
        if str_eq(parsed_syncs[i].name.as_str(), sync_name) {
            if status_is_active(parsed_syncs[i].status.as_str()) {
                return owned("active");
            }
            return owned("degraded");
        }
        i = i + 1;
    }
    owned("missing")
}

/// The sync states of the configured pairs, each with its condition.
pub open spec fn sync_states_of(pairs: Seq<SyncPairView>, entries: Seq<(Seq<char>, Seq<char>)>) -> Seq<SyncStateView> {
    Seq::new(
        pairs.len(),
        |i: int|
            SyncStateView {
                name: pairs[i].name,
                local: pairs[i].local,
                remote: pairs[i].remote,
                mode: pairs[i].mode,
                status: sync_condition(entries, pairs[i].name),
            },
    )
}

pub open spec fn all_active(syncs: Seq<SyncStateView>) -> bool {
    forall|i: int| 0 <= i < syncs.len() ==> #[trigger] syncs[i].status == "active"@
}

/// The client configuration that the client daemon needs.
pub fn required_client(config: &Config) -> (r: Result<&ClientConfig, Error>)
    ensures
        match r {
            Ok(c) => config.client == Some(*c),
            Err(e) => config.client is None && e.message@ == "client daemon requires client config"@,
        },
{
    match &config.client {
        Some(c) => Ok(c),
        None => Err(Error::msg("client daemon requires client config")),
    }
}

/// `r` is the state the client daemon records after asking Tailscale and
/// listing Mutagen's syncs at `now`: healthy exactly when Tailscale runs
/// and every configured sync is active.
pub open spec fn is_client_daemon_state(r: State, role: Role, client: ClientConfig, tailscale: Status, mutagen_output: Seq<char>, now: i64) -> bool {
    &&& r.role == role
    &&& r.tailscale_ok == (tailscale.backend_state@ == "Running"@)
    &&& r.server_reachable == r.tailscale_ok
    &&& sync_state_views(r.syncs@) == sync_states_of(pair_views(client.sync_pairs@), sync_statuses(mutagen_output))
    &&& r.healthy == (r.tailscale_ok && all_active(sync_state_views(r.syncs@)))
    &&& r.summary@ == if r.healthy { "client daemon healthy"@ } else { "client daemon degraded"@ }
    &&& opt_view(r.tailscale_dns) == opt_view(tailscale.dns_name)
    &&& r.daemon_healthy
    &&& r.daemon_heartbeat_unix == now
    &&& !r.default_session_present
    &&& r.known_sessions@.len() == 0
}

/// Law: the client's recorded state is healthy exactly when Tailscale runs
/// and every recorded sync is `active`; a sync recorded `degraded` or
/// `missing` makes it unhealthy; and a configured sync that Mutagen does
/// not list at all is recorded `missing`.
pub proof fn lemma_client_health_needs_every_sync_active(
    r: State,
    role: Role,
    client: ClientConfig,
    tailscale: Status,
    mutagen_output: Seq<char>,
    now: i64,
)
    requires
        is_client_daemon_state(r, role, client, tailscale, mutagen_output, now),
    ensures
        r.healthy ==> tailscale.backend_state@ == "Running"@ && forall|i: int| 0 <= i < r.syncs@.len() ==> #[trigger] r.syncs@[i].status@ == "active"@,
        tailscale.backend_state@ == "Running"@ && (forall|i: int| 0 <= i < r.syncs@.len() ==> #[trigger] r.syncs@[i].status@ == "active"@) ==> r.healthy,
        forall|i: int| 0 <= i < r.syncs@.len() && (#[trigger] r.syncs@[i].status@ == "degraded"@ || r.syncs@[i].status@ == "missing"@) ==> !r.healthy,
        r.syncs@.len() == client.sync_pairs@.len(),
        forall|i: int| 0 <= i < r.syncs@.len() && (forall|k: int| 0 <= k < sync_statuses(mutagen_output).len() ==> sync_statuses(mutagen_output)[k].0 != client.sync_pairs@[i].name@)
            ==> #[trigger] r.syncs@[i].status@ == "missing"@,
{
    reveal_strlit("active");
    reveal_strlit("degraded");
    reveal_strlit("missing");
    let v = sync_state_views(r.syncs@);
    let want = sync_states_of(pair_views(client.sync_pairs@), sync_statuses(mutagen_output));
    assert(v.len() == r.syncs@.len());
    assert(r.syncs@.len() == client.sync_pairs@.len());
    assert forall|i: int| 0 <= i < r.syncs@.len() implies #[trigger] v[i].status == r.syncs@[i].status@ by {}
    if r.healthy {
        assert forall|i: int| 0 <= i < r.syncs@.len() implies #[trigger] r.syncs@[i].status@ == "active"@ by {
            assert(v[i].status == "active"@);
        }
    }
    assert forall|i: int| 0 <= i < r.syncs@.len() && (#[trigger] r.syncs@[i].status@ == "degraded"@ || r.syncs@[i].status@ == "missing"@) implies !r.healthy by {
        if r.healthy {
            assert(v[i].status == "active"@);
            assert("active"@[0] != "degraded"@[0]);
            assert("active"@[0] != "missing"@[0]);
        }
    }
    if tailscale.backend_state@ == "Running"@ && (forall|i: int| 0 <= i < r.syncs@.len() ==> #[trigger] r.syncs@[i].status@ == "active"@) {
        assert forall|i: int| 0 <= i < v.len() implies #[trigger] v[i].status == "active"@ by {
            assert(r.syncs@[i].status@ == "active"@);
        }
    }
    assert forall|i: int| 0 <= i < r.syncs@.len() && (forall|k: int| 0 <= k < sync_statuses(mutagen_output).len() ==> sync_statuses(mutagen_output)[k].0 != client.sync_pairs@[i].name@)
        implies #[trigger] r.syncs@[i].status@ == "missing"@ by {
        let name = client.sync_pairs@[i].name@;
        assert(pair_views(client.sync_pairs@)[i].name == name);
        lemma_first_status_absent(sync_statuses(mutagen_output), name);
        assert(v[i] == want[i]);
    }
}

/// No entry carries `name`, so none is found for it.
proof fn lemma_first_status_absent(entries: Seq<(Seq<char>, Seq<char>)>, name: Seq<char>)
    requires
        forall|k: int| 0 <= k < entries.len() ==> entries[k].0 != name,
    ensures
        first_status(entries, name) is None,
    decreases entries.len(),
{
    if entries.len() > 0 {
        assert(entries[0].0 != name);
        assert forall|k: int| 0 <= k < entries.drop_first().len() implies entries.drop_first()[k].0 != name by {
            assert(entries.drop_first()[k] == entries[k + 1]);
        }
        lemma_first_status_absent(entries.drop_first(), name);
    }
}

pub fn client_daemon_state(role: Role, client: &ClientConfig, tailscale: &Status, mutagen_output: &str, now: i64) -> (r: State)
    ensures
        is_client_daemon_state(r, role, *client, *tailscale, mutagen_output@, now),
{
    let tailscale_ok = str_eq(tailscale.backend_state.as_str(), "Running");
    let parsed = parse_sync_statuses(mutagen_output);
    let ghost entries = status_views(parsed@);
    let ghost pairs = pair_views(client.sync_pairs@);
    let ghost want = sync_states_of(pairs, entries);
    let mut syncs: Vec<SyncPairState> = Vec::new();
    let mut all_ok = true;
    let mut i: usize = 0;
    while i < client.sync_pairs.len()
        invariant
            i <= client.sync_pairs.len(),
            entries == status_views(parsed@),
            pairs == pair_views(client.sync_pairs@),
            want == sync_states_of(pairs, entries),
            sync_state_views(syncs@) == want.take(i as int),
            all_ok == all_active(want.take(i as int)),
        decreases client.sync_pairs.len() - i,
    {
        let pair = &client.sync_pairs[i];
        assert(pairs[i as int] == pair@);
        let status = sync_status(parsed.as_slice(), pair.name.as_str());
        let active = str_eq(status.as_str(), "active");
        let ghost before = sync_state_views(syncs@);
        syncs.push(
            SyncPairState {
                name: pair.name.clone(),
                local: pair.local.clone(),
                remote: pair.remote.clone(),
                mode: pair.mode.clone(),
                status,
            },
        );
        assert(sync_state_views(syncs@) =~= want.take(i + 1));
        all_ok = all_ok && active;
        assert(all_ok == all_active(want.take(i + 1))) by {
            if all_ok {
                assert forall|k: int| 0 <= k < want.take(i + 1).len() implies #[trigger] want.take(i + 1)[k].status == "active"@ by {
                    if k < i {
                        assert(want.take(i as int)[k] == want.take(i + 1)[k]);
                    }
                }
            } else if !active {
                assert(want.take(i + 1)[i as int].status != "active"@);
            } else {
                let k = choose|k: int| 0 <= k < want.take(i as int).len() && #[trigger] want.take(i as int)[k].status != "active"@;
                assert(want.take(i + 1)[k] == want.take(i as int)[k]);
            }
        }
        i = i + 1;
    }
    assert(want.take(client.sync_pairs.len() as int) =~= want);
    let healthy = tailscale_ok && all_ok;
    State {
        role,
        tailscale_ok,
        server_reachable: tailscale_ok,
        healthy,
        summary: if healthy { owned("client daemon healthy") } else { owned("client daemon degraded") },
        tailscale_dns: tailscale.dns_name.clone(),
        daemon_healthy: true,
        daemon_heartbeat_unix: now,
        default_session_present: false,
        known_sessions: Vec::new(),
        syncs,
    }
}

/// The state a failing client daemon records at `now`: nothing healthy, the
/// error in the summary, and the DNS name and sync list of the state it
/// replaces, if any.
pub fn failure_state(existing: Option<State>, error: &Error, now: i64) -> (r: State)
    ensures
        r.role == Role::Client,
        !r.tailscale_ok && !r.server_reachable && !r.healthy && !r.daemon_healthy,
        r.summary@ == "client daemon degraded: "@ + error.message@,
        opt_view(r.tailscale_dns) == match existing {
            Some(s) => opt_view(s.tailscale_dns),
            None => None,
        },
        r.daemon_heartbeat_unix == now,
        !r.default_session_present,
        r.known_sessions@.len() == 0,
        sync_state_views(r.syncs@) == match existing {
            Some(s) => sync_state_views(s.syncs@),
            None => Seq::empty(),
        },
{
    let mut summary = owned("client daemon degraded: ");
    summary.append(error.message.as_str());
    let (tailscale_dns, syncs) = match existing {
        Some(s) => (s.tailscale_dns, s.syncs),
        None => (None, Vec::new()),
    };
    let r = State {
        role: Role::Client,
        tailscale_ok: false,
        server_reachable: false,
        healthy: false,
        summary,
        tailscale_dns,
        daemon_healthy: false,
        daemon_heartbeat_unix: now,
        default_session_present: false,
        known_sessions: Vec::new(),
        syncs,
    };
    assert(sync_state_views(r.syncs@) =~= match existing {
        Some(s) => sync_state_views(s.syncs@),
        None => Seq::empty(),
    });
    r
}

} // verus!
