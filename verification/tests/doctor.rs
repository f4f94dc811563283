use eternalmac::commands::doctor::{
    doctor_findings, CLIENT_ROLE_MISMATCH, CLIENT_STATE_MISSING, CLIENT_STATE_STALE, CONFIG_MISSING,
    SERVER_STATE_MISSING, SERVER_STATE_STALE,
};
use eternalmac::model::config::Role;
use eternalmac::model::state::{State, SyncPairState};

const NOW: i64 = 1_714_000_000;

fn state(role: Role, heartbeat: i64, syncs: Vec<SyncPairState>) -> State {
    State {
        role,
        tailscale_ok: true,
        server_reachable: true,
        healthy: true,
        summary: "healthy".into(),
        tailscale_dns: None,
        daemon_healthy: true,
        daemon_heartbeat_unix: heartbeat,
        default_session_present: true,
        known_sessions: vec![],
        syncs,
    }
}

fn sync(name: &str, status: &str) -> SyncPairState {
    SyncPairState {
        name: name.into(),
        local: format!("/Users/me/{name}"),
        remote: format!("mac-mini:~/{name}"),
        mode: "two-way-resolved".into(),
        status: status.into(),
    }
}

#[test]
fn doctor_reports_missing_config_on_unconfigured_machine() {
    let findings = doctor_findings(None, None, NOW);
    assert!(findings
        .iter()
        .any(|f| f.contains("config missing: run `eternalMac setup server` or `eternalMac setup client`")));
    assert_eq!(findings, vec![CONFIG_MISSING]);
}

#[test]
fn doctor_reports_missing_state_when_config_exists() {
    let findings = doctor_findings(Some(Role::Server), None, NOW);
    assert!(findings
        .iter()
        .any(|f| f.contains("state missing: re-run `eternalMac setup server` to restore local state")));
    assert_eq!(findings, vec![SERVER_STATE_MISSING]);
    assert_eq!(doctor_findings(Some(Role::Client), None, NOW), vec![CLIENT_STATE_MISSING]);
}

#[test]
fn doctor_finds_nothing_on_a_healthy_machine() {
    assert!(doctor_findings(Some(Role::Server), Some(&state(Role::Server, NOW - 30, vec![])), NOW).is_empty());
    let syncs = vec![sync("project", "active"), sync("docs", "created")];
    assert!(doctor_findings(Some(Role::Client), Some(&state(Role::Client, NOW - 90, syncs)), NOW).is_empty());
}

#[test]
fn doctor_reports_stale_daemon_state() {
    let old = state(Role::Server, NOW - 91, vec![]);
    assert_eq!(doctor_findings(Some(Role::Server), Some(&old), NOW), vec![SERVER_STATE_STALE]);
    let mut pending = state(Role::Client, 0, vec![]);
    pending.daemon_healthy = false;
    assert_eq!(doctor_findings(Some(Role::Client), Some(&pending), NOW), vec![CLIENT_STATE_STALE]);
    let mut unhealthy = state(Role::Server, NOW, vec![]);
    unhealthy.daemon_healthy = false;
    assert_eq!(doctor_findings(Some(Role::Server), Some(&unhealthy), NOW), vec![SERVER_STATE_STALE]);
}

#[test]
fn doctor_reports_role_mismatch_then_degraded_syncs_in_order() {
    let recorded = state(
        Role::Server,
        NOW,
        vec![sync("project", "degraded"), sync("docs", "active"), sync("music", "missing")],
    );
    assert_eq!(
        doctor_findings(Some(Role::Client), Some(&recorded), NOW),
        vec![
            CLIENT_ROLE_MISMATCH.to_string(),
            "sync degraded: project is degraded; run `eternalMac sync status`".to_string(),
            "sync degraded: music is missing; run `eternalMac sync status`".to_string(),
        ]
    );
}

#[test]
fn doctor_tolerates_extreme_clock_values() {
    let far = state(Role::Server, i64::MIN, vec![]);
    assert_eq!(doctor_findings(Some(Role::Server), Some(&far), i64::MAX), vec![SERVER_STATE_STALE]);
    let future = state(Role::Server, i64::MAX, vec![]);
    assert!(doctor_findings(Some(Role::Server), Some(&future), i64::MIN).is_empty());
}
