//! End-to-end passes over one tracked pull request: add it, then drive
//! scan cycles with the remote status the service would have reported,
//! performing the engine's decided effects like the driver would.

use pr_monitor::engine::Engine;
use pr_monitor::errors::EngineError;
use pr_monitor::outcome::{MergeSignal, RemoteStatus};
use pr_monitor::record::{build_record, Lifecycle, RemoteIssueState, TrackedPullRequest};
use pr_monitor::scheduler::StartOutcome;
use pr_monitor::dispatch::{update_failure_notice, NoticeKind};

/// Adds https://github.com/acme/widgets/pull/42 the way the shell does:
/// parse and credential check, remote fetch (simulated), insert.
fn engine_with_pr_42() -> Engine {
    let mut e = Engine::new();
    e.add_token("test-token".to_string());
    let parsed = e
        .prepare_add("https://github.com/acme/widgets/pull/42")
        .unwrap();
    assert_eq!(parsed.owner, "acme");
    assert_eq!(parsed.repo, "widgets");
    assert_eq!(parsed.number, 42);
    // The remote service confirms the pull request exists and is open.
    let rec = build_record(
        parsed.owner,
        parsed.repo,
        parsed.number,
        Some("Add widget polish".to_string()),
        Some(RemoteIssueState::Open),
        None,
        "https://api.github.com/repos/acme/widgets/pulls/42".to_string(),
        true,
    )
    .unwrap();
    e.add_item(rec).unwrap();
    e
}

#[test]
fn add_needs_a_credential() {
    let e = Engine::new();
    assert_eq!(
        e.prepare_add("https://github.com/acme/widgets/pull/42"),
        Err(EngineError::NoCredential)
    );
}

#[test]
fn add_rejects_a_zero_pull_number() {
    let mut e = Engine::new();
    e.add_token("test-token".to_string());
    assert_eq!(
        e.prepare_add("https://github.com/acme/widgets/pull/0"),
        Err(EngineError::InvalidUrl)
    );
}

#[test]
fn add_rejects_a_malformed_url() {
    let mut e = Engine::new();
    e.add_token("test-token".to_string());
    assert_eq!(
        e.prepare_add("https://github.com/acme/widgets"),
        Err(EngineError::InvalidUrl)
    );
}

#[test]
fn failed_fetch_is_not_inserted() {
    let r = build_record(
        "acme".to_string(),
        "widgets".to_string(),
        42,
        None,
        Some(RemoteIssueState::Open),
        None,
        String::new(),
        false,
    );
    assert_eq!(r.unwrap_err(), EngineError::RemoteFetchFailed);
}

#[test]
fn clean_cycle_takes_no_action() {
    let mut e = engine_with_pr_42();
    let stored = e.get_all_prs();
    assert_eq!(stored.len(), 1);
    assert_eq!(stored[0].state, Lifecycle::Open);

    assert_eq!(e.start_monitor(), StartOutcome::Spawned);
    let notify = e.get_show_notification();
    let open = e.open_prs();
    assert_eq!(open.len(), 1);
    let status = RemoteStatus { merged: false, signal: Some(MergeSignal::Clean) };
    let effects = e.process_record(&open[0], Some(status), notify);
    assert_eq!(effects.close_record, None);
    assert_eq!(effects.emit_closed, None);
    assert!(!effects.request_update);
    assert_eq!(effects.notice, None);
    assert_eq!(e.get_all_prs()[0].state, Lifecycle::Open);
}

#[test]
fn behind_cycle_requests_one_update_and_notifies_on_failure() {
    let mut e = engine_with_pr_42();
    let notify = e.get_show_notification();
    let status = RemoteStatus { merged: false, signal: Some(MergeSignal::Behind) };
    let target = e.open_prs().remove(0);
    let effects = e.process_record(&target, Some(status), notify);
    // Exactly one update request, no store mutation, no notice yet.
    assert!(effects.request_update);
    assert_eq!(effects.close_record, None);
    assert_eq!(effects.notice, None);

    // The driver's update call succeeds: no notification.
    // On simulated failure with notifications enabled: exactly one.
    let notice = update_failure_notice(42, true).unwrap();
    assert_eq!(notice.kind, NoticeKind::UpdateFailed);
    assert_eq!(notice.pr_number, 42);
    // With notifications disabled: none.
    assert_eq!(update_failure_notice(42, false), None);
}

#[test]
fn merged_cycle_closes_emits_once_and_stops_scanning() {
    let mut e = engine_with_pr_42();
    let notify = e.get_show_notification();
    let status = RemoteStatus { merged: true, signal: Some(MergeSignal::Unknown) };
    let target = e.open_prs().remove(0);
    let effects = e.process_record(&target, Some(status), notify);
    assert_eq!(effects.close_record, Some(42));
    assert_eq!(effects.emit_closed, Some(42));
    assert!(!effects.request_update);
    assert_eq!(effects.notice, None);

    // The list now shows the record closed ...
    let all = e.get_all_prs();
    assert_eq!(all.len(), 1);
    assert_eq!(all[0].state, Lifecycle::Closed);
    // ... and the next cycle's open scan excludes it: no further action.
    assert_eq!(e.open_prs().len(), 0);
}

#[test]
fn failed_fetch_counts_as_unknown_without_touching_the_record() {
    let mut e = engine_with_pr_42();
    let target = e.open_prs().remove(0);
    let effects = e.process_record(&target, None, true);
    assert_eq!(effects.notice.unwrap().kind, NoticeKind::UnknownStatus);
    assert_eq!(effects.close_record, None);
    assert!(!effects.request_update);
    assert_eq!(e.get_all_prs()[0].state, Lifecycle::Open);
}

#[test]
fn reconfigure_interval_restarts_with_one_loop() {
    let mut e = engine_with_pr_42();
    assert_eq!(e.start_monitor(), StartOutcome::Spawned);
    // setRefreshInterval(minutes): store the new cadence, stop, restart.
    e.set_refresh_time(10 * 60);
    e.stop_monitor();
    // The loop is still draining: no second loop may be spawned.
    assert_eq!(e.start_monitor(), StartOutcome::Draining);
    // The loop observes the stop at its checkpoint and exits.
    assert!(!e.loop_checkpoint());
    // The restart spawns exactly one loop with the new cadence.
    assert_eq!(e.start_monitor(), StartOutcome::Spawned);
    assert_eq!(e.get_refresh_time(), 600);
    assert_eq!(e.start_monitor(), StartOutcome::AlreadyRunning);
}

#[test]
fn merged_close_is_keyed_by_the_full_triple() {
    // Two different repositories track a pull request with the same
    // number; a merged observation for one must not close the other.
    let mut e = Engine::new();
    for repo in ["widgets", "gadgets"] {
        let rec = TrackedPullRequest {
            owner: "acme".to_string(),
            repo: repo.to_string(),
            pr_number: 7,
            title: String::new(),
            state: Lifecycle::Open,
            closed_at: String::new(),
            url: format!("https://github.com/acme/{}/pull/7", repo),
        };
        e.add_item(rec).unwrap();
    }
    let widgets = e.open_prs().remove(0);
    assert_eq!(widgets.repo, "widgets");
    let status = RemoteStatus { merged: true, signal: None };
    let effects = e.process_record(&widgets, Some(status), true);
    assert_eq!(effects.close_record, Some(7));
    assert_eq!(effects.emit_closed, Some(7));

    let all = e.get_all_prs();
    assert_eq!(all.len(), 2);
    for pr in &all {
        if pr.repo == "widgets" {
            assert_eq!(pr.state, Lifecycle::Closed);
        } else {
            assert_eq!(pr.state, Lifecycle::Open);
        }
    }
    // The next cycle still scans the untouched record.
    let open = e.open_prs();
    assert_eq!(open.len(), 1);
    assert_eq!(open[0].repo, "gadgets");
}
