use pr_monitor::engine::Engine;
use pr_monitor::errors::EngineError;
use pr_monitor::record::{Lifecycle, TrackedPullRequest};

fn record(owner: &str, repo: &str, number: u64) -> TrackedPullRequest {
    TrackedPullRequest {
        owner: owner.to_string(),
        repo: repo.to_string(),
        pr_number: number,
        title: format!("PR {}", number),
        state: Lifecycle::Open,
        closed_at: String::new(),
        url: format!("https://github.com/{}/{}/pull/{}", owner, repo, number),
    }
}

#[test]
fn duplicate_triple_rejected_other_number_accepted() {
    let mut e = Engine::new();
    assert!(e.add_item(record("acme", "widgets", 1)).is_ok());
    // Same (owner, repo, number) triple: rejected.
    assert_eq!(
        e.add_item(record("acme", "widgets", 1)),
        Err(EngineError::DuplicateRecord)
    );
    // Different number under the same owner and repo: accepted.
    assert!(e.add_item(record("acme", "widgets", 2)).is_ok());
    assert_eq!(e.get_all_prs().len(), 2);
}

#[test]
fn duplicate_error_message() {
    let mut e = Engine::new();
    assert!(e.add_item(record("acme", "widgets", 1)).is_ok());
    let err = e.add_item(record("acme", "widgets", 1)).unwrap_err();
    assert_eq!(err.message(), "Pull request already exists");
}

#[test]
fn delete_removes_all_records_of_a_number() {
    let mut e = Engine::new();
    assert!(e.add_item(record("acme", "widgets", 1)).is_ok());
    assert!(e.add_item(record("acme", "widgets", 2)).is_ok());
    assert!(e.delete_pr(1).is_ok());
    let left = e.get_all_prs();
    assert_eq!(left.len(), 1);
    assert_eq!(left[0].pr_number, 2);
    // Deleting an absent number is a no-op.
    assert!(e.delete_pr(99).is_ok());
    assert_eq!(e.get_all_prs().len(), 1);
}

#[test]
fn open_scan_excludes_closed_records() {
    let mut e = Engine::new();
    let mut closed = record("acme", "widgets", 3);
    closed.state = Lifecycle::Closed;
    assert!(e.add_item(record("acme", "widgets", 1)).is_ok());
    assert!(e.add_item(closed).is_ok());
    let open = e.open_prs();
    assert_eq!(open.len(), 1);
    assert_eq!(open[0].pr_number, 1);
    assert_eq!(e.get_all_prs().len(), 2);
}

#[test]
fn settings_defaults() {
    let e = Engine::new();
    assert_eq!(e.get_theme(), "system");
    assert_eq!(e.get_refresh_time(), 300);
    assert!(e.get_show_notification());
    assert_eq!(e.get_token(), None);
    assert!(!e.has_token());
}

#[test]
fn settings_round_trip() {
    let mut e = Engine::new();
    e.set_theme("dark".to_string());
    assert_eq!(e.get_theme(), "dark");
    e.set_refresh_time(600);
    assert_eq!(e.get_refresh_time(), 600);
    e.set_show_notification(false);
    assert!(!e.get_show_notification());
}

#[test]
fn token_is_fully_replaced() {
    let mut e = Engine::new();
    e.add_token("first-credential".to_string());
    assert!(e.has_token());
    e.add_token("second-credential".to_string());
    assert_eq!(e.get_token(), Some("second-credential".to_string()));
}

#[test]
fn error_messages_match_the_shell_strings() {
    assert_eq!(EngineError::InvalidUrl.message(), "Failed to parse PR");
    assert_eq!(
        EngineError::NoCredential.message(),
        "There is no token, can't check pr details"
    );
    assert_eq!(EngineError::RemoteFetchFailed.message(), "Can't load pr details");
    assert_eq!(EngineError::RemoteUpdateFailed.message(), "Can't update pr branch");
    assert_eq!(EngineError::StoreIOFailure.message(), "Storage operation failed");
}
