use pr_monitor::record::{
    build_record, lifecycle_from_remote, Lifecycle, RemoteIssueState, TrackedPullRequest,
};

#[test]
fn lifecycle_mapping() {
    assert_eq!(lifecycle_from_remote(Some(RemoteIssueState::Open)), Lifecycle::Open);
    assert_eq!(lifecycle_from_remote(Some(RemoteIssueState::Closed)), Lifecycle::Closed);
    assert_eq!(lifecycle_from_remote(Some(RemoteIssueState::Other)), Lifecycle::Closed);
    assert_eq!(lifecycle_from_remote(None), Lifecycle::Closed);
}

#[test]
fn built_record_fills_missing_fields_with_empty_strings() {
    let r = build_record(
        "acme".to_string(),
        "widgets".to_string(),
        5,
        None,
        Some(RemoteIssueState::Open),
        None,
        "https://api.github.com/repos/acme/widgets/pulls/5".to_string(),
        true,
    )
    .unwrap();
    assert_eq!(r.owner, "acme");
    assert_eq!(r.repo, "widgets");
    assert_eq!(r.pr_number, 5);
    assert_eq!(r.title, "");
    assert_eq!(r.state, Lifecycle::Open);
    assert_eq!(r.closed_at, "");
}

#[test]
fn built_record_keeps_title_and_timestamp() {
    let r = build_record(
        "acme".to_string(),
        "widgets".to_string(),
        5,
        Some("A title".to_string()),
        Some(RemoteIssueState::Closed),
        Some("01/02/2024 10:30".to_string()),
        String::new(),
        true,
    )
    .unwrap();
    assert_eq!(r.title, "A title");
    assert_eq!(r.state, Lifecycle::Closed);
    assert_eq!(r.closed_at, "01/02/2024 10:30");
}

#[test]
fn key_comparison_uses_the_full_triple() {
    let a = TrackedPullRequest {
        owner: "acme".to_string(),
        repo: "widgets".to_string(),
        pr_number: 1,
        title: String::new(),
        state: Lifecycle::Open,
        closed_at: String::new(),
        url: String::new(),
    };
    let mut b = a.duplicate();
    assert!(a.same_pr(&b));
    b.pr_number = 2;
    assert!(!a.same_pr(&b));
    let mut c = a.duplicate();
    c.repo = "gadgets".to_string();
    assert!(!a.same_pr(&c));
    let mut d = a.duplicate();
    d.owner = "emca".to_string();
    assert!(!a.same_pr(&d));
}

#[test]
fn duplicate_copies_every_field() {
    let a = TrackedPullRequest {
        owner: "acme".to_string(),
        repo: "widgets".to_string(),
        pr_number: 1,
        title: "t".to_string(),
        state: Lifecycle::Closed,
        closed_at: "01/01/2024 00:00".to_string(),
        url: "u".to_string(),
    };
    let b = a.duplicate();
    assert_eq!(a.owner, b.owner);
    assert_eq!(a.repo, b.repo);
    assert_eq!(a.pr_number, b.pr_number);
    assert_eq!(a.title, b.title);
    assert_eq!(a.state, b.state);
    assert_eq!(a.closed_at, b.closed_at);
    assert_eq!(a.url, b.url);
}
