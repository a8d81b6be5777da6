use pr_monitor::url::parse_github_pr_url;

#[test]
fn plain_pr_url_parses() {
    let p = parse_github_pr_url("https://github.com/acme/widgets/pull/42").unwrap();
    assert_eq!(p.owner, "acme");
    assert_eq!(p.repo, "widgets");
    assert_eq!(p.number, 42);
}

#[test]
fn bare_host_url_parses() {
    let p = parse_github_pr_url("github.com/octocat/hello-world/pull/1347").unwrap();
    assert_eq!(p.owner, "octocat");
    assert_eq!(p.repo, "hello-world");
    assert_eq!(p.number, 1347);
}

#[test]
fn trailing_path_after_number_is_ignored() {
    let p = parse_github_pr_url("https://github.com/acme/widgets/pull/12/files").unwrap();
    assert_eq!(p.number, 12);
}

#[test]
fn leftmost_match_wins() {
    // The first host marker cannot complete a match; the second one can.
    let p = parse_github_pr_url("github.com/x/github.com/a/b/pull/7").unwrap();
    assert_eq!(p.owner, "a");
    assert_eq!(p.repo, "b");
    assert_eq!(p.number, 7);
}

#[test]
fn extra_path_segment_does_not_match() {
    assert!(parse_github_pr_url("github.com/a/b/c/pull/5").is_none());
}

#[test]
fn issue_urls_do_not_match() {
    assert!(parse_github_pr_url("https://github.com/acme/widgets/issues/42").is_none());
}

#[test]
fn missing_number_does_not_match() {
    assert!(parse_github_pr_url("https://github.com/acme/widgets/pull/").is_none());
}

#[test]
fn empty_owner_or_repo_does_not_match() {
    assert!(parse_github_pr_url("github.com//widgets/pull/4").is_none());
    assert!(parse_github_pr_url("github.com/acme//pull/4").is_none());
}

#[test]
fn other_hosts_do_not_match() {
    assert!(parse_github_pr_url("https://gitlab.com/acme/widgets/pull/42").is_none());
    assert!(parse_github_pr_url("").is_none());
}

#[test]
fn leading_zeros_are_part_of_the_number() {
    let p = parse_github_pr_url("github.com/a/b/pull/007").unwrap();
    assert_eq!(p.number, 7);
}

#[test]
fn number_too_large_for_u64_is_rejected() {
    assert!(parse_github_pr_url("github.com/a/b/pull/99999999999999999999").is_none());
    // The largest representable number still parses.
    let p = parse_github_pr_url("github.com/a/b/pull/18446744073709551615").unwrap();
    assert_eq!(p.number, u64::MAX);
}

#[test]
fn zero_matches_the_grammar_itself() {
    // The grammar accepts any digit run; the engine's add path is what
    // rejects a zero pull number as invalid.
    let p = parse_github_pr_url("github.com/a/b/pull/0").unwrap();
    assert_eq!(p.number, 0);
}
