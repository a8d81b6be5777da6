//! The tracked pull-request record and the plain values the remote
//! service's answer is reduced to before the engine reads it.

use vstd::prelude::*;
use crate::errors::EngineError;

verus! {

/// A record is either still monitored or done.
#[derive(Clone, Copy, Debug, PartialEq, Eq, Structural)]
pub enum Lifecycle {
    Open,
    Closed,
}

/// The state field of the remote service's pull-request answer, reduced
/// to a plain value.  `Other` stands for any state the service may add.
#[derive(Clone, Copy, Debug, PartialEq, Eq, Structural)]
pub enum RemoteIssueState {
    Open,
    Closed,
    Other,
}

/// One monitored pull request.  (owner, repo, pr_number) is the natural
/// key; `closed_at` is a formatted timestamp, empty while the record is
/// open.
#[derive(Debug)]
pub struct TrackedPullRequest {
    pub owner: String,
    pub repo: String,
    pub pr_number: u64,
    pub title: String,
    pub state: Lifecycle,
    pub closed_at: String,
    pub url: String,
}

impl TrackedPullRequest {
    /// Well-formedness: owner and repository are non-empty and the
    /// number is positive.
    pub open spec fn wf(self) -> bool {
        &&& self.owner@.len() > 0
        &&& self.repo@.len() > 0
        &&& self.pr_number >= 1
    }

    /// Two records cover the same pull request when owner, repository
    /// and number all agree.
    pub open spec fn same_key(self, other: Self) -> bool {
        &&& self.owner@ == other.owner@
        &&& self.repo@ == other.repo@
        &&& self.pr_number == other.pr_number
    }

    /// Whether this record and `other` cover the same pull request.
    pub fn same_pr(&self, other: &Self) -> (r: bool)
        ensures
            r == self.same_key(*other),
    {
        self.owner == other.owner && self.repo == other.repo && self.pr_number == other.pr_number
    }

    /// A field-for-field copy, equal to this record.
    pub fn duplicate(&self) -> (r: Self)
        ensures
            r == *self,
    {
        TrackedPullRequest {
            owner: self.owner.clone(),
            repo: self.repo.clone(),
            pr_number: self.pr_number,
            title: self.title.clone(),
            state: self.state,
            closed_at: self.closed_at.clone(),
            url: self.url.clone(),
        }
    }
}

/// How a remote state value becomes a lifecycle: only a state the
/// service reports as open keeps the record in the open scan; anything
/// else (closed, absent, unrecognized) is terminal.
pub open spec fn spec_lifecycle_from_remote(state: Option<RemoteIssueState>) -> Lifecycle {
    match state {
        Option::Some(RemoteIssueState::Open) => Lifecycle::Open,
        _ => Lifecycle::Closed,
    }
}

/// Maps the remote state field to the record's lifecycle.
pub fn lifecycle_from_remote(state: Option<RemoteIssueState>) -> (r: Lifecycle)
    ensures
        r == spec_lifecycle_from_remote(state),
{
    match state {
        Option::Some(RemoteIssueState::Open) => Lifecycle::Open,
        _ => Lifecycle::Closed,
    }
}

/// What `build_record` returns on success: missing title or timestamp
/// become empty strings, the lifecycle follows the remote state.
pub open spec fn spec_built_record(
    owner: Seq<char>,
    repo: Seq<char>,
    pr_number: u64,
    title: Option<Seq<char>>,
    state: Option<RemoteIssueState>,
    closed_at: Option<Seq<char>>,
    url: Seq<char>,
    r: TrackedPullRequest,
) -> bool {
    &&& r.owner@ == owner
    &&& r.repo@ == repo
    &&& r.pr_number == pr_number
    &&& r.title@ == match title {
        Option::Some(t) => t,
        Option::None => Seq::<char>::empty(),
    }
    &&& r.state == spec_lifecycle_from_remote(state)
    &&& r.closed_at@ == match closed_at {
        Option::Some(c) => c,
        Option::None => Seq::<char>::empty(),
    }
    &&& r.url@ == url
}

/// Assembles a record from the plain values of one remote status answer.
/// The answer is usable only when the service delivered a mergeability
/// signal (`has_signal`); otherwise the fetch counts as failed.
pub fn build_record(
    owner: String,
    repo: String,
    pr_number: u64,
    title: Option<String>,
    state: Option<RemoteIssueState>,
    closed_at: Option<String>,
    url: String,
    has_signal: bool,
) -> (r: Result<TrackedPullRequest, EngineError>)
    ensures
        r is Ok <==> has_signal,
        r matches Ok(rec) ==> spec_built_record(
            owner@,
            repo@,
            pr_number,
            match title {
                Option::Some(t) => Option::Some(t@),
                Option::None => Option::None,
            },
            state,
            match closed_at {
                Option::Some(c) => Option::Some(c@),
                Option::None => Option::None,
            },
            url@,
            rec,
        ),
        r matches Err(e) ==> e == EngineError::RemoteFetchFailed,
{
    if !has_signal {
        return Err(EngineError::RemoteFetchFailed);
    }
    let title_text = match title {
        Option::Some(t) => t,
        Option::None => String::new(),
    };
    let closed_text = match closed_at {
        Option::Some(c) => c,
        Option::None => String::new(),
    };
    Ok(
        TrackedPullRequest {
            owner,
            repo,
            pr_number,
            title: title_text,
            state: lifecycle_from_remote(state),
            closed_at: closed_text,
            url,
        },
    )
}

} // verus!
