//! Status classification: mapping one remote status response to one of
//! six semantic outcomes.

use vstd::prelude::*;

verus! {

/// The remote service's merge-readiness assessment for one pull request.
/// `Other` stands for any value the remote service may add in the future;
/// the classifier treats it like `Unknown`.
#[derive(Clone, Copy, Debug, PartialEq, Eq, Structural)]
pub enum MergeSignal {
    Clean,
    Dirty,
    Unknown,
    Blocked,
    Unstable,
    Behind,
    Other,
}

/// What the remote service reported for one pull request: whether it has
/// merged, and its mergeability signal (absent when the service has not
/// computed one).
#[derive(Clone, Copy, Debug, PartialEq, Eq)]
pub struct RemoteStatus {
    pub merged: bool,
    pub signal: Option<MergeSignal>,
}

/// The six outcomes a scan cycle can decide for one record.
#[derive(Clone, Copy, Debug, PartialEq, Eq, Structural)]
pub enum PrOutcome {
    Merged,
    Behind,
    UpToDate,
    Conflicts,
    Blocked,
    Unknown,
}

/// The classification table.  The merged flag wins over everything; an
/// absent or unrecognized signal falls back to `Unknown`, never an error.
pub open spec fn spec_classify(status: RemoteStatus) -> PrOutcome {
    if status.merged {
        PrOutcome::Merged
    } else {
        match status.signal {
            Option::None => PrOutcome::Unknown,
            Option::Some(signal) => match signal {
                MergeSignal::Behind => PrOutcome::Behind,
                MergeSignal::Clean => PrOutcome::UpToDate,
                MergeSignal::Dirty => PrOutcome::Conflicts,
                MergeSignal::Blocked => PrOutcome::Blocked,
                MergeSignal::Unknown => PrOutcome::Unknown,
                MergeSignal::Unstable => PrOutcome::Unknown,
                MergeSignal::Other => PrOutcome::Unknown,
            },
        }
    }
}

/// Maps a remote status to its outcome.  Pure, total, no side effects.
pub fn classify(status: &RemoteStatus) -> (outcome: PrOutcome)
    ensures
        outcome == spec_classify(*status),
{
    if status.merged {
        PrOutcome::Merged
    } else {
        match status.signal {
            Option::None => PrOutcome::Unknown,
            Option::Some(signal) => match signal {
                MergeSignal::Behind => PrOutcome::Behind,
                MergeSignal::Clean => PrOutcome::UpToDate,
                MergeSignal::Dirty => PrOutcome::Conflicts,
                MergeSignal::Blocked => PrOutcome::Blocked,
                MergeSignal::Unknown => PrOutcome::Unknown,
                MergeSignal::Unstable => PrOutcome::Unknown,
                MergeSignal::Other => PrOutcome::Unknown,
            },
        }
    }
}

/// Law: a status with the merged flag set classifies as `Merged`,
/// whatever the mergeability signal holds.
pub proof fn lemma_classify_merged_wins(status: RemoteStatus)
    requires
        status.merged,
    ensures
        spec_classify(status) == PrOutcome::Merged,
{
}

/// Law: without the merged flag the classifier is total, and each
/// enumerated signal maps to exactly the outcome of the table; an absent
/// signal maps to `Unknown`, and no unmerged status maps to `Merged`.
pub proof fn lemma_classify_total(status: RemoteStatus)
    requires
        !status.merged,
    ensures
        status.signal is None ==> spec_classify(status) == PrOutcome::Unknown,
        status.signal == Some(MergeSignal::Behind) ==> spec_classify(status) == PrOutcome::Behind,
        status.signal == Some(MergeSignal::Clean) ==> spec_classify(status) == PrOutcome::UpToDate,
        status.signal == Some(MergeSignal::Dirty) ==> spec_classify(status) == PrOutcome::Conflicts,
        status.signal == Some(MergeSignal::Blocked) ==> spec_classify(status) == PrOutcome::Blocked,
        status.signal == Some(MergeSignal::Unknown) ==> spec_classify(status) == PrOutcome::Unknown,
        status.signal == Some(MergeSignal::Unstable) ==> spec_classify(status)
            == PrOutcome::Unknown,
        status.signal == Some(MergeSignal::Other) ==> spec_classify(status) == PrOutcome::Unknown,
        spec_classify(status) != PrOutcome::Merged,
{
}

} // verus!
