//! The action dispatcher: given a classification for one record, decide
//! the store mutation, remote call and notification the cycle owes.

use vstd::prelude::*;
use crate::outcome::{spec_classify, PrOutcome, RemoteStatus};

verus! {

/// What a notification is about; the shell renders the text.
#[derive(Clone, Copy, Debug, PartialEq, Eq, Structural)]
pub enum NoticeKind {
    /// "Failed to update PR", with the failure reason.
    UpdateFailed,
    /// The pull request has conflicts, please check.
    Conflicts,
    /// The pull request is blocked, please check.
    Blocked,
    /// The pull request has an unknown status, please check.
    UnknownStatus,
}

/// One notification to show, tied to its pull request.
#[derive(Clone, Copy, Debug, PartialEq, Eq, Structural)]
pub struct Notice {
    pub kind: NoticeKind,
    pub pr_number: u64,
}

/// Everything one record's dispatch asks of the surroundings.  Each
/// field is one effect; `None`/`false` means none.
#[derive(Clone, Copy, Debug, PartialEq, Eq, Structural)]
pub struct Effects {
    /// Mark this pull-request number closed in the store.
    pub close_record: Option<u64>,
    /// Emit the in-process "pr closed" event with this number (never
    /// gated by settings).
    pub emit_closed: Option<u64>,
    /// Request a branch update from the remote service.
    pub request_update: bool,
    /// Show this notification (already gated by the settings flag).
    pub notice: Option<Notice>,
}

/// The effect table, one row per outcome.
pub open spec fn spec_dispatch(outcome: PrOutcome, pr_number: u64, notify: bool) -> Effects {
    match outcome {
        PrOutcome::Merged => Effects {
            close_record: Some(pr_number),
            emit_closed: Some(pr_number),
            request_update: false,
            notice: None,
        },
        PrOutcome::UpToDate => Effects {
            close_record: None,
            emit_closed: None,
            request_update: false,
            notice: None,
        },
        PrOutcome::Behind => Effects {
            close_record: None,
            emit_closed: None,
            request_update: true,
            notice: None,
        },
        PrOutcome::Conflicts => Effects {
            close_record: None,
            emit_closed: None,
            request_update: false,
            notice: if notify {
                Some(Notice { kind: NoticeKind::Conflicts, pr_number })
            } else {
                None
            },
        },
        PrOutcome::Blocked => Effects {
            close_record: None,
            emit_closed: None,
            request_update: false,
            notice: if notify {
                Some(Notice { kind: NoticeKind::Blocked, pr_number })
            } else {
                None
            },
        },
        PrOutcome::Unknown => Effects {
            close_record: None,
            emit_closed: None,
            request_update: false,
            notice: if notify {
                Some(Notice { kind: NoticeKind::UnknownStatus, pr_number })
            } else {
                None
            },
        },
    }
}

/// Decides the effects for one record.  `notify` is the notifications
/// setting as read at the start of the cycle.
pub fn dispatch(outcome: PrOutcome, pr_number: u64, notify: bool) -> (e: Effects)
    ensures
        e == spec_dispatch(outcome, pr_number, notify),
{
    match outcome {
        PrOutcome::Merged => Effects {
            close_record: Some(pr_number),
            emit_closed: Some(pr_number),
            request_update: false,
            notice: None,
        },
        PrOutcome::UpToDate => Effects {
            close_record: None,
            emit_closed: None,
            request_update: false,
            notice: None,
        },
        PrOutcome::Behind => Effects {
            close_record: None,
            emit_closed: None,
            request_update: true,
            notice: None,
        },
        PrOutcome::Conflicts => Effects {
            close_record: None,
            emit_closed: None,
            request_update: false,
            notice: if notify {
                Some(Notice { kind: NoticeKind::Conflicts, pr_number })
            } else {
                None
            },
        },
        PrOutcome::Blocked => Effects {
            close_record: None,
            emit_closed: None,
            request_update: false,
            notice: if notify {
                Some(Notice { kind: NoticeKind::Blocked, pr_number })
            } else {
                None
            },
        },
        PrOutcome::Unknown => Effects {
            close_record: None,
            emit_closed: None,
            request_update: false,
            notice: if notify {
                Some(Notice { kind: NoticeKind::UnknownStatus, pr_number })
            } else {
                None
            },
        },
    }
}

/// The one follow-up of a `Behind` action: when the requested branch
/// update failed, exactly one notification is owed — and only when
/// notifications are enabled.
pub open spec fn spec_update_failure_notice(pr_number: u64, notify: bool) -> Option<Notice> {
    if notify {
        Some(Notice { kind: NoticeKind::UpdateFailed, pr_number })
    } else {
        None
    }
}

/// Decides the notification after a failed branch update.
pub fn update_failure_notice(pr_number: u64, notify: bool) -> (r: Option<Notice>)
    ensures
        r == spec_update_failure_notice(pr_number, notify),
{
    if notify {
        Some(Notice { kind: NoticeKind::UpdateFailed, pr_number })
    } else {
        None
    }
}

/// Law: a `Behind` outcome asks for exactly one remote update call and
/// nothing else; on failure of that call there is exactly one
/// notification when enabled and none when disabled.
pub proof fn lemma_behind_effects(pr_number: u64, notify: bool)
    ensures
        ({
            let e = spec_dispatch(PrOutcome::Behind, pr_number, notify);
            &&& e.request_update
            &&& e.close_record is None
            &&& e.emit_closed is None
            &&& e.notice is None
        }),
        spec_update_failure_notice(pr_number, true) == Some(
            Notice { kind: NoticeKind::UpdateFailed, pr_number },
        ),
        spec_update_failure_notice(pr_number, false) is None,
{
}

/// Law: only a merged status ever mutates the store or emits the closed
/// event, and it asks for no remote call and no notification.
pub proof fn lemma_only_merged_closes(status: RemoteStatus, pr_number: u64, notify: bool)
    ensures
        ({
            let e = spec_dispatch(spec_classify(status), pr_number, notify);
            &&& e.close_record is Some <==> status.merged
            &&& e.emit_closed is Some <==> status.merged
            &&& status.merged ==> e == (Effects {
                close_record: Some(pr_number),
                emit_closed: Some(pr_number),
                request_update: false,
                notice: None,
            })
        }),
{
}

} // verus!
