//! The engine facade: the foreground operations the shell calls, and the
//! per-record step of the background scan cycle.
//!
//! The unverified driver owns the actual concurrency: it holds the engine
//! behind one exclusive lock, spawns the loop when `start_monitor`
//! answers `Spawned`, performs the remote calls and notifications that
//! `process_record` decides, and sleeps between cycles.  Every decision
//! and every store mutation happens here, under contract.

use vstd::prelude::*;
use crate::dispatch::{dispatch, spec_dispatch, Effects};
use crate::errors::EngineError;
use crate::outcome::{classify, spec_classify, PrOutcome, RemoteStatus};
use crate::record::TrackedPullRequest;
use crate::scheduler::{spec_start, spec_stop, Scheduler, StartOutcome};
use crate::settings::{
    spec_refresh_secs,
    spec_show_notification,
    spec_theme,
    Settings,
};
use crate::store::{close_key, open_only, without_number, RecordStore};
use crate::url::{first_match_pos, number_of, owner_of, parse_github_pr_url, repo_of, ParsedPr};

verus! {

/// How a fetch result enters dispatch: a failed fetch counts as
/// `Unknown` and never touches the record's persisted state.
pub open spec fn outcome_of(fetch: Option<RemoteStatus>) -> PrOutcome {
    match fetch {
        Option::None => PrOutcome::Unknown,
        Option::Some(status) => spec_classify(status),
    }
}

/// The monitoring engine: tracked records, settings, and the scheduler.
pub struct Engine {
    pub store: RecordStore,
    pub settings: Settings,
    pub sched: Scheduler,
}

impl Engine {
    /// The engine's invariant: a well-formed store and a single-flight
    /// scheduler.
    pub open spec fn wf(self) -> bool {
        &&& self.store.wf()
        &&& self.sched.wf()
    }

    /// A fresh engine: nothing tracked, no settings written, stopped.
    pub fn new() -> (e: Engine)
        ensures
            e.wf(),
            e.store@ == Seq::<TrackedPullRequest>::empty(),
            e.settings.theme is None,
            e.settings.refresh_secs is None,
            e.settings.show_notification is None,
            e.settings.token is None,
            e.sched == (Scheduler { running: false, live: 0u64 }),
    {
        Engine { store: RecordStore::new(), settings: Settings::new(), sched: Scheduler::new() }
    }

    /// The theme in effect.
    pub fn get_theme(&self) -> (r: String)
        ensures
            r@ == spec_theme(self.settings),
    {
        self.settings.get_theme()
    }

    /// Stores the theme.
    pub fn set_theme(&mut self, theme: String)
        requires
            old(self).wf(),
        ensures
            final(self).wf(),
            final(self).settings == (Settings { theme: Some(theme), ..old(self).settings }),
            final(self).store@ == old(self).store@,
            final(self).sched == old(self).sched,
    {
        self.settings.set_theme(theme);
    }

    /// The scan cadence in effect, in seconds.
    pub fn get_refresh_time(&self) -> (r: u64)
        ensures
            r == spec_refresh_secs(self.settings),
    {
        self.settings.get_refresh_secs()
    }

    /// Stores the scan cadence in seconds; the cadence is a positive
    /// number.  The new cadence takes effect with the next loop
    /// instance, so the driver follows this with a stop and a start.
    pub fn set_refresh_time(&mut self, secs: u64)
        requires
            old(self).wf(),
            secs >= 1,
        ensures
            final(self).wf(),
            final(self).settings == (Settings {
                refresh_secs: Some(secs),
                ..old(self).settings
            }),
            final(self).store@ == old(self).store@,
            final(self).sched == old(self).sched,
    {
        self.settings.set_refresh_secs(secs);
    }

    /// Whether notifications are in effect.
    pub fn get_show_notification(&self) -> (r: bool)
        ensures
            r == spec_show_notification(self.settings),
    {
        self.settings.get_show_notification()
    }

    /// Stores the notification flag.
    pub fn set_show_notification(&mut self, show: bool)
        requires
            old(self).wf(),
        ensures
            final(self).wf(),
            final(self).settings == (Settings {
                show_notification: Some(show),
                ..old(self).settings
            }),
            final(self).store@ == old(self).store@,
            final(self).sched == old(self).sched,
    {
        self.settings.set_show_notification(show);
    }

    /// A copy of the stored credential, if any.
    pub fn get_token(&self) -> (r: Option<String>)
        ensures
            r == self.settings.token,
    {
        self.settings.get_token()
    }

    /// Whether a credential is stored.
    pub fn has_token(&self) -> (r: bool)
        ensures
            r == (self.settings.token is Some),
    {
        self.settings.has_token()
    }

    /// Stores the credential, fully replacing any previous one.
    pub fn add_token(&mut self, token: String)
        requires
            old(self).wf(),
        ensures
            final(self).wf(),
            final(self).settings == (Settings { token: Some(token), ..old(self).settings }),
            final(self).store@ == old(self).store@,
            final(self).sched == old(self).sched,
    {
        self.settings.set_token(token);
    }

    /// Checks a submitted URL against the grammar and the credential:
    /// `InvalidUrl` exactly when the grammar does not match or the
    /// matched number is no positive u64 (a pull-request number is
    /// positive), `NoCredential` exactly when the URL is fine but no
    /// token is stored.  On success the parsed fields satisfy record
    /// well-formedness, so a record built from them is insertable.  The
    /// driver then fetches the status of the parsed pull request from
    /// the remote service.
    pub fn prepare_add(&self, url: &str) -> (r: Result<ParsedPr, EngineError>)
        ensures
            ({
                let s = url@;
                let m = first_match_pos(s, 0);
                if m < s.len() && 1 <= number_of(s, m) <= u64::MAX {
                    if self.settings.token is Some {
                        r matches Ok(p) && p.owner@ == owner_of(s, m) && p.repo@ == repo_of(s, m)
                            && p.number == number_of(s, m) && p.owner@.len() > 0
                            && p.repo@.len() > 0 && p.number >= 1
                    } else {
                        r == Err::<ParsedPr, EngineError>(EngineError::NoCredential)
                    }
                } else {
                    r == Err::<ParsedPr, EngineError>(EngineError::InvalidUrl)
                }
            }),
    {
        match parse_github_pr_url(url) {
            Option::None => Err(EngineError::InvalidUrl),
            Option::Some(parsed) => {
                if parsed.number == 0 {
                    Err(EngineError::InvalidUrl)
                } else if self.settings.has_token() {
                    Ok(parsed)
                } else {
                    Err(EngineError::NoCredential)
                }
            },
        }
    }

    /// Inserts a confirmed record; `DuplicateRecord` exactly when a
    /// record with the same (owner, repo, number) triple exists.
    pub fn add_item(&mut self, pr: TrackedPullRequest) -> (r: Result<(), EngineError>)
        requires
            old(self).wf(),
            pr.wf(),
        ensures
            final(self).wf(),
            r is Ok <==> !old(self).store.spec_contains_key(pr),
            r is Ok ==> final(self).store@ == old(self).store@.push(pr),
            r is Err ==> final(self).store@ == old(self).store@ && r == Err::<(), EngineError>(
                EngineError::DuplicateRecord,
            ),
            final(self).settings == old(self).settings,
            final(self).sched == old(self).sched,
    {
        self.store.insert(pr)
    }

    /// Deletes every record with the given number; deleting is terminal
    /// and deleting an absent number is a no-op.
    pub fn delete_pr(&mut self, pr_number: u64) -> (r: Result<(), EngineError>)
        requires
            old(self).wf(),
        ensures
            final(self).wf(),
            r is Ok,
            final(self).store@ == without_number(old(self).store@, pr_number),
            final(self).settings == old(self).settings,
            final(self).sched == old(self).sched,
    {
        self.store.remove_number(pr_number);
        Ok(())
    }

    /// Every tracked record, open and closed, in stored order.
    pub fn get_all_prs(&self) -> (r: Vec<TrackedPullRequest>)
        ensures
            r@ == self.store@,
    {
        self.store.all()
    }

    /// The open records a scan cycle walks, in stored order.
    pub fn open_prs(&self) -> (r: Vec<TrackedPullRequest>)
        ensures
            r@ == open_only(self.store@),
    {
        self.store.open_records()
    }

    /// Requests the monitor to start.  Idempotent; refuses without a
    /// credential; spawns only when no previous loop instance is live.
    pub fn start_monitor(&mut self) -> (r: StartOutcome)
        requires
            old(self).wf(),
        ensures
            final(self).wf(),
            (final(self).sched, r) == spec_start(old(self).sched, old(self).settings.token is Some),
            final(self).store@ == old(self).store@,
            final(self).settings == old(self).settings,
    {
        let has = self.settings.has_token();
        self.sched.request_start(has)
    }

    /// Requests the monitor to stop; the loop observes the cleared flag
    /// at its next checkpoint.
    pub fn stop_monitor(&mut self)
        requires
            old(self).wf(),
        ensures
            final(self).wf(),
            final(self).sched == spec_stop(old(self).sched),
            final(self).store@ == old(self).store@,
            final(self).settings == old(self).settings,
    {
        self.sched.request_stop();
    }

    /// A loop instance's checkpoint: whether to go on; on a cleared flag
    /// the instance counts as exited.
    pub fn loop_checkpoint(&mut self) -> (go_on: bool)
        requires
            old(self).wf(),
            old(self).sched.live >= 1,
        ensures
            final(self).wf(),
            go_on == old(self).sched.running,
            go_on ==> final(self).sched == old(self).sched,
            !go_on ==> final(self).sched == (Scheduler { live: 0u64, ..old(self).sched }),
            final(self).store@ == old(self).store@,
            final(self).settings == old(self).settings,
    {
        self.sched.observe()
    }

    /// One record's step of a scan cycle: classify the fetch result
    /// (`None`, a failed fetch, counts as `Unknown`), decide the effects,
    /// and apply the store mutation.  The mutation is keyed by `pr`'s
    /// full (owner, repo, number) identity, so a record that merely
    /// shares the number is untouched.  The caller performs the returned
    /// remote call, event and notification; `notify` is the notification
    /// setting read at the start of the cycle.
    pub fn process_record(
        &mut self,
        pr: &TrackedPullRequest,
        fetch: Option<RemoteStatus>,
        notify: bool,
    ) -> (e: Effects)
        requires
            old(self).wf(),
        ensures
            final(self).wf(),
            e == spec_dispatch(outcome_of(fetch), pr.pr_number, notify),
            e.close_record is Some ==> final(self).store@ == close_key(old(self).store@, *pr),
            e.close_record is None ==> final(self).store@ == old(self).store@,
            final(self).settings == old(self).settings,
            final(self).sched == old(self).sched,
    {
        let outcome = match fetch {
            Option::None => PrOutcome::Unknown,
            Option::Some(status) => classify(&status),
        };
        let effects = dispatch(outcome, pr.pr_number, notify);
        if effects.close_record.is_some() {
            self.store.mark_closed(pr);
        }
        effects
    }
}

/// Law: processing a merged status closes exactly the one record of the
/// observed (owner, repo, number) triple, emits the closed event exactly
/// once, asks for no remote call and no notification — and the closed
/// record is excluded from the next cycle's open scan, so a later cycle
/// takes no further action on it.
pub proof fn lemma_merged_closes_and_excludes(
    s: Seq<TrackedPullRequest>,
    key: TrackedPullRequest,
    status: RemoteStatus,
    notify: bool,
)
    requires
        status.merged,
    ensures
        ({
            let e = spec_dispatch(outcome_of(Some(status)), key.pr_number, notify);
            &&& e.close_record == Some(key.pr_number)
            &&& e.emit_closed == Some(key.pr_number)
            &&& !e.request_update
            &&& e.notice is None
        }),
        forall|i: int|
            0 <= i < s.len() && !s[i].same_key(key) ==> #[trigger] close_key(s, key)[i] == s[i],
        forall|i: int|
            0 <= i < open_only(close_key(s, key)).len() ==> !(#[trigger] open_only(
                close_key(s, key),
            )[i]).same_key(key),
{
    assert forall|i: int| 0 <= i < s.len() && !s[i].same_key(key) implies #[trigger] close_key(
        s,
        key,
    )[i] == s[i] by {
        assert(close_key(s, key)[i] == if s[i].same_key(key) {
            crate::store::closed_record(s[i])
        } else {
            s[i]
        });
    }
    lemma_close_key_excluded_from_open(s, key);
}

/// Closing a key leaves no open record of that key: the open scan of the
/// closed table never contains it.
pub proof fn lemma_close_key_excluded_from_open(s: Seq<TrackedPullRequest>, key: TrackedPullRequest)
    ensures
        forall|i: int|
            0 <= i < open_only(close_key(s, key)).len() ==> !(#[trigger] open_only(
                close_key(s, key),
            )[i]).same_key(key),
    decreases s.len(),
{
    let t = close_key(s, key);
    if s.len() == 0 {
        assert(t =~= Seq::<TrackedPullRequest>::empty());
    } else {
        lemma_close_key_excluded_from_open(s.drop_last(), key);
        let t_prefix = close_key(s.drop_last(), key);
        assert(t.drop_last() =~= t_prefix);
        let rest = open_only(t_prefix);
        assert(t.last() == if s.last().same_key(key) {
            crate::store::closed_record(s.last())
        } else {
            s.last()
        });
        if t.last().state == crate::record::Lifecycle::Open {
            assert(open_only(t) == rest.push(t.last()));
            assert(!t.last().same_key(key));
            assert forall|i: int| 0 <= i < open_only(t).len() implies !(#[trigger] open_only(
                t,
            )[i]).same_key(key) by {
                if i < rest.len() {
                    assert(open_only(t)[i] == rest[i]);
                } else {
                    assert(open_only(t)[i] == t.last());
                }
            }
        } else {
            assert(open_only(t) == rest);
        }
    }
}

} // verus!
