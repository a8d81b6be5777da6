//! The polling scheduler's lifecycle: a run flag plus a count of live
//! loop instances.  The unverified driver performs the actual spawning,
//! sleeping and joining; every decision about when a loop may exist is
//! made — and proved single-flight — here.
//!
//! A loop instance is "live" from the moment `request_start` answers
//! `Spawned` until the instance observes a cleared run flag at one of
//! its checkpoints (`observe`) and terminates.

use vstd::prelude::*;

verus! {

/// The scheduler's transient state.  `live` counts loop instances that
/// have been spawned and have not yet observed a stop.
pub struct Scheduler {
    pub running: bool,
    pub live: u64,
}

/// What a start request decided.
#[derive(Clone, Copy, Debug, PartialEq, Eq, Structural)]
pub enum StartOutcome {
    /// A new loop instance must be spawned by the driver.
    Spawned,
    /// A loop is already active; nothing to do (idempotent start).
    AlreadyRunning,
    /// No credential is stored; the scheduler stays stopped.
    NoCredential,
    /// The previous loop has not yet observed its stop; the driver must
    /// let it drain before a replacement may be spawned.
    Draining,
}

/// The start transition.  A spawn happens only when no loop is running,
/// a credential is present, and the previous instance has fully drained.
pub open spec fn spec_start(s: Scheduler, has_token: bool) -> (Scheduler, StartOutcome) {
    if s.running {
        (s, StartOutcome::AlreadyRunning)
    } else if !has_token {
        (s, StartOutcome::NoCredential)
    } else if s.live > 0 {
        (s, StartOutcome::Draining)
    } else {
        (Scheduler { running: true, live: 1 }, StartOutcome::Spawned)
    }
}

/// The stop transition: clears the flag; the live loop drains on its own.
pub open spec fn spec_stop(s: Scheduler) -> Scheduler {
    Scheduler { running: false, ..s }
}

/// A checkpoint of a live loop: it reads the flag, and terminates (is no
/// longer live) exactly when the flag is cleared.
pub open spec fn spec_observe(s: Scheduler) -> (Scheduler, bool) {
    if s.running {
        (s, true)
    } else {
        (Scheduler { live: (s.live - 1) as u64, ..s }, false)
    }
}

impl Scheduler {
    /// Invariant: never more than one live loop, and a set flag always
    /// has its one live loop.
    pub open spec fn wf(self) -> bool {
        &&& self.live <= 1
        &&& self.running ==> self.live == 1
    }

    /// The stopped scheduler with no live loop.
    pub fn new() -> (s: Self)
        ensures
            s == (Scheduler { running: false, live: 0u64 }),
            s.wf(),
    {
        Scheduler { running: false, live: 0 }
    }

    /// Requests a start; the driver spawns a loop exactly on `Spawned`.
    pub fn request_start(&mut self, has_token: bool) -> (r: StartOutcome)
        requires
            old(self).wf(),
        ensures
            final(self).wf(),
            (*final(self), r) == spec_start(*old(self), has_token),
    {
        if self.running {
            StartOutcome::AlreadyRunning
        } else if !has_token {
            StartOutcome::NoCredential
        } else if self.live > 0 {
            StartOutcome::Draining
        } else {
            self.running = true;
            self.live = 1;
            StartOutcome::Spawned
        }
    }

    /// Requests a stop: clears the flag.  The live loop, if any, exits at
    /// its next checkpoint.
    pub fn request_stop(&mut self)
        requires
            old(self).wf(),
        ensures
            final(self).wf(),
            *final(self) == spec_stop(*old(self)),
    {
        self.running = false;
    }

    /// A live loop's checkpoint: answers whether the loop may continue;
    /// on a cleared flag the loop counts as exited.
    pub fn observe(&mut self) -> (go_on: bool)
        requires
            old(self).wf(),
            old(self).live >= 1,
        ensures
            final(self).wf(),
            (*final(self), go_on) == spec_observe(*old(self)),
            go_on == old(self).running,
    {
        if self.running {
            true
        } else {
            self.live = self.live - 1;
            false
        }
    }
}

/// Law (idempotent start): a second start in immediate succession changes
/// nothing — in particular, at most one loop is spawned across the two
/// calls, and at most one loop is live afterwards.
pub proof fn lemma_start_idempotent(s: Scheduler, has_token: bool)
    requires
        s.wf(),
    ensures
        ({
            let (s1, o1) = spec_start(s, has_token);
            let (s2, o2) = spec_start(s1, has_token);
            &&& s2 == s1
            &&& o1 == StartOutcome::Spawned ==> o2 == StartOutcome::AlreadyRunning
            &&& !(o1 == StartOutcome::Spawned && o2 == StartOutcome::Spawned)
            &&& s2.live <= 1
        }),
{
}

/// Law (single flight across restart): stop followed by start never
/// yields two live loops; while the stopped loop has not yet drained, no
/// replacement is spawned at all.
pub proof fn lemma_stop_start_single_flight(s: Scheduler, has_token: bool)
    requires
        s.wf(),
    ensures
        ({
            let s1 = spec_stop(s);
            let (s2, o) = spec_start(s1, has_token);
            &&& s2.live <= 1
            &&& s.live == 1 ==> o != StartOutcome::Spawned
        }),
{
}

/// Law (restart protocol): reconfiguring while a loop runs — stop, let
/// the loop observe the stop and exit, then start — ends with exactly one
/// live loop when a credential is present, and never more than one.
pub proof fn lemma_restart_protocol(s: Scheduler, has_token: bool)
    requires
        s.wf(),
        s.running,
    ensures
        ({
            let s1 = spec_stop(s);
            let (s2, go_on) = spec_observe(s1);
            let (s3, o) = spec_start(s2, has_token);
            &&& !go_on
            &&& s2.live == 0
            &&& has_token ==> o == StartOutcome::Spawned && s3.live == 1
            &&& s3.live <= 1
        }),
{
}

} // verus!
