//! The engine's view of durable record storage: a keyed table of tracked
//! pull requests with append/replace semantics and no duplicate keys.

use vstd::prelude::*;
use crate::errors::EngineError;
use crate::record::{Lifecycle, TrackedPullRequest};

verus! {

/// The subsequence of open records, in stored order.
pub open spec fn open_only(s: Seq<TrackedPullRequest>) -> Seq<TrackedPullRequest>
    decreases s.len(),
{
    if s.len() == 0 {
        Seq::<TrackedPullRequest>::empty()
    } else {
        let rest = open_only(s.drop_last());
        if s.last().state == Lifecycle::Open {
            rest.push(s.last())
        } else {
            rest
        }
    }
}

/// `s` with every record of the given number removed, in stored order.
pub open spec fn without_number(s: Seq<TrackedPullRequest>, n: u64) -> Seq<TrackedPullRequest>
    decreases s.len(),
{
    if s.len() == 0 {
        Seq::<TrackedPullRequest>::empty()
    } else {
        let rest = without_number(s.drop_last(), n);
        if s.last().pr_number == n {
            rest
        } else {
            rest.push(s.last())
        }
    }
}

/// The record with its lifecycle set to closed; nothing else changes.
pub open spec fn closed_record(r: TrackedPullRequest) -> TrackedPullRequest {
    TrackedPullRequest { state: Lifecycle::Closed, ..r }
}

/// `s` with every record of `key`'s (owner, repo, number) triple marked
/// closed.  Under the store invariant that is at most one record.
pub open spec fn close_key(s: Seq<TrackedPullRequest>, key: TrackedPullRequest) -> Seq<
    TrackedPullRequest,
> {
    s.map_values(
        |r: TrackedPullRequest|
            if r.same_key(key) {
                closed_record(r)
            } else {
                r
            },
    )
}

/// The table of tracked records.
pub struct RecordStore {
    pub records: Vec<TrackedPullRequest>,
}

impl View for RecordStore {
    type V = Seq<TrackedPullRequest>;

    open spec fn view(&self) -> Seq<TrackedPullRequest> {
        self.records@
    }
}

impl RecordStore {
    /// Invariant: every record is well formed, and at most one record
    /// exists per (owner, repo, number) triple.
    pub open spec fn wf(self) -> bool {
        &&& forall|i: int| 0 <= i < self@.len() ==> (#[trigger] self@[i]).wf()
        &&& forall|i: int, j: int|
            0 <= i < j < self@.len() ==> !(#[trigger] self@[i]).same_key(#[trigger] self@[j])
    }

    /// Whether some stored record covers the same pull request as `pr`.
    pub open spec fn spec_contains_key(self, pr: TrackedPullRequest) -> bool {
        exists|i: int| 0 <= i < self@.len() && (#[trigger] self@[i]).same_key(pr)
    }

    /// An empty table.
    pub fn new() -> (r: Self)
        ensures
            r@ == Seq::<TrackedPullRequest>::empty(),
            r.wf(),
    {
        RecordStore { records: Vec::new() }
    }

    /// Whether a record with `pr`'s key is already stored.
    pub fn contains_key(&self, pr: &TrackedPullRequest) -> (r: bool)
        ensures
            r == self.spec_contains_key(*pr),
    {
        let n = self.records.len();
        let mut i: usize = 0;
        while i < n
            invariant
                n == self@.len(),
                0 <= i <= n,
                forall|k: int| 0 <= k < i ==> !(#[trigger] self@[k]).same_key(*pr),
            decreases n - i,
        {
            if self.records[i].same_pr(pr) {
                proof {
                    assert(self@[i as int].same_key(*pr));
                }
                return true;
            }
            i += 1;
        }
        false
    }

    /// Inserts a record; rejected when one with the same key exists.
    pub fn insert(&mut self, pr: TrackedPullRequest) -> (r: Result<(), EngineError>)
        requires
            old(self).wf(),
            pr.wf(),
        ensures
            final(self).wf(),
            r is Ok <==> !old(self).spec_contains_key(pr),
            r is Ok ==> final(self)@ == old(self)@.push(pr),
            r is Err ==> final(self)@ == old(self)@ && r == Err::<(), EngineError>(
                EngineError::DuplicateRecord,
            ),
    {
        if self.contains_key(&pr) {
            return Err(EngineError::DuplicateRecord);
        }
        proof {
            assert forall|k: int| 0 <= k < self@.len() implies !(#[trigger] self@[k]).same_key(
                pr,
            ) by {
                if self@[k].same_key(pr) {
                    assert(self.spec_contains_key(pr));
                }
            }
        }
        let ghost pre = self@;
        self.records.push(pr);
        proof {
            assert(self@ == pre.push(pr));
            assert forall|i: int, j: int| 0 <= i < j < self@.len() implies !(
            #[trigger] self@[i]).same_key(#[trigger] self@[j]) by {
                assert(self@[i] == pre[i]);
                if j < self@.len() - 1 {
                    assert(self@[j] == pre[j]);
                    assert(!pre[i].same_key(pre[j]));
                } else {
                    assert(self@[j] == pr);
                    assert(!pre[i].same_key(pr));
                }
            }
            assert forall|i: int| 0 <= i < self@.len() implies (#[trigger] self@[i]).wf() by {
                if i < self@.len() - 1 {
                    assert(self@[i] == pre[i]);
                    assert(pre[i].wf());
                } else {
                    assert(self@[i] == pr);
                }
            }
        }
        Ok(())
    }

    /// Deletes every record with the given number.  Absent numbers are a
    /// no-op.
    pub fn remove_number(&mut self, n: u64)
        requires
            old(self).wf(),
        ensures
            final(self).wf(),
            final(self)@ == without_number(old(self)@, n),
    {
        let count = self.records.len();
        let mut kept: Vec<TrackedPullRequest> = Vec::new();
        let mut i: usize = 0;
        while i < count
            invariant
                count == self@.len(),
                0 <= i <= count,
                kept@ == without_number(self@.take(i as int), n),
            decreases count - i,
        {
            proof {
                let pre = self@.take(i as int);
                let post = self@.take(i as int + 1);
                assert(post.drop_last() =~= pre);
                assert(post.last() == self@[i as int]);
            }
            if self.records[i].pr_number != n {
                let copy = self.records[i].duplicate();
                kept.push(copy);
            }
            i += 1;
        }
        proof {
            assert(self@.take(count as int) =~= self@);
            lemma_without_number_keeps_wf(self@, n);
        }
        self.records = kept;
    }

    /// Marks the record of `key`'s (owner, repo, number) triple closed.
    /// An absent key is a no-op (a delete racing with processing is
    /// tolerated); records that merely share the number are untouched.
    pub fn mark_closed(&mut self, key: &TrackedPullRequest)
        requires
            old(self).wf(),
        ensures
            final(self).wf(),
            final(self)@ == close_key(old(self)@, *key),
    {
        let count = self.records.len();
        let mut updated: Vec<TrackedPullRequest> = Vec::new();
        let mut i: usize = 0;
        while i < count
            invariant
                count == self@.len(),
                0 <= i <= count,
                updated@ == close_key(self@, *key).take(i as int),
            decreases count - i,
        {
            let current = self.records[i].duplicate();
            if current.same_pr(key) {
                let closed = TrackedPullRequest { state: Lifecycle::Closed, ..current };
                proof {
                    assert(closed == closed_record(self@[i as int]));
                }
                updated.push(closed);
            } else {
                updated.push(current);
            }
            proof {
                assert(close_key(self@, *key)[i as int] == if self@[i as int].same_key(*key) {
                    closed_record(self@[i as int])
                } else {
                    self@[i as int]
                });
                assert(close_key(self@, *key).take(i as int + 1) =~= close_key(
                    self@,
                    *key,
                ).take(i as int).push(close_key(self@, *key)[i as int]));
            }
            i += 1;
        }
        proof {
            assert(close_key(self@, *key).take(count as int) =~= close_key(self@, *key));
            lemma_close_key_keeps_wf(self@, *key);
        }
        self.records = updated;
    }

    /// Deep copies of all records, in stored order.
    pub fn all(&self) -> (r: Vec<TrackedPullRequest>)
        ensures
            r@ == self@,
    {
        let count = self.records.len();
        let mut out: Vec<TrackedPullRequest> = Vec::new();
        let mut i: usize = 0;
        while i < count
            invariant
                count == self@.len(),
                0 <= i <= count,
                out@ == self@.take(i as int),
            decreases count - i,
        {
            let copy = self.records[i].duplicate();
            out.push(copy);
            proof {
                assert(self@.take(i as int + 1) =~= self@.take(i as int).push(self@[i as int]));
            }
            i += 1;
        }
        proof {
            assert(self@.take(count as int) =~= self@);
        }
        out
    }

    /// Deep copies of the open records only, in stored order: the set a
    /// scan cycle walks.
    pub fn open_records(&self) -> (r: Vec<TrackedPullRequest>)
        ensures
            r@ == open_only(self@),
    {
        let count = self.records.len();
        let mut out: Vec<TrackedPullRequest> = Vec::new();
        let mut i: usize = 0;
        while i < count
            invariant
                count == self@.len(),
                0 <= i <= count,
                out@ == open_only(self@.take(i as int)),
            decreases count - i,
        {
            proof {
                let pre = self@.take(i as int);
                let post = self@.take(i as int + 1);
                assert(post.drop_last() =~= pre);
                assert(post.last() == self@[i as int]);
            }
            if matches!(self.records[i].state, Lifecycle::Open) {
                let copy = self.records[i].duplicate();
                out.push(copy);
            }
            i += 1;
        }
        proof {
            assert(self@.take(count as int) =~= self@);
        }
        out
    }
}

/// Law: the duplicate check is keyed by the full (owner, repo, number)
/// triple.  A record whose number no stored record carries is never a
/// duplicate — under the same owner and repo or any other — while
/// `insert`'s contract rejects exactly the stored triples.
pub proof fn lemma_fresh_number_never_duplicate(store: RecordStore, pr: TrackedPullRequest)
    requires
        forall|i: int| 0 <= i < store@.len() ==> (#[trigger] store@[i]).pr_number != pr.pr_number,
    ensures
        !store.spec_contains_key(pr),
{
}

/// Removing a number keeps every remaining record well formed, keeps the
/// keys unique, and leaves only records of other numbers, each taken from
/// the input.
pub proof fn lemma_without_number_keeps_wf(s: Seq<TrackedPullRequest>, n: u64)
    requires
        forall|i: int| 0 <= i < s.len() ==> (#[trigger] s[i]).wf(),
        forall|i: int, j: int|
            0 <= i < j < s.len() ==> !(#[trigger] s[i]).same_key(#[trigger] s[j]),
    ensures
        forall|i: int|
            0 <= i < without_number(s, n).len() ==> exists|j: int|
                0 <= j < s.len() && #[trigger] without_number(s, n)[i] == s[j],
        forall|i: int|
            0 <= i < without_number(s, n).len() ==> (#[trigger] without_number(s, n)[i]).wf(),
        forall|i: int, j: int|
            0 <= i < j < without_number(s, n).len() ==> !(#[trigger] without_number(
                s,
                n,
            )[i]).same_key(#[trigger] without_number(s, n)[j]),
        forall|i: int|
            0 <= i < without_number(s, n).len() ==> (#[trigger] without_number(s, n)[i]).pr_number
                != n,
    decreases s.len(),
{
    if s.len() == 0 {
    } else {
        let rest = s.drop_last();
        assert forall|i: int| 0 <= i < rest.len() implies (#[trigger] rest[i]).wf() by {
            assert(rest[i] == s[i]);
        }
        assert forall|i: int, j: int| 0 <= i < j < rest.len() implies !(
        #[trigger] rest[i]).same_key(#[trigger] rest[j]) by {
            assert(rest[i] == s[i]);
            assert(rest[j] == s[j]);
        }
        lemma_without_number_keeps_wf(rest, n);
        let shorter = without_number(rest, n);
        let out = without_number(s, n);
        if s.last().pr_number == n {
            assert(out == shorter);
            assert forall|i: int| 0 <= i < out.len() implies exists|j: int|
                0 <= j < s.len() && #[trigger] out[i] == s[j] by {
                let j0 = choose|j: int| 0 <= j < rest.len() && #[trigger] shorter[i] == rest[j];
                assert(s[j0] == rest[j0]);
                assert(out[i] == s[j0]);
            }
        } else {
            assert(out == shorter.push(s.last()));
            assert forall|i: int| 0 <= i < out.len() implies exists|j: int|
                0 <= j < s.len() && #[trigger] out[i] == s[j] by {
                if i < shorter.len() {
                    let j0 = choose|j: int| 0 <= j < rest.len() && #[trigger] shorter[i] == rest[j];
                    assert(s[j0] == rest[j0]);
                    assert(out[i] == s[j0]);
                } else {
                    assert(out[i] == s[s.len() - 1]);
                }
            }
            assert forall|i: int, j: int| 0 <= i < j < out.len() implies !(
            #[trigger] out[i]).same_key(#[trigger] out[j]) by {
                if j == out.len() - 1 {
                    assert(out[i] == shorter[i]);
                    let j0 = choose|k: int| 0 <= k < rest.len() && #[trigger] shorter[i] == rest[k];
                    assert(s[j0] == rest[j0]);
                    assert(!s[j0].same_key(s[s.len() - 1]));
                    assert(out[j] == s[s.len() - 1]);
                } else {
                    assert(out[i] == shorter[i]);
                    assert(out[j] == shorter[j]);
                }
            }
        }
    }
}

/// Closing a key keeps well-formedness and key uniqueness: the keys of
/// all records are untouched, only the one record's lifecycle changes.
pub proof fn lemma_close_key_keeps_wf(s: Seq<TrackedPullRequest>, key: TrackedPullRequest)
    requires
        forall|i: int| 0 <= i < s.len() ==> (#[trigger] s[i]).wf(),
        forall|i: int, j: int|
            0 <= i < j < s.len() ==> !(#[trigger] s[i]).same_key(#[trigger] s[j]),
    ensures
        close_key(s, key).len() == s.len(),
        forall|i: int|
            0 <= i < s.len() ==> (#[trigger] close_key(s, key)[i]).pr_number == s[i].pr_number
                && close_key(s, key)[i].owner == s[i].owner && close_key(s, key)[i].repo
                == s[i].repo,
        forall|i: int|
            0 <= i < s.len() && s[i].same_key(key) ==> (#[trigger] close_key(s, key)[i]).state
                == Lifecycle::Closed,
        forall|i: int|
            0 <= i < s.len() && !s[i].same_key(key) ==> #[trigger] close_key(s, key)[i] == s[i],
        forall|i: int| 0 <= i < s.len() ==> (#[trigger] close_key(s, key)[i]).wf(),
        forall|i: int, j: int|
            0 <= i < j < s.len() ==> !(#[trigger] close_key(s, key)[i]).same_key(
                #[trigger] close_key(s, key)[j],
            ),
{
    let out = close_key(s, key);
    assert forall|i: int| 0 <= i < s.len() implies (#[trigger] out[i]).pr_number == s[i].pr_number
        && out[i].owner == s[i].owner && out[i].repo == s[i].repo by {
        assert(out[i] == if s[i].same_key(key) {
            closed_record(s[i])
        } else {
            s[i]
        });
    }
    assert forall|i: int| 0 <= i < s.len() implies (#[trigger] out[i]).wf() by {
        assert(s[i].wf());
    }
    assert forall|i: int, j: int| 0 <= i < j < s.len() implies !(#[trigger] out[i]).same_key(
        #[trigger] out[j],
    ) by {
        assert(!s[i].same_key(s[j]));
    }
}

} // verus!
