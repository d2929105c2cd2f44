//! Intake: the entry point through which a conversion is requested. A request
//! is suppressed while an equivalent job is in flight, and retried once that
//! job has gone stale.
use vstd::prelude::*;
use crate::conversion::{Model, Status, STALE_AFTER_SECS};
use crate::store::{
    active_for, has_fresh_active, is_latest_active, new_job, row_ok, table_ok, JobStore, StoreError, StoreView,
    MAX_ID,
};

verus! {

/// What intake does to the store for a request on `(source, operation)` at
/// `now`, and what it answers.
pub open spec fn intake(s: StoreView, source: Seq<char>, operation: Seq<char>, now: int) -> (Result<bool, StoreError>, StoreView) {
    if has_fresh_active(s.jobs, source, operation, now) {
        (Ok(false), s)
    } else if s.next_id > MAX_ID {
        (Err(StoreError::Exhausted), s)
    } else {
        let tries = if exists|i: int| #[trigger] active_for(s.jobs, source, operation, i) {
            let i = choose|i: int| is_latest_active(s.jobs, source, operation, i);
            s.jobs[i].times_tried + 1
        } else {
            1
        };
        if tries > i32::MAX {
            (Err(StoreError::Exhausted), s)
        } else {
            (Ok(true), StoreView {
                jobs: s.jobs.push(new_job(s.next_id, source, operation, now, tries)),
                next_id: s.next_id + 1,
            })
        }
    }
}

/// Two requests for the same key less than the staleness window apart: once
/// the first has stored a job, the second is suppressed and changes nothing.
/// On a store with no active job for the key, the first does store one, and
/// exactly one active job for the key remains after both.
pub proof fn lemma_dedup_within_window(s0: StoreView, source: Seq<char>, operation: Seq<char>, now1: int, now2: int)
    requires
        table_ok(s0.jobs, s0.next_id),
        now2 - now1 < STALE_AFTER_SECS,
    ensures
        ({
            let (r1, s1) = intake(s0, source, operation, now1);
            let (r2, s2) = intake(s1, source, operation, now2);
            &&& r1 == Ok::<bool, StoreError>(true) ==> r2 == Ok::<bool, StoreError>(false) && s2 == s1
            &&& (s0.next_id <= MAX_ID && forall|j: int| !#[trigger] active_for(s0.jobs, source, operation, j)) ==> {
                &&& r1 == Ok::<bool, StoreError>(true)
                &&& exists|i: int| #[trigger] active_for(s2.jobs, source, operation, i)
                    && forall|j: int| #[trigger] active_for(s2.jobs, source, operation, j) ==> j == i
            }
        }),
{
    let (r1, s1) = intake(s0, source, operation, now1);
    let n = s0.jobs.len() as int;
    if r1 == Ok::<bool, StoreError>(true) {
        assert(s1.jobs[n].has_key(source, operation) && s1.jobs[n].time_requested == now1);
        assert(s1.jobs[n].status == Status::Pending);
        assert(active_for(s1.jobs, source, operation, n));
        assert(has_fresh_active(s1.jobs, source, operation, now2));
    }
    if s0.next_id <= MAX_ID && forall|j: int| !#[trigger] active_for(s0.jobs, source, operation, j) {
        assert(!has_fresh_active(s0.jobs, source, operation, now1));
        assert(s1.jobs[n] == new_job(s0.next_id, source, operation, now1, 1));
        assert(active_for(s1.jobs, source, operation, n));
        assert(has_fresh_active(s1.jobs, source, operation, now2));
        assert forall|j: int| #[trigger] active_for(s1.jobs, source, operation, j) implies j == n by {
            if j < n {
                assert(s1.jobs[j] == s0.jobs[j]);
                assert(active_for(s0.jobs, source, operation, j));
            }
        }
    }
}

/// A request for a key whose most recent active job is at least the
/// staleness window old stores a second pending job with one attempt more,
/// requested at `now`, and leaves every earlier row, the stale one included,
/// as it was.
pub proof fn lemma_stale_reattempt(s0: StoreView, source: Seq<char>, operation: Seq<char>, now: int, k: int)
    requires
        table_ok(s0.jobs, s0.next_id),
        s0.next_id <= MAX_ID,
        is_latest_active(s0.jobs, source, operation, k),
        now - s0.jobs[k].time_requested >= STALE_AFTER_SECS,
        s0.jobs[k].times_tried < i32::MAX,
    ensures
        ({
            let (r, s1) = intake(s0, source, operation, now);
            &&& r == Ok::<bool, StoreError>(true)
            &&& s1.jobs.len() == s0.jobs.len() + 1
            &&& s1.jobs.take(s0.jobs.len() as int) == s0.jobs
            &&& s1.jobs[k] == s0.jobs[k]
            &&& s1.jobs.last().has_key(source, operation)
            &&& s1.jobs.last().status == Status::Pending
            &&& s1.jobs.last().time_requested == now
            &&& s1.jobs.last().times_tried == s0.jobs[k].times_tried + 1
        }),
{
    let (r, s1) = intake(s0, source, operation, now);
    assert forall|j: int| #[trigger] active_for(s0.jobs, source, operation, j)
        implies !s0.jobs[j].is_fresh_at(now) by {}
    assert(active_for(s0.jobs, source, operation, k));
    let c = choose|i: int| is_latest_active(s0.jobs, source, operation, i);
    if c != k {
        if c < k {
            assert(s0.jobs[c].time_requested < s0.jobs[k].time_requested);
        } else {
            assert(s0.jobs[k].time_requested < s0.jobs[c].time_requested);
        }
    }
    assert(s1.jobs.take(s0.jobs.len() as int) =~= s0.jobs);
}

impl Model {
    /// Requests a conversion of `source_filename` by `operation` at time `now`
    /// (seconds since the epoch). Answers `true` when a new pending job was
    /// stored: with one attempt when the key had no active job, or with one
    /// attempt more than the key's most recent active job when that job is
    /// stale; the stale row is left as it is. Answers `false`, storing nothing,
    /// while an active job for the key is younger than the staleness window.
    pub fn request_conversion(store: &mut JobStore, source_filename: String, operation: String, now: i64) -> (r: Result<bool, StoreError>)
        requires
            old(store).wf(),
        ensures
            final(store).wf(),
            (r, final(store)@) == intake(old(store)@, source_filename@, operation@, now as int),
    {
        let ghost s = store@;
        let existing = store.find_active(&source_filename, &operation);
        let tries: i32 = match existing {
            Some(m) => {
                let ghost i = choose|i: int| #[trigger] is_latest_active(s.jobs, source_filename@, operation@, i)
                    && m@ == s.jobs[i];
                if (now as i128) - (m.time_requested as i128) < STALE_AFTER_SECS as i128 {
                    assert(active_for(s.jobs, source_filename@, operation@, i));
                    return Ok(false);
                }
                proof {
                    assert forall|j: int| #[trigger] active_for(s.jobs, source_filename@, operation@, j)
                        implies !s.jobs[j].is_fresh_at(now as int) by {}
                    assert(is_latest_active(s.jobs, source_filename@, operation@, i));
                    assert(row_ok(s.jobs[i]));
                    let c = choose|i: int| is_latest_active(s.jobs, source_filename@, operation@, i);
                    if c != i {
                        if c < i {
                            assert(s.jobs[c].time_requested < s.jobs[i].time_requested);
                        } else {
                            assert(s.jobs[i].time_requested < s.jobs[c].time_requested);
                        }
                    }
                }
                if store.next_id_exhausted() {
                    return Err(StoreError::Exhausted);
                }
                if m.times_tried == i32::MAX {
                    return Err(StoreError::Exhausted);
                }
                m.times_tried + 1
            },
            None => {
                if store.next_id_exhausted() {
                    return Err(StoreError::Exhausted);
                }
                1
            },
        };
        match store.insert(source_filename, operation, now, tries) {
            Ok(_) => Ok(true),
            Err(e) => Err(e),
        }
    }
}

} // verus!
