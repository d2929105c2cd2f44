//! The job store: the table of conversion jobs, with the queries that intake
//! and the worker make on it.
use vstd::prelude::*;
use crate::conversion::{JobView, Model, Status};

verus! {

/// Largest id the store can hand out.
pub const MAX_ID: i64 = 2147483647;

/// Why the store refused a request.
#[derive(Clone, Copy, Debug, PartialEq, Eq, Structural)]
pub enum StoreError {
    /// No job has the id asked for.
    NotFound,
    /// A new row would need an id or an attempt count beyond `i32`.
    Exhausted,
    /// Rows handed to `from_rows` break the table's invariant.
    Inconsistent,
}

/// The mathematical form of the store: its rows in insertion order and the
/// id that the next row gets.
pub struct StoreView {
    pub jobs: Seq<JobView>,
    pub next_id: int,
}

/// A row as a loaded table may hold it: positive id, at least one attempt,
/// and a completion time exactly when the status is terminal.
pub open spec fn row_ok(j: JobView) -> bool {
    &&& 0 < j.id
    &&& 1 <= j.times_tried
    &&& j.completion_consistent()
}

/// The table's invariant: rows valid, ids strictly increasing in insertion
/// order and below the next id.
pub open spec fn table_ok(jobs: Seq<JobView>, next_id: int) -> bool {
    &&& 0 < next_id <= MAX_ID + 1
    &&& forall|i: int| 0 <= i < jobs.len() ==> #[trigger] row_ok(jobs[i])
    &&& forall|i: int| 0 <= i < jobs.len() ==> #[trigger] jobs[i].id < next_id
    &&& forall|i: int, j: int| 0 <= i < j < jobs.len() ==> jobs[i].id < jobs[j].id
}

/// Row `i` is an active job for the key.
pub open spec fn active_for(jobs: Seq<JobView>, source: Seq<char>, operation: Seq<char>, i: int) -> bool {
    0 <= i < jobs.len() && jobs[i].is_active() && jobs[i].has_key(source, operation)
}

/// Row `i` is the active job for the key that was requested last; among equal
/// request times, the first inserted.
pub open spec fn is_latest_active(jobs: Seq<JobView>, source: Seq<char>, operation: Seq<char>, i: int) -> bool {
    &&& active_for(jobs, source, operation, i)
    &&& forall|j: int| #[trigger] active_for(jobs, source, operation, j)
        ==> jobs[j].time_requested <= jobs[i].time_requested
    &&& forall|j: int| 0 <= j < i && #[trigger] active_for(jobs, source, operation, j)
        ==> jobs[j].time_requested < jobs[i].time_requested
}

/// Some active job for the key is still within the staleness window at `now`.
pub open spec fn has_fresh_active(jobs: Seq<JobView>, source: Seq<char>, operation: Seq<char>, now: int) -> bool {
    exists|j: int| #[trigger] active_for(jobs, source, operation, j) && jobs[j].is_fresh_at(now)
}

/// Row `i` is active and was requested no later than any other active row;
/// among equal request times, it was inserted first.
pub open spec fn is_next_eligible(jobs: Seq<JobView>, i: int) -> bool {
    &&& 0 <= i < jobs.len()
    &&& jobs[i].is_active()
    &&& forall|j: int| 0 <= j < jobs.len() && #[trigger] jobs[j].is_active()
        ==> jobs[i].time_requested <= jobs[j].time_requested
    &&& forall|j: int| 0 <= j < i && #[trigger] jobs[j].is_active()
        ==> jobs[i].time_requested < jobs[j].time_requested
}

/// Some row is active.
pub open spec fn has_active(jobs: Seq<JobView>) -> bool {
    exists|j: int| 0 <= j < jobs.len() && #[trigger] jobs[j].is_active()
}

/// The row that intake inserts.
pub open spec fn new_job(id: int, source: Seq<char>, operation: Seq<char>, now: int, times_tried: int) -> JobView {
    JobView {
        id,
        source,
        operation,
        time_requested: now,
        time_completed: None,
        status: Status::Pending,
        times_tried,
    }
}

/// The row after a status write at `now`.
pub open spec fn with_status(j: JobView, status: Status, now: int) -> JobView {
    JobView {
        status,
        time_completed: if status.is_terminal() { Some(now) } else { None },
        ..j
    }
}

/// Every status write leaves a row with a completion time exactly when its
/// status is Completed or Failed, and so does every insertion.
pub proof fn lemma_completion_exclusive(j: JobView, status: Status, now: int, id: int, source: Seq<char>, operation: Seq<char>, tries: int)
    ensures
        with_status(j, status, now).completion_consistent(),
        with_status(j, status, now).time_completed is Some <==> (status is Completed || status is Failed),
        new_job(id, source, operation, now, tries).completion_consistent(),
{
}

/// The conversion jobs, in the order they were inserted.
pub struct JobStore {
    rows: Vec<Model>,
    next_id: i64,
}

impl View for JobStore {
    type V = StoreView;

    closed spec fn view(&self) -> StoreView {
        StoreView { jobs: self.rows@.map_values(|m: Model| m@), next_id: self.next_id as int }
    }
}

impl JobStore {
    pub open spec fn wf(&self) -> bool {
        table_ok(self@.jobs, self@.next_id)
    }

    /// An empty table.
    pub fn new() -> (r: JobStore)
        ensures
            r.wf(),
            r@.jobs.len() == 0,
            r@.next_id == 1,
    {
        let r = JobStore { rows: Vec::new(), next_id: 1 };
        assert(r@.jobs =~= Seq::<JobView>::empty());
        r
    }

    /// Takes over the rows of a loaded table, in id order. Refused with
    /// `Inconsistent` exactly when they break the table's invariant for a next
    /// id one above the last row's.
    pub fn from_rows(rows: Vec<Model>) -> (r: Result<JobStore, StoreError>)
        ensures
            match r {
                Ok(s) => s.wf() && s@.jobs == rows@.map_values(|m: Model| m@) && s@.next_id == (
                if rows@.len() == 0 { 1 } else { rows@.last().id + 1 }),
                Err(e) => e == StoreError::Inconsistent && !table_ok(
                    rows@.map_values(|m: Model| m@),
                    if rows@.len() == 0 { 1 } else { rows@.last().id + 1 },
                ),
            },
    {
        let ghost jobs = rows@.map_values(|m: Model| m@);
        let n = rows.len();
        let mut i: usize = 0;
        while i < n
            invariant
                n == rows@.len(),
                jobs == rows@.map_values(|m: Model| m@),
                i <= n,
                forall|k: int| 0 <= k < i ==> #[trigger] row_ok(jobs[k]),
                forall|k: int, l: int| 0 <= k < l < i ==> jobs[k].id < jobs[l].id,
            decreases n - i,
        {
            let row = &rows[i];
            let consistent = row.time_completed.is_some() == row.status.terminal();
            if !(0 < row.id && 1 <= row.times_tried && consistent) {
                assert(!row_ok(jobs[i as int]));
                return Err(StoreError::Inconsistent);
            }
            if i > 0 && rows[i - 1].id >= row.id {
                assert(!(jobs[i - 1].id < jobs[i as int].id));
                return Err(StoreError::Inconsistent);
            }
            i = i + 1;
        }
        let next_id: i64 = if n == 0 { 1 } else { rows[n - 1].id as i64 + 1 };
        proof {
            if n > 0 {
                assert(row_ok(jobs[n - 1]));
                assert(jobs[n - 1].id == rows@[n - 1].id);
                assert forall|k: int| 0 <= k < jobs.len() implies #[trigger] jobs[k].id < next_id by {
                    if k < n - 1 {
                        assert(jobs[k].id < jobs[n - 1].id);
                    }
                }
            }
        }
        let s = JobStore { rows, next_id };
        assert(s@.jobs == jobs);
        assert(s.wf());
        Ok(s)
    }

    /// Whether every id has been handed out.
    pub fn next_id_exhausted(&self) -> (r: bool)
        ensures
            r == (self@.next_id > MAX_ID),
    {
        self.next_id > MAX_ID
    }

    /// The rows, in insertion order.
    pub fn jobs(&self) -> (r: &Vec<Model>)
        ensures
            r@.map_values(|m: Model| m@) == self@.jobs,
    {
        &self.rows
    }

    /// Index of the active job for the key that was requested last.
    fn latest_active_index(&self, source: &String, operation: &String) -> (r: Option<usize>)
        requires
            self.wf(),
        ensures
            r matches Some(i) ==> is_latest_active(self@.jobs, source@, operation@, i as int),
            r is None ==> forall|j: int| !#[trigger] active_for(self@.jobs, source@, operation@, j),
    {
        let ghost jobs = self@.jobs;
        let mut best: Option<usize> = None;
        let mut i: usize = 0;
        while i < self.rows.len()
            invariant
                jobs == self@.jobs,
                i <= self.rows.len(),
                jobs.len() == self.rows.len(),
                best matches Some(b) ==> b < i && active_for(jobs, source@, operation@, b as int),
                forall|j: int| 0 <= j < i && #[trigger] active_for(jobs, source@, operation@, j) ==> (
                    best matches Some(b) && jobs[j].time_requested <= jobs[b as int].time_requested),
                best matches Some(b) ==> forall|j: int| 0 <= j < b && #[trigger] active_for(jobs, source@, operation@, j)
                    ==> jobs[j].time_requested < jobs[b as int].time_requested,
            decreases self.rows.len() - i,
        {
            let row = &self.rows[i];
            assert(row@ == jobs[i as int]);
            if !row.status.terminal() && row.source_filename == *source && row.operation == *operation {
                match best {
                    None => {
                        best = Some(i);
                    },
                    Some(b) => {
                        if self.rows[b].time_requested < row.time_requested {
                            best = Some(i);
                        }
                    },
                }
            }
            i = i + 1;
        }
        best
    }

    /// The active job for the key that was requested last (among equal request
    /// times, the first inserted); `None` when the key has no active job.
    pub fn find_active(&self, source: &String, operation: &String) -> (r: Option<Model>)
        requires
            self.wf(),
        ensures
            r matches Some(m) ==> exists|i: int| #[trigger] is_latest_active(self@.jobs, source@, operation@, i)
                && m@ == self@.jobs[i],
            r is None ==> forall|j: int| !#[trigger] active_for(self@.jobs, source@, operation@, j),
    {
        match self.latest_active_index(source, operation) {
            Some(i) => {
                let m = self.rows[i].clone();
                assert(is_latest_active(self@.jobs, source@, operation@, i as int));
                Some(m)
            },
            None => None,
        }
    }

    /// Index of the active job requested first.
    fn next_eligible_index(&self) -> (r: Option<usize>)
        requires
            self.wf(),
        ensures
            r matches Some(i) ==> is_next_eligible(self@.jobs, i as int),
            r is None ==> !has_active(self@.jobs),
    {
        let ghost jobs = self@.jobs;
        let mut best: Option<usize> = None;
        let mut i: usize = 0;
        while i < self.rows.len()
            invariant
                jobs == self@.jobs,
                i <= self.rows.len(),
                jobs.len() == self.rows.len(),
                best matches Some(b) ==> b < i && jobs[b as int].is_active(),
                forall|j: int| 0 <= j < i && #[trigger] jobs[j].is_active() ==> (
                    best matches Some(b) && jobs[b as int].time_requested <= jobs[j].time_requested),
                best matches Some(b) ==> forall|j: int| 0 <= j < b && #[trigger] jobs[j].is_active()
                    ==> jobs[b as int].time_requested < jobs[j].time_requested,
            decreases self.rows.len() - i,
        {
            let row = &self.rows[i];
            assert(row@ == jobs[i as int]);
            if !row.status.terminal() {
                match best {
                    None => {
                        best = Some(i);
                    },
                    Some(b) => {
                        if row.time_requested < self.rows[b].time_requested {
                            best = Some(i);
                        }
                    },
                }
            }
            i = i + 1;
        }
        best
    }

    /// The job the worker runs next: the active job requested first (among equal
    /// request times, the first inserted); `None` when no job is active.
    pub fn find_next_eligible(&self) -> (r: Option<Model>)
        requires
            self.wf(),
        ensures
            r matches Some(m) ==> exists|i: int| #[trigger] is_next_eligible(self@.jobs, i) && m@ == self@.jobs[i],
            r is None <==> !has_active(self@.jobs),
    {
        match self.next_eligible_index() {
            Some(i) => {
                let m = self.rows[i].clone();
                assert(is_next_eligible(self@.jobs, i as int));
                Some(m)
            },
            None => None,
        }
    }

    /// Appends a pending job with the next id and returns that id; `Exhausted`
    /// when the ids are used up.
    pub fn insert(&mut self, source: String, operation: String, now: i64, times_tried: i32) -> (r: Result<i32, StoreError>)
        requires
            old(self).wf(),
            1 <= times_tried,
        ensures
            final(self).wf(),
            old(self)@.next_id > MAX_ID ==> r == Err::<i32, StoreError>(StoreError::Exhausted) && final(self)@ == old(self)@,
            old(self)@.next_id <= MAX_ID ==> r == Ok::<i32, StoreError>(old(self)@.next_id as i32) && final(self)@ == (StoreView {
                jobs: old(self)@.jobs.push(new_job(old(self)@.next_id, source@, operation@, now as int, times_tried as int)),
                next_id: old(self)@.next_id + 1,
            }),
    {
        if self.next_id > MAX_ID {
            return Err(StoreError::Exhausted);
        }
        let id = self.next_id as i32;
        let row = Model {
            id,
            source_filename: source,
            operation,
            time_requested: now,
            time_completed: None,
            status: Status::Pending,
            times_tried,
        };
        let ghost before = self@.jobs;
        self.rows.push(row);
        self.next_id = self.next_id + 1;
        assert(self@.jobs =~= before.push(row@));
        Ok(id)
    }

    /// Writes a job's status; the completion time becomes `now` for a terminal
    /// status and is cleared otherwise. `NotFound` when no row has the id.
    pub fn update_status(&mut self, id: i32, status: Status, now: i64) -> (r: Result<(), StoreError>)
        requires
            old(self).wf(),
        ensures
            final(self).wf(),
            final(self)@.next_id == old(self)@.next_id,
            r is Ok <==> exists|i: int| 0 <= i < old(self)@.jobs.len() && #[trigger] old(self)@.jobs[i].id == id,
            r is Err ==> r == Err::<(), StoreError>(StoreError::NotFound) && final(self)@ == old(self)@,
            forall|i: int| 0 <= i < old(self)@.jobs.len() && #[trigger] old(self)@.jobs[i].id == id
                ==> final(self)@.jobs == old(self)@.jobs.update(i, with_status(old(self)@.jobs[i], status, now as int)),
    {
        let ghost jobs = self@.jobs;
        let mut i: usize = 0;
        while i < self.rows.len()
            invariant
                self@ == old(self)@,
                jobs == self@.jobs,
                self.wf(),
                i <= self.rows.len(),
                jobs.len() == self.rows.len(),
                forall|k: int| 0 <= k < i ==> #[trigger] jobs[k].id != id,
            decreases self.rows.len() - i,
        {
            assert(self.rows@[i as int]@ == jobs[i as int]);
            if self.rows[i].id == id {
                let mut row = self.rows[i].clone();
                row.status = status;
                row.time_completed = if status.terminal() { Some(now) } else { None };
                self.rows.set(i, row);
                proof {
                    assert(row_ok(jobs[i as int]));
                    assert(self@.jobs =~= jobs.update(i as int, with_status(jobs[i as int], status, now as int)));
                    assert forall|k: int| 0 <= k < jobs.len() && #[trigger] jobs[k].id == id implies k == i by {
                        if k < i {
                            assert(jobs[k].id < jobs[i as int].id);
                        } else if k > i {
                            assert(jobs[i as int].id < jobs[k].id);
                        }
                    }
                    assert forall|k: int| 0 <= k < self@.jobs.len() implies #[trigger] row_ok(self@.jobs[k]) by {
                        if k != i {
                            assert(row_ok(jobs[k]));
                        }
                    }
                    assert forall|k: int| 0 <= k < self@.jobs.len() implies #[trigger] self@.jobs[k].id < self@.next_id by {
                        assert(jobs[k].id < self@.next_id);
                    }
                }
                return Ok(());
            }
            i = i + 1;
        }
        Err(StoreError::NotFound)
    }
}

} // verus!
