//! The worker: the decisions of the single loop that takes jobs from the store
//! in request order, runs them through the dispatcher and stores the outcome.
//! The loop itself, with its timers and its shutdown signal, belongs to the
//! caller, which performs each decision.
use vstd::prelude::*;
use crate::conversion::{parse_operation, Model, Operation, Status};
use crate::dispatch::{next_action, tags_after, Action, ActionView, Event, EventView};
use crate::path::{file_stem_of, joined, parent_of};
use crate::thumb::thumbnail_args;
use crate::store::{has_active, is_next_eligible, table_ok, with_status, JobStore, StoreError, StoreView};
use crate::tag::TagStore;

verus! {

/// Seconds to wait when no job is eligible.
pub const IDLE_SLEEP_SECS: u64 = 3;

/// Seconds to wait after the store failed a query.
pub const ERROR_SLEEP_SECS: u64 = 5;

/// What the worker does in one turn of its loop.
#[derive(Debug)]
pub enum WorkerAction {
    /// Shutdown was requested: leave the loop.
    Exit,
    /// Run this job through the dispatcher.
    Run(Model),
    /// Wait this many seconds, or until shutdown is signalled.
    Sleep(u64),
}

/// One turn of the worker loop, given whether shutdown was requested and what
/// the store answered for the next eligible job.
pub fn next_turn(shutdown: bool, polled: Result<Option<Model>, StoreError>) -> (r: WorkerAction)
    ensures
        shutdown ==> r is Exit,
        !shutdown ==> match polled {
            Ok(Some(m)) => (r matches WorkerAction::Run(j) && j@ == m@),
            Ok(None) => r == WorkerAction::Sleep(IDLE_SLEEP_SECS),
            Err(_) => r == WorkerAction::Sleep(ERROR_SLEEP_SECS),
        },
{
    if shutdown {
        return WorkerAction::Exit;
    }
    match polled {
        Ok(Some(m)) => WorkerAction::Run(m),
        Ok(None) => WorkerAction::Sleep(IDLE_SLEEP_SECS),
        Err(_) => WorkerAction::Sleep(ERROR_SLEEP_SECS),
    }
}

/// One turn of the worker loop on `store`: leave on shutdown, otherwise run the
/// active job that was requested first, or wait when there is none.
pub fn process_conversion_queue(store: &JobStore, shutdown: bool) -> (r: WorkerAction)
    requires
        store.wf(),
    ensures
        shutdown ==> r is Exit,
        !shutdown && !has_active(store@.jobs) ==> r == WorkerAction::Sleep(IDLE_SLEEP_SECS),
        !shutdown && has_active(store@.jobs) ==> (r matches WorkerAction::Run(j) && exists|i: int|
            #[trigger] is_next_eligible(store@.jobs, i) && j@ == store@.jobs[i]),
{
    if shutdown {
        return WorkerAction::Exit;
    }
    next_turn(false, Ok(store.find_next_eligible()))
}

/// The store after a job's terminal status is written at `now`, when `a` ends
/// the job; unchanged otherwise or when no row has the job's id.
pub open spec fn store_after(s: StoreView, id: int, a: ActionView, now: int) -> StoreView {
    match a {
        ActionView::Finish(st, _) => if exists|i: int| 0 <= i < s.jobs.len() && #[trigger] s.jobs[i].id == id {
            let i = choose|i: int| 0 <= i < s.jobs.len() && #[trigger] s.jobs[i].id == id;
            StoreView { jobs: s.jobs.update(i, with_status(s.jobs[i], st, now)), next_id: s.next_id }
        } else {
            s
        },
        _ => s,
    }
}

/// Runs one event of `job` through the dispatcher and, when the answer ends
/// the job, writes its terminal status with completion time `now`. Answers the
/// dispatcher's action, or `NotFound` when the job to be ended is not in the
/// store.
pub fn advance(store: &mut JobStore, tags: &mut TagStore, job: &Model, event: &Event, now: i64) -> (r: Result<Action, StoreError>)
    requires
        old(store).wf(),
        old(tags).wf(),
    ensures
        final(store).wf(),
        final(tags).wf(),
        final(tags)@ == tags_after(job@, event@, old(tags)@),
        final(store)@ == store_after(old(store)@, job.id as int, next_action(job@, event@), now as int),
        match r {
            Ok(a) => a@ == next_action(job@, event@),
            Err(e) => e == StoreError::NotFound && next_action(job@, event@) is Finish
                && !exists|i: int| 0 <= i < old(store)@.jobs.len() && #[trigger] old(store)@.jobs[i].id == job.id,
        },
{
    let a = job.process(event, tags);
    match a {
        Action::Finish(st, reason) => {
            let ghost s = store@;
            match store.update_status(job.id, st, now) {
                Ok(()) => {
                    proof {
                        let i = choose|i: int| 0 <= i < s.jobs.len() && #[trigger] s.jobs[i].id == job.id;
                        assert(s.jobs[i].id == job.id);
                    }
                    Ok(Action::Finish(st, reason))
                },
                Err(e) => Err(e),
            }
        },
        _ => Ok(a),
    }
}

/// A thumbnail job whose source has a parent folder and a file stem: on start
/// the tool is run to write `<parent>/thumbs/<stem>.webp` (the folder being
/// created first); once the tool succeeds, writing the outcome at `now` makes
/// the job's row Completed with completion time `now` and leaves every other
/// row as it was.
pub proof fn lemma_thumbnail_completes(s: StoreView, i: int, now: int, p: Seq<char>, stem: Seq<char>)
    requires
        table_ok(s.jobs, s.next_id),
        0 <= i < s.jobs.len(),
        parse_operation(s.jobs[i].operation) == Some(Operation::Thumbnail),
        parent_of(s.jobs[i].source) == Some(p),
        file_stem_of(s.jobs[i].source) == Some(stem),
    ensures
        next_action(s.jobs[i], EventView::Start) == (ActionView::RunTool {
            dir: joined(p, "thumbs"@),
            args: thumbnail_args(s.jobs[i].source, joined(joined(p, "thumbs"@), stem + ".webp"@)),
        }),
        next_action(s.jobs[i], EventView::ToolFinished(None)) == ActionView::Finish(Status::Completed, None),
        store_after(s, s.jobs[i].id, ActionView::Finish(Status::Completed, None), now).jobs == s.jobs.update(
            i,
            with_status(s.jobs[i], Status::Completed, now),
        ),
        with_status(s.jobs[i], Status::Completed, now).time_completed == Some(now),
{
    let id = s.jobs[i].id;
    assert(0 <= i < s.jobs.len() && s.jobs[i].id == id);
    let c = choose|k: int| 0 <= k < s.jobs.len() && #[trigger] s.jobs[k].id == id;
    if c < i {
        assert(s.jobs[c].id < s.jobs[i].id);
    } else if c > i {
        assert(s.jobs[i].id < s.jobs[c].id);
    }
}

/// Once the worker ends the job it selected, the next job it selects was
/// requested no earlier: jobs run in order of request time.
pub proof fn lemma_fifo_order(jobs: Seq<crate::conversion::JobView>, next_id: int, i: int, st: Status, now: int, k: int)
    requires
        table_ok(jobs, next_id),
        is_next_eligible(jobs, i),
        st.is_terminal(),
        is_next_eligible(jobs.update(i, with_status(jobs[i], st, now)), k),
    ensures
        jobs[i].time_requested <= jobs[k].time_requested,
        k != i,
{
    let after = jobs.update(i, with_status(jobs[i], st, now));
    assert(after[k].is_active());
    assert(k != i);
    assert(jobs[k] == after[k]);
    assert(jobs[k].is_active());
}

} // verus!
