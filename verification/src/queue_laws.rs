use vstd::prelude::*;
use crate::app::{
    claimed, has_status, is_oldest_waiting, is_running, oldest_waiting, running_index, runs_on,
    AppView, JobSignalView,
};
use crate::types::app::{FileStatus, QueueItemView};

verus! {

/// Where a file waits, one of the waiting files is the oldest.
pub proof fn some_waiting_file_is_oldest(queue: Seq<QueueItemView>)
    requires
        has_status(queue, FileStatus::Waiting),
    ensures
        is_oldest_waiting(queue, oldest_waiting(queue)),
{
    let w = choose|i: int| 0 <= i < queue.len() && (#[trigger] queue[i]).status == FileStatus::Waiting;
    first_waiting_up_to(queue, w);
}

proof fn first_waiting_up_to(queue: Seq<QueueItemView>, w: int)
    requires
        0 <= w < queue.len(),
        queue[w].status == FileStatus::Waiting,
    ensures
        exists|i: int| is_oldest_waiting(queue, i),
    decreases w,
{
    if exists|j: int| 0 <= j < w && (#[trigger] queue[j]).status == FileStatus::Waiting {
        let j = choose|j: int| 0 <= j < w && (#[trigger] queue[j]).status == FileStatus::Waiting;
        first_waiting_up_to(queue, j);
    } else {
        assert(is_oldest_waiting(queue, w));
    }
}

/// In a valid state the file that a job runs on is the only one that is
/// being processed.
pub proof fn running_file_is_the_processing_one(state: AppView, path: Seq<char>, i: int)
    requires
        state.wf(),
        runs_on(state.queue, path),
        0 <= i < state.queue.len(),
        state.queue[i].status == FileStatus::Processing,
    ensures
        i == running_index(state.queue, path),
        is_running(state.queue, i, path),
{
    let k = running_index(state.queue, path);
    assert(is_running(state.queue, k, path));
    assert(state.queue[k].status == FileStatus::Processing);
}

/// A claim keeps the state valid.
pub proof fn claim_keeps_validity(state: AppView)
    requires
        state.wf(),
    ensures
        state.after_claim().wf(),
{
    if state.can_claim() {
        some_waiting_file_is_oldest(state.queue);
        let k = oldest_waiting(state.queue);
        let after = state.after_claim().queue;
        assert(after[k].status == FileStatus::Processing);
        assert forall|a: int, b: int|
            0 <= a < after.len() && 0 <= b < after.len() && (#[trigger] after[a]).status
                == FileStatus::Processing && (#[trigger] after[b]).status
                == FileStatus::Processing implies a == b by {
            if a != k {
                assert(state.queue[a].status == FileStatus::Processing);
            }
            if b != k {
                assert(state.queue[b].status == FileStatus::Processing);
            }
        }
        assert forall|a: int|
            0 <= a < after.len() && (#[trigger] after[a]).status
                == FileStatus::Waiting implies after[a].output_size_bytes is None by {
            assert(state.queue[a].status == FileStatus::Waiting);
        }
    }
}

/// The end of a job keeps the state valid.
pub proof fn done_keeps_validity(state: AppView, path: Seq<char>, output_size: Option<u64>)
    requires
        state.wf(),
    ensures
        state.after_done(path, output_size).wf(),
{
    if runs_on(state.queue, path) {
        let k = running_index(state.queue, path);
        assert(is_running(state.queue, k, path));
        let after = state.after_done(path, output_size).queue;
        assert forall|a: int| 0 <= a < after.len() implies (#[trigger] after[a]).status
            != FileStatus::Processing by {
            if a != k {
                if state.queue[a].status == FileStatus::Processing {
                    assert(state.queue[k].status == FileStatus::Processing);
                }
            }
        }
        assert forall|a: int|
            0 <= a < after.len() && (#[trigger] after[a]).status
                == FileStatus::Waiting implies after[a].output_size_bytes is None by {
            assert(state.queue[a].status == FileStatus::Waiting);
        }
    }
}

/// A reported size keeps the state valid.
pub proof fn output_size_keeps_validity(state: AppView, path: Seq<char>, size: u64)
    requires
        state.wf(),
    ensures
        state.after_output_size(path, size).wf(),
{
    if runs_on(state.queue, path) {
        let k = running_index(state.queue, path);
        assert(is_running(state.queue, k, path));
        let after = state.after_output_size(path, size).queue;
        assert forall|a: int| 0 <= a < after.len() implies (#[trigger] after[a]).status
            == state.queue[a].status by {}
        assert(after[k].status == FileStatus::Processing);
        if has_status(after, FileStatus::Processing) {
            assert(state.queue[k].status == FileStatus::Processing);
        }
        assert forall|a: int|
            0 <= a < after.len() && (#[trigger] after[a]).status
                == FileStatus::Waiting implies after[a].output_size_bytes is None by {
            assert(state.queue[a].status == FileStatus::Waiting);
        }
    }
}

/// At most one file is being processed at any time, and the busy flag
/// agrees with it: every step that the state can take keeps it valid.
pub proof fn every_step_keeps_validity(state: AppView, path: Seq<char>, signal: JobSignalView)
    requires
        state.wf(),
    ensures
        state.after_claim().wf(),
        state.after_signal(path, signal).wf(),
        state.after_poll().wf(),
{
    claim_keeps_validity(state);
    match signal {
        JobSignalView::Line(text) => {},
        JobSignalView::OutputSize(size) => {
            output_size_keeps_validity(state, path, size);
        },
        JobSignalView::Done => {
            done_keeps_validity(state, path, None);
        },
    }
    if state.start_next && !state.busy && state.queue.len() > 0 {
        claim_keeps_validity(AppView { start_next: false, ..state });
    }
}

/// Files are claimed in the order in which they were queued. The file
/// that a claim takes waits and no file before it does; the claim leaves
/// every other file as it was; and once the job on that file has ended,
/// the next claim takes a file further back in the queue.
pub proof fn claims_follow_queue_order(state: AppView, output_size: Option<u64>)
    requires
        state.wf(),
        state.can_claim(),
    ensures
        ({
            let first = oldest_waiting(state.queue);
            let running = state.after_claim();
            let ended = running.after_done(state.queue[first].path, output_size);
            &&& is_oldest_waiting(state.queue, first)
            &&& running.queue.len() == state.queue.len()
            &&& running.queue[first] == claimed(state.queue[first])
            &&& forall|j: int|
                0 <= j < state.queue.len() && j != first ==> #[trigger] running.queue[j]
                    == state.queue[j]
            &&& ended.queue[first].status == FileStatus::Done
            &&& ended.can_claim() ==> first < oldest_waiting(ended.queue)
        }),
{
    some_waiting_file_is_oldest(state.queue);
    let first = oldest_waiting(state.queue);
    let running = state.after_claim();
    let path = state.queue[first].path;
    claim_keeps_validity(state);
    assert(is_running(running.queue, first, path));
    running_file_is_the_processing_one(running, path, first);
    let ended = running.after_done(path, output_size);
    assert(ended.queue[first].status == FileStatus::Done);
    if ended.can_claim() {
        some_waiting_file_is_oldest(ended.queue);
        let next = oldest_waiting(ended.queue);
        if next < first {
            assert(ended.queue[next] == state.queue[next]);
            assert(state.queue[next].status != FileStatus::Waiting);
        }
    }
}

/// While a file is being processed no claim succeeds: the claim changes
/// nothing. So of two claims in a row the second finds nothing to take.
pub proof fn no_claim_while_processing(state: AppView)
    requires
        state.wf(),
    ensures
        has_status(state.queue, FileStatus::Processing) ==> !state.can_claim()
            && state.after_claim() == state,
        state.can_claim() ==> !state.after_claim().can_claim(),
        state.after_claim().after_claim() == state.after_claim(),
{
    claim_keeps_validity(state);
    if state.can_claim() {
        some_waiting_file_is_oldest(state.queue);
    }
}

/// The request for the next job is raised by the end of a job and is used
/// once. The end of the running job raises it and lowers the busy flag,
/// and a second end of the same job changes nothing; the redraw that
/// finds the request raised takes it down; and a redraw that finds it
/// down starts nothing and changes nothing, as does the redraw after one
/// that has used it.
pub proof fn next_job_is_requested_once(
    state: AppView,
    path: Seq<char>,
    output_size: Option<u64>,
    repeated: Option<u64>,
)
    requires
        state.wf(),
    ensures
        runs_on(state.queue, path) ==> state.after_done(path, output_size).start_next
            && !state.after_done(path, output_size).busy,
        runs_on(state.queue, path) ==> state.after_done(path, output_size).after_done(
            path,
            repeated,
        ) == state.after_done(path, output_size),
        runs_on(state.queue, path) ==> !state.after_done(path, output_size).after_poll().start_next,
        !state.start_next ==> state.after_poll() == state,
        !state.after_poll().start_next ==> state.after_poll().after_poll() == state.after_poll(),
{
    if runs_on(state.queue, path) {
        let k = running_index(state.queue, path);
        assert(is_running(state.queue, k, path));
        let ended = state.after_done(path, output_size);
        done_keeps_validity(state, path, output_size);
        if runs_on(ended.queue, path) {
            let r = running_index(ended.queue, path);
            assert(is_running(ended.queue, r, path));
            assert(ended.queue[r].status == FileStatus::Processing);
        }
    }
}

/// How far a file has come: a waiting file not at all, a file that is
/// done all the way.
pub open spec fn progress(status: FileStatus) -> int {
    match status {
        FileStatus::Waiting => 0,
        FileStatus::Processing => 1,
        FileStatus::Done => 2,
    }
}

/// The second queue holds every file of the first, at its place, under
/// its path and with its input size, and none has gone back in status.
pub open spec fn moved_forward(before: Seq<QueueItemView>, after: Seq<QueueItemView>) -> bool {
    &&& before.len() <= after.len()
    &&& forall|i: int|
        0 <= i < before.len() ==> {
            &&& (#[trigger] after[i]).path == before[i].path
            &&& after[i].size_bytes == before[i].size_bytes
            &&& progress(before[i].status) <= progress(after[i].status)
        }
}

/// No file is dropped from the queue and none moves backward: whatever
/// step the state takes, every file keeps its place, its path and its
/// input size, and its status stays or moves on.
pub proof fn files_only_move_forward(state: AppView, path: Seq<char>, signal: JobSignalView)
    requires
        state.wf(),
    ensures
        moved_forward(state.queue, state.after_claim().queue),
        moved_forward(state.queue, state.after_signal(path, signal).queue),
        moved_forward(state.queue, state.after_poll().queue),
{
    if state.can_claim() {
        some_waiting_file_is_oldest(state.queue);
    }
    if runs_on(state.queue, path) {
        let k = running_index(state.queue, path);
        assert(is_running(state.queue, k, path));
    }
}

} // verus!
