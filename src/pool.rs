//! The coordinator's decisions: how many workers to run, what a run yields
//! once every worker has been joined, and the throughput figure it reports.
use crate::worker::Match;
use vstd::prelude::*;

verus! {

/// How one worker's thread ended, as seen when it is joined.
#[derive(Clone, Copy, Debug, PartialEq, Eq)]
pub enum WorkerExit {
    /// The worker reached its stopped state, with its match if it won.
    Finished(Option<Match>),
    /// The worker's thread terminated abnormally and could not be joined.
    Panicked,
}

/// Why a run failed.
#[derive(Clone, Copy, Debug, PartialEq, Eq)]
pub enum RunError {
    /// The worker at this index terminated abnormally.
    WorkerPanicked { index: usize },
}

/// The number of workers to run on `available` logical processors: all but
/// one, which is left to the coordinator, and never fewer than one.
pub fn worker_count(available: usize) -> (r: usize)
    ensures
        available >= 2 ==> r == available - 1,
        available < 2 ==> r == 1,
{
    if available >= 2 {
        available - 1
    } else {
        1
    }
}

/// The result of a run whose workers ended as `exits` says, in spawn order.
/// The first abnormal exit is a fatal error; otherwise the run yields the
/// first reported match, if any.
pub fn settle(exits: &Vec<WorkerExit>) -> (r: Result<Option<Match>, RunError>)
    ensures
        r matches Err(RunError::WorkerPanicked { index }) ==> {
            &&& index < exits@.len()
            &&& exits@[index as int] is Panicked
            &&& forall|j: int| 0 <= j < index ==> exits@[j] is Finished
        },
        r is Err <==> exists|i: int| 0 <= i < exits@.len() && exits@[i] is Panicked,
        r matches Ok(Some(m)) ==> exists|i: int|
            #![trigger exits@[i]]
            0 <= i < exits@.len() && exits@[i] == WorkerExit::Finished(Some(m)) && forall|j: int|
                0 <= j < i ==> exits@[j] == WorkerExit::Finished(None),
        r == Ok::<Option<Match>, RunError>(None) <==> forall|i: int|
            0 <= i < exits@.len() ==> exits@[i] == WorkerExit::Finished(None),
{
    let mut found: Option<Match> = None;
    let mut found_at: usize = 0;
    let mut i: usize = 0;
    while i < exits.len()
        invariant
            i <= exits@.len(),
            forall|j: int| 0 <= j < i ==> exits@[j] is Finished,
            found is None ==> forall|j: int|
                0 <= j < i ==> exits@[j] == WorkerExit::Finished(None),
            found matches Some(m) ==> {
                &&& found_at < i
                &&& exits@[found_at as int] == WorkerExit::Finished(Some(m))
                &&& forall|j: int| 0 <= j < found_at ==> exits@[j] == WorkerExit::Finished(None)
            },
        decreases exits@.len() - i,
    {
        match exits[i] {
            WorkerExit::Panicked => {
                return Err(RunError::WorkerPanicked { index: i });
            },
            WorkerExit::Finished(reported) => {
                if found.is_none() {
                    if let Some(m) = reported {
                        found = Some(m);
                        found_at = i;
                    }
                }
            },
        }
        i = i + 1;
    }
    if let Some(m) = found {
        assert(exits@[found_at as int] == WorkerExit::Finished(Some(m)));
    }
    Ok(found)
}

/// The mean time of one iteration, in nanoseconds, over `iterations`
/// iterations that took `elapsed_nanos` in all; `None` when there were none.
pub fn average_nanos(elapsed_nanos: u64, iterations: u64) -> (r: Option<u64>)
    ensures
        r is None <==> iterations == 0,
        r matches Some(v) ==> v == elapsed_nanos / iterations,
{
    if iterations == 0 {
        None
    } else {
        Some(elapsed_nanos / iterations)
    }
}

} // verus!
