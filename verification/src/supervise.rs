//! Supervision of a batch of worker driving tasks.
//!
//! Each worker is driven to completion by its own task; a task either
//! finishes with the worker's result or faults unexpectedly. A faulting
//! task must never be silently swallowed or allowed to take the process
//! down: the batch summary converts every fault into a single aggregate
//! error that identifies the offending workers by id. Only when no task
//! faulted does the first worker error (in batch order) surface, and only
//! when every worker finished cleanly is the batch a success.

use vstd::prelude::*;
use crate::worker::WorkerError;

verus! {

/// How one worker's driving task ended: it faulted unexpectedly, or it
/// finished and handed back the worker's own completion result.
#[derive(Debug)]
pub enum DriveOutcome {
    Faulted,
    Finished(Result<(), WorkerError>),
}

/// The ids of the workers whose driving tasks faulted, in batch order.
pub open spec fn faulted_ids(s: Seq<(u64, DriveOutcome)>) -> Seq<u64>
    decreases s.len(),
{
    if s.len() == 0 {
        Seq::empty()
    } else {
        faulted_ids(s.drop_last()) + (if s.last().1 is Faulted {
            seq![s.last().0]
        } else {
            Seq::empty()
        })
    }
}

/// The driving task at position `k` finished with a worker error.
pub open spec fn is_err_at(s: Seq<(u64, DriveOutcome)>, k: int) -> bool {
    s[k].1 matches DriveOutcome::Finished(Err(_))
}

/// `r` is the error of the first task that finished with one: every earlier
/// task finished cleanly or faulted, and position `j` holds exactly `r`.
pub open spec fn first_error_at(
    s: Seq<(u64, DriveOutcome)>,
    j: int,
    r: Result<(), WorkerError>,
) -> bool {
    &&& 0 <= j < s.len()
    &&& forall|k: int| 0 <= k < j ==> !is_err_at(s, k)
    &&& s[j].1 matches DriveOutcome::Finished(Err(e)) && r == Result::<(), WorkerError>::Err(e)
}

/// Summarize a batch of driving tasks, one `(worker id, outcome)` pair per
/// worker. If any task faulted, the summary is a `DriveTaskFailure` naming
/// every faulted worker's id, in order. Otherwise the first worker error in
/// the batch is returned, and if there is none the batch succeeded.
pub fn summarize_drive_results(results: Vec<(u64, DriveOutcome)>) -> (r: Result<(), WorkerError>)
    ensures
        faulted_ids(results@).len() > 0 ==> (r matches Err(e) && e matches
            WorkerError::DriveTaskFailure(ids) && ids@ == faulted_ids(results@)),
        faulted_ids(results@).len() == 0 && (forall|k: int|
            0 <= k < results@.len() ==> !is_err_at(results@, k)) ==> r is Ok,
        faulted_ids(results@).len() == 0 && (exists|k: int|
            0 <= k < results@.len() && is_err_at(results@, k)) ==> (exists|j: int|
            first_error_at(results@, j, r)),
{
    let ghost all = results@;
    let mut rest = results;
    let total = rest.len();
    let mut faulted: Vec<u64> = Vec::new();
    let mut first_err: Option<WorkerError> = None;
    let ghost mut err_idx: int = 0;
    let mut i: usize = 0;
    while rest.len() > 0
        invariant
            total == all.len(),
            i + rest@.len() == all.len(),
            rest@ == all.subrange(i as int, all.len() as int),
            faulted@ == faulted_ids(all.subrange(0, i as int)),
            first_err is None ==> forall|k: int| 0 <= k < i ==> !is_err_at(all, k),
            first_err matches Some(e) ==> first_error_at(all, err_idx, Result::<
                (),
                WorkerError,
            >::Err(e)) && err_idx < i,
        decreases rest@.len(),
    {
        let pair = rest.remove(0);
        proof {
            assert(all.subrange(i as int, all.len() as int).remove(0) =~= all.subrange(
                i as int + 1,
                all.len() as int,
            ));
            assert(pair == all[i as int]);
            let p1 = all.subrange(0, i as int + 1);
            assert(p1.drop_last() =~= all.subrange(0, i as int));
            assert(p1.last() == all[i as int]);
        }
        match pair.1 {
            DriveOutcome::Faulted => {
                faulted.push(pair.0);
            },
            DriveOutcome::Finished(res) => {
                match res {
                    Ok(()) => {},
                    Err(e) => {
                        if first_err.is_none() {
                            first_err = Some(e);
                            proof {
                                err_idx = i as int;
                            }
                        }
                    },
                }
            },
        }
        proof {
            let p1 = all.subrange(0, i as int + 1);
            assert(faulted@ =~= faulted_ids(p1));
        }
        i = i + 1;
    }
    proof {
        assert(all.subrange(0, all.len() as int) =~= all);
    }
    if faulted.len() > 0 {
        Err(WorkerError::DriveTaskFailure(faulted))
    } else {
        match first_err {
            Some(e) => {
                proof {
                    assert(first_error_at(all, err_idx, Result::<(), WorkerError>::Err(e)));
                    assert(is_err_at(all, err_idx));
                }
                Err(e)
            },
            None => Ok(()),
        }
    }
}

} // verus!
