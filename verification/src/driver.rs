use vstd::prelude::*;

use crate::errors::Error;

verus! {

/// What the driver does when one of its spawned tasks settles: keep waiting
/// for the rest, or cancel every still-running sibling and report the error.
#[derive(Debug, PartialEq, Eq)]
pub enum DriverAction {
    AwaitMore,
    CancelRemaining { cancelled: usize, error: Error },
}

/// The join-until-first-failure policy, one settled task at a time: a task
/// that finished without error keeps the driver waiting; the first task that
/// failed makes it cancel all `still_running` siblings and return exactly
/// that task's error.
pub fn on_task_settled(result: Result<(), Error>, still_running: usize) -> (r: DriverAction)
    ensures
        match result {
            Ok(_) => r == DriverAction::AwaitMore,
            Err(e) => r == (DriverAction::CancelRemaining { cancelled: still_running, error: e }),
        },
{
    match result {
        Ok(_) => DriverAction::AwaitMore,
        Err(e) => DriverAction::CancelRemaining { cancelled: still_running, error: e },
    }
}

/// The first failure among the task results, in settlement order, or success
/// when every task succeeded. Failures after the first are discarded.
pub open spec fn first_err(results: Seq<Result<(), Error>>) -> Result<(), Error>
    decreases results.len(),
{
    if results.len() == 0 {
        Ok(())
    } else {
        match results[0] {
            Err(e) => Err(e),
            Ok(_) => first_err(results.drop_first()),
        }
    }
}

/// Aggregates the results of all spawned tasks as the driver does: the whole
/// run succeeds only when every task succeeded, and otherwise reports
/// exactly the first observed failure.
pub fn join_results(results: Vec<Result<(), Error>>) -> (r: Result<(), Error>)
    ensures
        r == first_err(results@),
{
    let mut rem = results;
    loop
        invariant
            first_err(results@) == first_err(rem@),
        ensures
            rem@.len() == 0,
            first_err(results@) == first_err(rem@),
        decreases rem@.len(),
    {
        if rem.len() == 0 {
            break ;
        }
        let ghost rem0: Seq<Result<(), Error>> = rem@;
        let next = rem.remove(0);
        proof {
            assert(rem0.drop_first() =~= rem@);
        }
        match next {
            Ok(_) => {},
            Err(e) => {
                return Err(e);
            },
        }
    }
    Ok(())
}

} // verus!
