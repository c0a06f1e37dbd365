//! The waiting side of the bridge.

use vstd::prelude::*;

verus! {

/// Parks the task that runs the loop until a notifier wakes it.
///
/// The value carries no state: every waiter is the same waiter, and a task
/// may make a fresh one each time it parks.
#[derive(Clone, Copy, Debug, PartialEq, Eq, Structural)]
pub struct CurrentTaskWait;

impl CurrentTaskWait {
    /// The waiter of the calling task.
    pub fn new() -> (waiter: Self)
        ensures
            waiter == CurrentTaskWait,
    {
        CurrentTaskWait
    }
}

} // verus!
