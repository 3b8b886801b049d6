//! A task that a worker runs: a function called once, with nothing in and
//! nothing out.
use vstd::prelude::*;

verus! {

/// Represents a task to be executed by a worker.
pub struct WorkerTask<F: FnOnce() + Send + 'static> {
    task_fn: F,
}

impl<F: FnOnce() + Send + 'static> WorkerTask<F> {
    /// The function the task will call.
    pub closed spec fn task(&self) -> F {
        self.task_fn
    }

    /// A task that will call `task_fn`.
    pub fn new(task_fn: F) -> (task: Self)
        ensures
            task.task() == task_fn,
    {
        WorkerTask { task_fn }
    }

    /// Runs the task: calls its function once, consuming the task so that it
    /// cannot run again.
    pub fn run(self)
        requires
            call_requires(self.task(), ()),
        ensures
            call_ensures(self.task(), (), ()),
    {
        (self.task_fn)()
    }
}

} // verus!
