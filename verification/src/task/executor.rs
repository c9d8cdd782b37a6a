//! What a thread may carry besides its own state: a personality and a
//! cooperative task executor. Both are opaque to the scheduler.

use vstd::prelude::*;

verus! {

/// Per-thread extension owned by the execution environment that runs the
/// thread. The scheduler only stores it and hands it back on exit.
#[derive(Debug, Copy, Clone, PartialEq, Eq, Structural)]
pub struct PersonalityContext {
    pub id: usize,
}

/// A cooperative task, identified by an integer chosen by its creator.
#[derive(Debug, Copy, Clone, PartialEq, Eq, Structural)]
pub struct Task {
    pub id: usize,
}

impl Task {
    pub fn new(id: usize) -> (r: Self)
        ensures
            r.id == id,
    {
        Task { id }
    }
}

/// Single-threaded task executor: the tasks handed to it, in arrival order.
pub struct Executor {
    pub tasks: Vec<Task>,
}

impl View for Executor {
    type V = Seq<Task>;

    open spec fn view(&self) -> Seq<Task> {
        self.tasks@
    }
}

impl Executor {
    pub fn new() -> (r: Self)
        ensures
            r@ == Seq::<Task>::empty(),
    {
        Executor { tasks: Vec::new() }
    }

    /// Hands a task to the executor.
    pub fn spawn(&mut self, task: Task)
        ensures
            final(self)@ == old(self)@.push(task),
    {
        self.tasks.push(task);
    }

    /// Runs the executor to exhaustion: every task leaves it, in arrival
    /// order.
    pub fn run(&mut self) -> (done: Vec<Task>)
        ensures
            done@ == old(self)@,
            final(self)@ == Seq::<Task>::empty(),
    {
        let mut done: Vec<Task> = Vec::new();
        done.append(&mut self.tasks);
        done
    }
}

} // verus!
