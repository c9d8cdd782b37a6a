//! The scheduler: three run queues, one local scheduler per processor, the
//! registries of threads and processes, and the timer list.

use vstd::prelude::*;
use crate::sync::{ConcurrentFifo, Semaphore};
use crate::task::irql::{LocalScheduler, ProcessorCoreType, ProcessorIndex};
use crate::task::priority::SchedulerState;
use crate::task::process::{ProcessId, ProcessPool};
use crate::task::thread::{ThreadHandle, ThreadPool};
use crate::task::model::SchedulerView;
use crate::task::timer::TimerEvent;

verus! {

/// Load per performance core, in per mille, above which the scheduler goes
/// to full throttle.
pub const THRESHOLD_ENTER_MAX: usize = 950;

/// Load per performance core, in per mille, below which the scheduler leaves
/// full throttle.
pub const THRESHOLD_LEAVE_MAX: usize = 666;

/// Capacity of the realtime and the urgent queue.
pub const SIZE_OF_SUB_QUEUE: usize = 63;

/// Capacity of the normal queue.
pub const SIZE_OF_MAIN_QUEUE: usize = 255;

/// Capacity of the queue of timer events waiting to be sorted in.
pub const SIZE_OF_TIMER_QUEUE: usize = 100;

/// A run queue: thread handles, oldest first.
pub struct ThreadQueue(pub ConcurrentFifo<ThreadHandle>);

impl View for ThreadQueue {
    type V = Seq<ThreadHandle>;

    open spec fn view(&self) -> Seq<ThreadHandle> {
        self.0@
    }
}

impl ThreadQueue {
    pub fn with_capacity(capacity: usize) -> (r: Self)
        ensures
            r@ == Seq::<ThreadHandle>::empty(),
            r.0.capacity == capacity,
            r.0.wf(),
    {
        ThreadQueue(ConcurrentFifo::with_capacity(capacity))
    }

    /// Takes the oldest handle, if there is one.
    pub fn dequeue(&mut self) -> (r: Option<ThreadHandle>)
        requires
            old(self).0.wf(),
        ensures
            final(self).0.wf(),
            final(self).0.capacity == old(self).0.capacity,
            old(self)@.len() == 0 ==> r.is_none() && final(self)@ == old(self)@,
            old(self)@.len() > 0 ==> r == Some(old(self)@[0]) && final(self)@ == old(
                self,
            )@.drop_first(),
    {
        self.0.dequeue()
    }

    /// Appends a handle; fails when the queue is full.
    pub fn enqueue(&mut self, data: ThreadHandle) -> (r: Result<(), ()>)
        requires
            old(self).0.wf(),
        ensures
            final(self).0.wf(),
            final(self).0.capacity == old(self).0.capacity,
            old(self).0.is_full() ==> r.is_err() && final(self)@ == old(self)@,
            !old(self).0.is_full() ==> r.is_ok() && final(self)@ == old(self)@.push(data),
    {
        match self.0.enqueue(data) {
            Ok(()) => Ok(()),
            Err(_) => Err(()),
        }
    }
}

/// The scheduler of the whole machine.
pub struct Scheduler {
    pub state: SchedulerState,
    pub queue_realtime: ThreadQueue,
    pub queue_urgent: ThreadQueue,
    pub queue_normal: ThreadQueue,
    /// One local scheduler per active processor, by processor index.
    pub locals: Vec<LocalScheduler>,
    pub num_of_performance_cpus: usize,
    /// Load per processor in per mille, as of the last statistics pass.
    pub usage: usize,
    /// Load of all processors in per mille, as of the last statistics pass.
    pub usage_total: usize,
    pub is_frozen: bool,
    /// Deadline of the earliest pending timer event.
    pub next_timer: isize,
    /// Signalled when the timer thread has something to do.
    pub sem_timer: Semaphore,
    /// Timer events registered and not yet sorted in.
    pub timer_queue: ConcurrentFifo<TimerEvent>,
    /// Timer events sorted in, earliest deadline first.
    pub events: Vec<TimerEvent>,
    pub threads: ThreadPool,
    pub processes: ProcessPool,
    /// The handle the next thread gets.
    pub next_thread_id: usize,
    /// The identifier the next process gets.
    pub next_pid: usize,
}

impl View for Scheduler {
    type V = SchedulerView;

    open spec fn view(&self) -> SchedulerView {
        SchedulerView {
            state: self.state,
            queue_realtime: self.queue_realtime@,
            queue_urgent: self.queue_urgent@,
            queue_normal: self.queue_normal@,
            cap_realtime: self.queue_realtime.0.capacity,
            cap_urgent: self.queue_urgent.0.capacity,
            cap_normal: self.queue_normal.0.capacity,
            locals: self.locals@,
            num_of_performance_cpus: self.num_of_performance_cpus,
            usage: self.usage,
            usage_total: self.usage_total,
            is_frozen: self.is_frozen,
            next_timer: self.next_timer,
            sem_timer: self.sem_timer,
            timer_queue: self.timer_queue@,
            cap_timer: self.timer_queue.capacity,
            events: self.events@,
            threads: self.threads@,
            processes: self.processes@,
            next_thread_id: self.next_thread_id,
            next_pid: self.next_pid,
        }
    }
}

impl Scheduler {
    /// The invariant of the scheduler. Every operation keeps it.
    pub open spec fn wf(&self) -> bool {
        self@.wf()
    }

    /// Whether the scheduler is running.
    pub fn is_enabled(&self) -> (r: bool)
        ensures
            r == (self.state != SchedulerState::Disabled),
    {
        match self.state {
            SchedulerState::Disabled => false,
            _ => true,
        }
    }

    /// The current state of the scheduler.
    pub fn current_state(&self) -> (r: SchedulerState)
        ensures
            r == self.state,
    {
        self.state
    }

    pub fn set_current_state(&mut self, val: SchedulerState)
        ensures
            final(self)@ == (SchedulerView { state: val, ..old(self)@ }),
    {
        self.state = val;
    }

    /// Load per processor in per mille, as of the last statistics pass.
    pub fn usage_per_cpu(&self) -> (r: usize)
        ensures
            r == self.usage,
    {
        self.usage
    }

    /// Load of all processors in per mille, as of the last statistics pass.
    pub fn usage_total(&self) -> (r: usize)
        ensures
            r == self.usage_total,
    {
        self.usage_total
    }

    /// The local scheduler of the given processor, if there is such a
    /// processor.
    pub fn local_scheduler(&self, cpu: ProcessorIndex) -> (r: Option<&LocalScheduler>)
        ensures
            r.is_some() == (cpu.0 < self.locals@.len()),
            r.is_some() ==> *r.unwrap() == self.locals@[cpu.0 as int],
    {
        if cpu.0 < self.locals.len() {
            Some(&self.locals[cpu.0])
        } else {
            None
        }
    }

    /// The thread that runs on the given processor.
    pub fn current_thread(&self, cpu: ProcessorIndex) -> (r: Option<ThreadHandle>)
        ensures
            r == if cpu.0 < self.locals@.len() {
                Some(self.locals@[cpu.0 as int].current)
            } else {
                None
            },
    {
        match self.local_scheduler(cpu) {
            Some(local) => Some(local.current_thread()),
            None => None,
        }
    }

    pub fn current_pid(&self, cpu: ProcessorIndex) -> (r: ProcessId)
        requires
            self.threads.wf(),
        ensures
            r == self@.spec_current_pid(cpu),
    {
        if self.is_enabled() {
            match self.current_thread(cpu) {
                Some(thread) => match self.threads.get(thread) {
                    Some(data) => data.pid,
                    None => ProcessId(0),
                },
                None => ProcessId(0),
            }
        } else {
            ProcessId(0)
        }
    }

    pub fn is_stalled_processor(&self, index: ProcessorIndex) -> (r: bool)
        requires
            index.0 < self.locals@.len(),
        ensures
            r == self@.stalled(index.0 as int),
    {
        let full = match self.state {
            SchedulerState::FullThrottle => true,
            _ => false,
        };
        let sub = match self.locals[index.0].core_type {
            ProcessorCoreType::Sub => true,
            _ => false,
        };
        self.is_frozen || (!full && sub)
    }

}

} // verus!
