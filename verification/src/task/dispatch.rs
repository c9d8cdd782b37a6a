//! Admission to the run queues, retirement, and the choice of the thread
//! that runs next.

use vstd::prelude::*;
use crate::task::irql::{ContextSwitch, Irql, ProcessorIndex};
use crate::task::model::{SchedulerView, Source};
use crate::task::priority::{Priority, SchedulerState};
use crate::task::scheduler::Scheduler;
use crate::task::thread::{lemma_index_unique, ThreadHandle};
use crate::task::timer::{TimeSpec, Timer};

verus! {

impl Scheduler {
    /// Puts a thread at the end of the queue of its band: the realtime queue
    /// for `Realtime`, the normal queue for `High`, `Normal` and `Low`. This
    /// is the second step of an admission: the thread bears the queued mark
    /// already, and it alone bears one without waiting in a queue.
    pub fn _enqueue(&mut self, handle: ThreadHandle)
        requires
            old(self)@.wf_core(),
            old(self)@.marks_accounted(Some(handle)),
            old(self)@.ready_to_enqueue(handle),
        ensures
            final(self).wf(),
            final(self)@ == old(self)@.enqueue(handle),
    {
        let realtime = match self.threads.get(handle) {
            Some(thread) => thread.priority == Priority::Realtime,
            None => false,
        };
        proof {
            SchedulerView::lemma_enqueue_wf(self@, handle);
            SchedulerView::lemma_enqueue_consistent(self@, handle);
        }
        if realtime {
            let r = self.queue_realtime.enqueue(handle);
            assert(r.is_ok());
        } else {
            let r = self.queue_normal.enqueue(handle);
            assert(r.is_ok());
        }
        assert(self@ =~= old(self)@.enqueue(handle));
    }

    /// Sets the queued mark of the thread at position `k` of the registry.
    fn set_queued(&mut self, k: usize, queued: bool)
        requires
            old(self).threads.wf(),
            k < old(self).threads@.len(),
        ensures
            final(self)@ == old(self)@.mark(old(self).threads@[k as int].handle, queued),
    {
        proof {
            lemma_index_unique(self.threads@, self.threads@[k as int].handle, k as int);
        }
        self.threads.data[k].attribute.queued = queued;
        assert(self@ =~= old(self)@.mark(old(self).threads@[k as int].handle, queued));
    }

    /// Whether a processor runs the thread or lets it retire.
    pub fn is_held(&self, thread: ThreadHandle) -> (r: bool)
        ensures
            r == self@.held(thread),
    {
        let mut c: usize = 0;
        while c < self.locals.len()
            invariant
                c <= self.locals@.len(),
                forall|i: int|
                    0 <= i < c ==> (#[trigger] self.locals@[i]).current != thread
                        && self.locals@[i].retired != Some(thread),
            decreases self.locals@.len() - c,
        {
            let held = self.locals[c].current == thread || match self.locals[c].retired {
                Some(r) => r == thread,
                None => false,
            };
            if held {
                return true;
            }
            c = c + 1;
        }
        false
    }

    /// Offers a thread to the run queues. A thread is admitted, marked as
    /// queued and put at the end of the queue of its band, unless its
    /// priority is `Idle`, it is a zombie, it sleeps, it waits in a queue
    /// already, or a processor runs it or lets it retire.
    pub fn add(&mut self, thread: ThreadHandle)
        requires
            old(self).wf(),
            old(self).threads.contains(thread),
        ensures
            final(self).wf(),
            final(self)@ == old(self)@.add(thread),
    {
        proof {
            SchedulerView::lemma_add_wf(self@, thread);
            SchedulerView::lemma_mark_set(self@, thread);
        }
        let k = match self.threads.find(thread) {
            Some(k) => k,
            None => {
                return ;
            },
        };
        if self.threads.data[k].priority == Priority::Idle
            || self.threads.data[k].attribute.zombie || self.threads.data[k].attribute.queued
            || self.threads.data[k].is_asleep() {
            return ;
        }
        if !self.is_held(thread) {
            self.set_queued(k, true);
            self._enqueue(thread);
        }
    }

    /// Disposes of a thread that a processor has let go: an idle thread and
    /// a sleeping thread stay off the queues, a zombie is destroyed, and any
    /// other thread is marked as queued and goes to the end of the queue of
    /// its band.
    pub fn retire(&mut self, thread: ThreadHandle)
        requires
            old(self).wf(),
            old(self)@.released(thread),
        ensures
            final(self).wf(),
            final(self)@ == old(self)@.retire(thread),
    {
        proof {
            SchedulerView::lemma_retire_wf(self@, thread);
            SchedulerView::lemma_retire_consistent(self@, thread);
            SchedulerView::lemma_mark_set(self@, thread);
        }
        let k = match self.threads.find(thread) {
            Some(k) => k,
            None => {
                return ;
            },
        };
        if self.threads.data[k].priority == Priority::Idle {
            self.set_queued(k, false);
        } else if self.threads.data[k].attribute.zombie {
            self.threads.remove(thread);
            assert(self@ =~= old(self)@.retire(thread));
        } else if self.threads.data[k].is_asleep() {
            self.set_queued(k, false);
        } else {
            self.set_queued(k, true);
            self._enqueue(thread);
        }
    }
}

impl Scheduler {
    /// Takes the thread of the given source for processor `cpu`.
    fn take_from(&mut self, cpu: ProcessorIndex, src: Source) -> (r: ThreadHandle)
        requires
            old(self).wf(),
            cpu.0 < old(self).locals@.len(),
            old(self)@.source_ready(src),
        ensures
            final(self).wf(),
            final(self)@ == old(self)@.take(src),
            r == old(self)@.head(cpu.0 as int, src),
    {
        proof {
            SchedulerView::lemma_take_wf(self@, cpu.0 as int, src);
            SchedulerView::lemma_take_consistent(self@, cpu.0 as int, src);
        }
        let taken = match src {
            Source::Idle => None,
            Source::Realtime => self.queue_realtime.dequeue(),
            Source::Urgent => self.queue_urgent.dequeue(),
            Source::Normal => self.queue_normal.dequeue(),
        };
        assert(self@ =~= old(self)@.without_head(src));
        match taken {
            Some(h) => {
                match self.threads.find(h) {
                    Some(k) => {
                        self.set_queued(k, false);
                    },
                    None => {},
                }
                h
            },
            None => self.locals[cpu.0].idle,
        }
    }

    /// Picks the source of the next thread for processor `index` when any
    /// thread will do.
    fn pick_source(&self, index: ProcessorIndex) -> (r: Option<Source>)
        requires
            index.0 < self.locals@.len(),
        ensures
            r == self@.next_source(index.0 as int),
    {
        if self.is_stalled_processor(index) {
            Some(Source::Idle)
        } else if self.queue_realtime.0.len() > 0 {
            Some(Source::Realtime)
        } else if self.queue_urgent.0.len() > 0 {
            Some(Source::Urgent)
        } else if self.queue_normal.0.len() > 0 {
            Some(Source::Normal)
        } else {
            None
        }
    }

    /// Takes the next thread for processor `index` from the run queues: the
    /// idle thread on a stalled processor, else the head of the first queue
    /// that is not empty, realtime before urgent before normal. A thread
    /// that leaves its queue loses its queued mark.
    pub fn _next_thread(&mut self, index: ProcessorIndex) -> (r: Option<ThreadHandle>)
        requires
            old(self).wf(),
            index.0 < old(self).locals@.len(),
        ensures
            final(self).wf(),
            match old(self)@.next_source(index.0 as int) {
                Some(src) => r == Some(old(self)@.head(index.0 as int, src)) && final(self)@ == old(
                    self,
                )@.take(src),
                None => r.is_none() && final(self)@ == old(self)@,
            },
            r matches Some(h) ==> h == old(self).locals@[index.0 as int].idle || (
            !final(self)@.enqueued(h) && !final(self).threads.record(h).attribute.queued),
    {
        proof {
            match self@.next_source(index.0 as int) {
                Some(src) => {
                    SchedulerView::lemma_take_wf(self@, index.0 as int, src);
                },
                None => {},
            }
        }
        match self.pick_source(index) {
            Some(src) => Some(self.take_from(index, src)),
            None => None,
        }
    }

    /// Begins the switch of processor `cpu` to `next`: raises the level to
    /// `Dispatch`, lets the running thread retire and makes `next` the
    /// running thread. If `next` runs already, the level goes back to what
    /// it was and nothing changes. The level of the processor is not above
    /// `Dispatch`; where the running thread has to retire, no retirement is
    /// in flight, and `next` is the processor's idle thread or a thread
    /// that is fit to run.
    pub fn switch_context(&mut self, cpu: ProcessorIndex, next: ThreadHandle) -> (r: Option<
        ContextSwitch,
    >)
        requires
            old(self).wf(),
            cpu.0 < old(self).locals@.len(),
            old(self).locals@[cpu.0 as int].irql.level() <= Irql::Dispatch.level(),
            next != old(self).locals@[cpu.0 as int].current ==> old(self)@.can_switch(cpu.0 as int)
                && (next == old(self).locals@[cpu.0 as int].idle || old(self)@.ready_to_run(next)),
        ensures
            final(self).wf(),
            final(self)@ == old(self)@.switch_to(cpu.0 as int, next),
            r == old(self)@.switch_action(cpu.0 as int, next),
    {
        proof {
            if next != self.locals@[cpu.0 as int].current {
                SchedulerView::lemma_switch_wf(self@, cpu.0 as int, next);
            }
            SchedulerView::lemma_switch_consistent(self@, cpu.0 as int, next);
        }
        let old_irql = self.locals[cpu.0].raise_irql(Irql::Dispatch);
        let current = self.locals[cpu.0].current_thread();
        if current != next {
            self.locals[cpu.0].set_retired(current);
            self.locals[cpu.0].current = next;
            assert(self@ =~= old(self)@.switch_to(cpu.0 as int, next));
            Some(ContextSwitch { from: current, to: next, irql: old_irql })
        } else {
            self.locals[cpu.0].lower_irql(old_irql);
            assert(self@ =~= old(self)@.switch_to(cpu.0 as int, next));
            None
        }
    }

    /// Takes the thread of the given source and begins the switch to it.
    fn dispatch_from(&mut self, cpu: ProcessorIndex, src: Source) -> (r: Option<ContextSwitch>)
        requires
            old(self).wf(),
            old(self)@.can_switch(cpu.0 as int),
            old(self)@.source_ready(src),
        ensures
            final(self).wf(),
            final(self)@ == old(self)@.dispatch(cpu.0 as int, src).0,
            r == old(self)@.dispatch(cpu.0 as int, src).1,
    {
        proof {
            SchedulerView::lemma_dispatch_wf(self@, cpu.0 as int, src);
            SchedulerView::lemma_take_wf(self@, cpu.0 as int, src);
        }
        let next = self.take_from(cpu, src);
        self.switch_context(cpu, next)
    }

    /// Picks the source that preempts the thread on processor `cpu`, if any.
    fn pick_preempt_source(&self, cpu: ProcessorIndex) -> (r: Option<Source>)
        requires
            self.wf(),
            cpu.0 < self.locals@.len(),
        ensures
            r == self@.preempt_source(cpu.0 as int),
    {
        let current = self.locals[cpu.0].current;
        assert(self@.wf_local(cpu.0 as int));
        let priority = match self.threads.get(current) {
            Some(thread) => thread.priority,
            None => Priority::Idle,
        };
        if self.is_frozen {
            Some(Source::Idle)
        } else if priority == Priority::Realtime {
            None
        } else if self.is_stalled_processor(cpu) {
            Some(Source::Idle)
        } else if self.queue_realtime.0.len() > 0 {
            Some(Source::Realtime)
        } else if priority.is_below(Priority::High) && self.queue_urgent.0.len() > 0 {
            Some(Source::Urgent)
        } else if priority.is_below(Priority::Normal) && self.queue_normal.0.len() > 0 {
            Some(Source::Normal)
        } else {
            None
        }
    }

    /// Signals the timer thread if the earliest pending deadline has passed
    /// at `now`.
    fn check_timer(&mut self, now: TimeSpec)
        ensures
            final(self)@ == old(self)@.check_timer(now),
    {
        if Timer::from_isize(self.next_timer).is_expired_at(now) {
            self.sem_timer.signal();
        }
    }

    /// Spends a tick of the quantum of the thread at position `k` of the
    /// registry; tells whether it was the last one.
    fn consume_quantum(&mut self, k: usize) -> (exhausted: bool)
        requires
            old(self).threads.wf(),
            k < old(self).threads@.len(),
        ensures
            final(self)@ == old(self)@.consume_quantum(old(self).threads@[k as int].handle),
            exhausted == old(self).threads@[k as int].quantum.is_last_tick(),
    {
        proof {
            lemma_index_unique(self.threads@, self.threads@[k as int].handle, k as int);
        }
        let exhausted = self.threads.data[k].quantum.consume();
        assert(self@ =~= old(self)@.consume_quantum(old(self).threads@[k as int].handle));
        exhausted
    }

    /// Preempts the thread on processor `cpu`, at interrupt time or when a
    /// thread yields. The running thread is charged for its time; the timer
    /// thread is signalled if a deadline has passed; then the processor
    /// switches to its idle thread if the system is frozen or the processor
    /// stalled, to a thread of a higher band if one waits, or, when the
    /// running thread's quantum is used up, to the next thread that waits.
    /// A realtime thread is never preempted. Returns the switch the caller
    /// has to perform, if any. While the scheduler is disabled nothing
    /// happens.
    pub fn reschedule(&mut self, cpu: ProcessorIndex, now: TimeSpec) -> (r: Option<ContextSwitch>)
        requires
            old(self).wf(),
            old(self).state != SchedulerState::Disabled ==> old(self)@.can_switch(cpu.0 as int),
        ensures
            final(self).wf(),
            final(self)@ == old(self)@.reschedule(cpu.0 as int, now).0,
            r == old(self)@.reschedule(cpu.0 as int, now).1,
    {
        if !self.is_enabled() {
            return None;
        }
        proof {
            SchedulerView::lemma_reschedule_consistent(self@, cpu.0 as int, now);
            SchedulerView::lemma_reschedule_wf(self@, cpu.0 as int, now);
            SchedulerView::lemma_update_statistics_wf(
                self@,
                self.locals@[cpu.0 as int].current,
                now,
            );
            assert(self@.wf_local(cpu.0 as int));
        }
        let current = self.locals[cpu.0].current;
        current.update_statistics(self, now);
        self.check_timer(now);
        proof {
            SchedulerView::lemma_same_but_flags(
                old(self)@.update_statistics(current, now),
                self@,
            );
        }
        match self.pick_preempt_source(cpu) {
            Some(src) => self.dispatch_from(cpu, src),
            None => {
                let k = match self.threads.find(current) {
                    Some(k) => k,
                    None => {
                        return None;
                    },
                };
                if self.threads.data[k].priority == Priority::Realtime {
                    return None;
                }
                proof {
                    SchedulerView::lemma_consume_quantum_wf(self@, current);
                }
                if self.consume_quantum(k) {
                    match self.pick_source(cpu) {
                        Some(src) => self.dispatch_from(cpu, src),
                        None => None,
                    }
                } else {
                    None
                }
            },
        }
    }
}

impl Scheduler {
    /// Finishes the switch that processor `cpu` began, once the registers of
    /// the thread that runs now are in place: stamps that thread with the
    /// clock sample `now`, disposes of the thread that retired, and lowers
    /// the level to `irql`, the level at which the thread that runs now once
    /// began its own switch.
    pub fn switch_context_after(&mut self, cpu: ProcessorIndex, irql: Irql, now: TimeSpec)
        requires
            old(self).wf(),
            old(self)@.can_finish_switch(cpu.0 as int, irql),
        ensures
            final(self).wf(),
            final(self)@ == old(self)@.switch_context_after(cpu.0 as int, irql, now),
    {
        proof {
            SchedulerView::lemma_switch_context_after_consistent(
                    self@,
                    cpu.0 as int,
                    irql,
                    now,
                );
            SchedulerView::lemma_switch_context_after_wf(self@, cpu.0 as int, irql, now);
            assert(self@.wf_local(cpu.0 as int));
        }
        let current = self.locals[cpu.0].current_thread();
        match self.threads.find(current) {
            Some(k) => {
                self.threads.data[k].measure = now.ticks();
            },
            None => {},
        }
        assert(self@ =~= old(self)@.stamp(current, now));
        let retired = self.locals[cpu.0].take_retired();
        self.locals[cpu.0].lower_irql(irql);
        assert(self@ =~= old(self)@.stamp(current, now).with_slot_cleared(cpu.0 as int, irql));
        match retired {
            Some(thread) => {
                self.retire(thread);
            },
            None => {},
        }
    }

    /// The thread on processor `cpu` gives up the processor: it is charged
    /// for its time, and the processor switches to the next thread that
    /// waits, or to its idle thread if none does.
    pub fn yield_thread(&mut self, cpu: ProcessorIndex, now: TimeSpec) -> (r: Option<ContextSwitch>)
        requires
            old(self).wf(),
            old(self)@.can_switch(cpu.0 as int),
        ensures
            final(self).wf(),
            final(self)@ == old(self)@.yield_thread(cpu.0 as int, now).0,
            r == old(self)@.yield_thread(cpu.0 as int, now).1,
    {
        proof {
            SchedulerView::lemma_yield_consistent(self@, cpu.0 as int, now);
            SchedulerView::lemma_yield_wf(self@, cpu.0 as int, now);
        }
        let current = self.locals[cpu.0].current_thread();
        current.update_statistics(self, now);
        match self.pick_source(cpu) {
            Some(src) => self.dispatch_from(cpu, src),
            None => self.dispatch_from(cpu, Source::Idle),
        }
    }

    /// The thread on processor `cpu` goes to sleep: it gives up the
    /// processor, and it stays off the run queues until it is woken as often
    /// as it went to sleep.
    pub fn sleep(&mut self, cpu: ProcessorIndex, now: TimeSpec) -> (r: Option<ContextSwitch>)
        requires
            old(self).wf(),
            old(self)@.can_switch(cpu.0 as int),
        ensures
            final(self).wf(),
            final(self)@ == old(self)@.sleep(cpu.0 as int, now).0,
            r == old(self)@.sleep(cpu.0 as int, now).1,
    {
        proof {
            SchedulerView::lemma_sleep_consistent(self@, cpu.0 as int, now);
            SchedulerView::lemma_yield_wf(self@, cpu.0 as int, now);
            SchedulerView::lemma_sleep_wf(self@, cpu.0 as int, now);
        }
        let current = self.locals[cpu.0].current_thread();
        let action = self.yield_thread(cpu, now);
        match self.threads.find(current) {
            Some(k) => {
                if self.threads.data[k].sleep_counter < isize::MAX {
                    self.threads.data[k].sleep_counter = self.threads.data[k].sleep_counter + 1;
                }
            },
            None => {},
        }
        assert(self@ =~= old(self)@.sleep(cpu.0 as int, now).0);
        action
    }
}

impl ThreadHandle {
    /// Charges the time since its last accounting to the thread, at the
    /// clock sample `now`. Does nothing if the thread is not registered.
    pub fn update_statistics(&self, scheduler: &mut Scheduler, now: TimeSpec)
        requires
            old(scheduler).threads.wf(),
        ensures
            final(scheduler)@ == old(scheduler)@.update_statistics(*self, now),
    {
        let k = match scheduler.threads.find(*self) {
            Some(k) => k,
            None => {
                return ;
            },
        };
        scheduler.threads.data[k].account(now.ticks());
        assert(scheduler@ =~= old(scheduler)@.update_statistics(*self, now));
    }

    /// Wakes the thread: its sleep counter goes down by one unless it is
    /// zero, and the thread is offered to the run queues. Does nothing if the
    /// thread is not registered.
    pub fn wake(&self, scheduler: &mut Scheduler)
        requires
            old(scheduler).wf(),
        ensures
            final(scheduler).wf(),
            final(scheduler)@ == old(scheduler)@.wake(*self),
    {
        proof {
            SchedulerView::lemma_wake_consistent(scheduler@, *self);
            SchedulerView::lemma_wake_wf(scheduler@, *self);
        }
        let k = match scheduler.threads.find(*self) {
            Some(k) => k,
            None => {
                return ;
            },
        };
        if scheduler.threads.data[k].sleep_counter > 0 {
            scheduler.threads.data[k].sleep_counter = scheduler.threads.data[k].sleep_counter - 1;
            assert(scheduler@ =~= old(scheduler)@.with_sleep_counter(
                *self,
                (old(scheduler).threads@[k as int].sleep_counter - 1) as isize,
            ));
        }
        scheduler.add(*self);
    }
}

/// What a thread does first when it runs for the first time on processor
/// `cpu`: it finishes the switch that brought it there, down to the level
/// `Passive`.
pub fn setup_new_thread(scheduler: &mut Scheduler, cpu: ProcessorIndex, now: TimeSpec)
    requires
        old(scheduler).wf(),
        old(scheduler)@.can_finish_switch(cpu.0 as int, Irql::Passive),
    ensures
        final(scheduler).wf(),
        final(scheduler)@ == old(scheduler)@.switch_context_after(cpu.0 as int, Irql::Passive, now),
{
    scheduler.switch_context_after(cpu, Irql::Passive, now)
}

impl Irql {
    /// The level of processor `cpu`; `Passive` if there is no such
    /// processor.
    pub fn current(scheduler: &Scheduler, cpu: ProcessorIndex) -> (r: Irql)
        ensures
            r == if cpu.0 < scheduler.locals@.len() {
                scheduler.locals@[cpu.0 as int].irql
            } else {
                Irql::Passive
            },
    {
        match scheduler.local_scheduler(cpu) {
            Some(local) => local.current_irql(),
            None => Irql::Passive,
        }
    }

    /// Runs `f` with the level of processor `cpu` raised to `self`, which
    /// is not below the level the processor has, and puts the level back to
    /// what it was, whatever `f` returns. Without such a processor `f` just
    /// runs.
    pub fn raise<F, R>(&self, scheduler: &mut Scheduler, cpu: ProcessorIndex, f: F) -> (r: R) where
        F: FnOnce() -> R,

        requires
            f.requires(()),
            cpu.0 < old(scheduler).locals@.len() ==> old(
                scheduler,
            ).locals@[cpu.0 as int].irql.level() <= self.level(),
        ensures
            final(scheduler)@ == old(scheduler)@,
            f.ensures((), r),
    {
        if cpu.0 < scheduler.locals.len() {
            let old_irql = scheduler.locals[cpu.0].raise_irql(*self);
            let r = f();
            scheduler.locals[cpu.0].lower_irql(old_irql);
            assert(scheduler@ =~= old(scheduler)@);
            r
        } else {
            f()
        }
    }
}

} // verus!
