//! What the scheduler guarantees, stated over its mathematical state and
//! proved from the invariant.

use vstd::prelude::*;
use crate::task::irql::{ContextSwitch, Irql, ProcessorIndex};
use crate::task::lifecycle::SpawnOption;
use crate::task::process::{
    lemma_process_index_unique, process_pool_contains, process_pool_index, process_pool_record,
    process_pool_wf,
};
use crate::task::thread::ThreadStart;
use crate::task::model::{SchedulerView, Source};
use crate::task::priority::{Priority, SchedulerState};
use crate::task::thread::{
    pool_contains, pool_index, pool_record, ThreadContextData, ThreadHandle,
};
use crate::task::timer::TimeSpec;

verus! {

impl SchedulerView {
    /// Realtime threads go first. When a realtime thread waits and
    /// processor `cpu` is free to take it (the scheduler runs, the
    /// processor is not stalled and runs no realtime thread itself), then
    /// rescheduling the processor dispatches the head of the realtime queue,
    /// which is a realtime thread, whatever waits in the other queues. The
    /// same holds when the running thread yields.
    pub proof fn lemma_realtime_first(self, cpu: int, now: TimeSpec)
        requires
            self.wf(),
            self.can_switch(cpu),
            self.state != SchedulerState::Disabled,
            !self.stalled(cpu),
            self.queue_realtime.len() > 0,
            pool_record(self.threads, self.locals[cpu].current).priority != Priority::Realtime,
        ensures
            pool_record(self.threads, self.queue_realtime[0]).priority == Priority::Realtime,
            self.reschedule(cpu, now).1 == Some(
                ContextSwitch {
                    from: self.locals[cpu].current,
                    to: self.queue_realtime[0],
                    irql: self.locals[cpu].irql,
                },
            ),
            self.reschedule(cpu, now).0.locals[cpu].current == self.queue_realtime[0],
            self.yield_thread(cpu, now).1 == self.reschedule(cpu, now).1,
            self.yield_thread(cpu, now).0.locals[cpu].current == self.queue_realtime[0],
    {
        let current = self.locals[cpu].current;
        let head = self.queue_realtime[0];
        assert(self.wf_local(cpu));
        assert(self.wf_queue(self.queue_realtime, true));
        assert(self.queue_entry_ok(self.queue_realtime[0], true));
        Self::lemma_update_statistics_wf(self, current, now);
        let s1 = self.update_statistics(current, now);
        let s = s1.check_timer(now);
        if pool_contains(self.threads, current) {
            let k = pool_index(self.threads, current);
            Self::lemma_update_frame(self, s1, k);
        }
        assert(s.locals == self.locals);
        assert(s.queue_realtime == self.queue_realtime);
        assert(pool_record(s.threads, current).priority == pool_record(
            self.threads,
            current,
        ).priority);
        assert(s.preempt_source(cpu) == Some(Source::Realtime));
        assert(s1.next_source(cpu) == Some(Source::Realtime));
        assert(self.held(current));
        assert(head != current);
    }

    /// No idle thread comes out of a run queue: in a state that meets the
    /// invariant, no thread with the priority `Idle` waits in a queue, so
    /// none of the three queues ever gives one.
    pub proof fn lemma_no_idle_dequeued(self, h: ThreadHandle)
        requires
            self.wf(),
            self.enqueued(h),
        ensures
            pool_contains(self.threads, h),
            pool_record(self.threads, h).priority != Priority::Idle,
            pool_record(self.threads, h).sleep_counter == 0,
            !pool_record(self.threads, h).attribute.zombie,
    {
        assert(self.wf_queue(self.queue_realtime, true));
        assert(self.wf_queue(self.queue_normal, false));
        if self.queue_realtime.contains(h) {
            let i = choose|i: int| 0 <= i < self.queue_realtime.len() && self.queue_realtime[i] == h;
            assert(self.queue_entry_ok(self.queue_realtime[i], true));
        } else {
            let i = choose|i: int| 0 <= i < self.queue_normal.len() && self.queue_normal[i] == h;
            assert(self.queue_entry_ok(self.queue_normal[i], false));
        }
    }

    /// The thread a queue gives to a processor never has the priority
    /// `Idle`.
    pub proof fn lemma_source_never_idle(self, cpu: int, src: Source)
        requires
            self.wf(),
            0 <= cpu < self.locals.len(),
            src != Source::Idle,
            self.source_ready(src),
        ensures
            pool_record(self.threads, self.head(cpu, src)).priority != Priority::Idle,
    {
        let h = self.head(cpu, src);
        match src {
            Source::Realtime => {
                assert(self.queue_realtime[0] == h);
                assert(self.queue_realtime.contains(h));
            },
            Source::Normal => {
                assert(self.queue_normal[0] == h);
                assert(self.queue_normal.contains(h));
            },
            _ => {},
        }
        self.lemma_no_idle_dequeued(h);
    }

    /// A registered thread is marked as queued exactly when its handle waits
    /// in a run queue, and then it waits in one place only: no queue holds a
    /// handle twice and no two queues hold the same handle. A handle in a
    /// queue belongs to a registered thread, and a thread that a processor
    /// runs or lets retire waits in no queue and bears no mark.
    pub proof fn lemma_queued_exclusive(self, h: ThreadHandle)
        requires
            self.wf(),
        ensures
            self.queue_realtime.no_duplicates(),
            self.queue_urgent.no_duplicates(),
            self.queue_normal.no_duplicates(),
            !(self.queue_realtime.contains(h) && self.queue_normal.contains(h)),
            !(self.queue_realtime.contains(h) && self.queue_urgent.contains(h)),
            !(self.queue_urgent.contains(h) && self.queue_normal.contains(h)),
            self.enqueued(h) ==> pool_contains(self.threads, h),
            pool_contains(self.threads, h) ==> (pool_record(self.threads, h).attribute.queued
                <==> self.enqueued(h)),
            self.held(h) ==> !self.enqueued(h) && !pool_record(self.threads, h).attribute.queued,
    {
        assert(self.wf_queue(self.queue_realtime, true));
        assert(self.wf_queue(self.queue_normal, false));
        if self.queue_realtime.contains(h) {
            let i = choose|i: int| 0 <= i < self.queue_realtime.len() && self.queue_realtime[i] == h;
            assert(self.queue_entry_ok(self.queue_realtime[i], true));
        }
        if self.queue_normal.contains(h) {
            let i = choose|i: int| 0 <= i < self.queue_normal.len() && self.queue_normal[i] == h;
            assert(self.queue_entry_ok(self.queue_normal[i], false));
        }
        if pool_contains(self.threads, h) {
            let k = pool_index(self.threads, h);
            assert(self.threads[k].handle == h);
        }
        if self.held(h) {
            let c = choose|c: int|
                0 <= c < self.locals.len() && ((#[trigger] self.locals[c]).current == h
                    || self.locals[c].retired == Some(h));
            assert(self.wf_local(c));
        }
    }

    /// The thread that a queue gives has left all queues and has lost its
    /// queued mark; every other thread keeps its place and its mark.
    pub proof fn lemma_dequeue_clears_mark(self, cpu: int, src: Source)
        requires
            self.wf(),
            0 <= cpu < self.locals.len(),
            src != Source::Idle,
            self.source_ready(src),
        ensures
            self.take(src).wf(),
            pool_contains(self.take(src).threads, self.head(cpu, src)),
            !self.take(src).enqueued(self.head(cpu, src)),
            !pool_record(self.take(src).threads, self.head(cpu, src)).attribute.queued,
            forall|x: ThreadHandle|
                pool_contains(self.threads, x) && x != self.head(cpu, src) ==> #[trigger] pool_record(
                    self.take(src).threads,
                    x,
                ) == pool_record(self.threads, x),
    {
        Self::lemma_take_wf(self, cpu, src);
        Self::lemma_take_consistent(self, cpu, src);
    }

    /// A thread that is admitted is marked as queued and waits, once, at
    /// the end of the queue of its band: the realtime queue for `Realtime`,
    /// the normal queue for `High`, `Normal` and `Low`. A thread is admitted
    /// if it is registered, of a priority that is scheduled, no zombie,
    /// awake, in no queue and on no processor.
    pub proof fn lemma_add_enqueues(self, h: ThreadHandle)
        requires
            self.wf(),
            pool_contains(self.threads, h),
            self.admits(h),
        ensures
            self.add(h).wf(),
            pool_contains(self.add(h).threads, h),
            pool_record(self.add(h).threads, h) == pool_record(self.threads, h).with_queued(true),
            !self.enqueued(h),
            self.add(h).queue_urgent == self.queue_urgent,
            pool_record(self.threads, h).priority == Priority::Realtime ==> self.add(
                h,
            ).queue_realtime == self.queue_realtime.push(h) && self.add(h).queue_normal
                == self.queue_normal,
            pool_record(self.threads, h).priority != Priority::Realtime ==> self.add(
                h,
            ).queue_normal == self.queue_normal.push(h) && self.add(h).queue_realtime
                == self.queue_realtime,
    {
        let k = pool_index(self.threads, h);
        let mid = self.mark(h, true);
        Self::lemma_add_wf(self, h);
        Self::lemma_add_consistent(self, h);
        Self::lemma_update_frame(self, mid, k);
        self.lemma_unmarked_is_free(h);
    }

    /// Waking a thread that went to sleep more than once takes one from its
    /// sleep counter and leaves the thread off the run queues: only the
    /// wake-up that brings the counter to zero makes it wait for a
    /// processor.
    pub proof fn lemma_wake_counts_down(self, h: ThreadHandle)
        requires
            self.wf(),
            pool_contains(self.threads, h),
            pool_record(self.threads, h).sleep_counter >= 2,
        ensures
            self.wake(h).wf(),
            pool_contains(self.wake(h).threads, h),
            pool_record(self.wake(h).threads, h) == (ThreadContextData {
                sleep_counter: (pool_record(self.threads, h).sleep_counter - 1) as isize,
                ..pool_record(self.threads, h)
            }),
            !self.wake(h).enqueued(h),
            self.wake(h).queue_realtime == self.queue_realtime,
            self.wake(h).queue_urgent == self.queue_urgent,
            self.wake(h).queue_normal == self.queue_normal,
    {
        let k = pool_index(self.threads, h);
        let t = pool_record(self.threads, h);
        let mid = self.with_sleep_counter(h, (t.sleep_counter - 1) as isize);
        Self::lemma_wake_wf(self, h);
        Self::lemma_wake_consistent(self, h);
        Self::lemma_update_frame(self, mid, k);
        assert(!mid.admits(h));
        assert(self.wake(h) == mid);
        self.lemma_asleep_is_off_the_queues(h);
    }

    /// A thread that sleeps waits in no run queue.
    pub proof fn lemma_asleep_is_off_the_queues(self, h: ThreadHandle)
        requires
            self.wf(),
            pool_record(self.threads, h).sleep_counter != 0,
        ensures
            !self.enqueued(h),
    {
        if self.enqueued(h) {
            self.lemma_no_idle_dequeued(h);
        }
    }

    /// Rescheduling processor `cpu` takes the next thread from the normal
    /// queue: the scheduler runs, the processor is not stalled, no thread
    /// waits in the realtime or the urgent queue, one waits in the normal
    /// queue, and the running thread is below `Normal` or at the last tick
    /// of its quantum, and no realtime thread.
    pub open spec fn favors_normal(self, cpu: int) -> bool {
        let t = pool_record(self.threads, self.locals[cpu].current);
        &&& self.state != SchedulerState::Disabled
        &&& !self.stalled(cpu)
        &&& self.queue_realtime.len() == 0
        &&& self.queue_urgent.len() == 0
        &&& self.queue_normal.len() > 0
        &&& t.priority != Priority::Realtime
        &&& (t.priority.level() < Priority::Normal.level() || t.quantum.is_last_tick())
    }

    /// One turn of the round robin on processor `cpu`: the processor
    /// reschedules, and the switch it began is finished at the level `irql`.
    pub open spec fn turn(self, cpu: int, irql: Irql, now: TimeSpec) -> SchedulerView {
        self.reschedule(cpu, now).0.switch_context_after(cpu, irql, now)
    }

    /// `n` turns of the round robin on processor `cpu`.
    pub open spec fn turns(self, cpu: int, irql: Irql, now: TimeSpec, n: nat) -> SchedulerView
        decreases n,
    {
        if n == 0 {
            self
        } else {
            self.turn(cpu, irql, now).turns(cpu, irql, now, (n - 1) as nat)
        }
    }

    /// One turn that favors the normal queue runs the head of that queue,
    /// and every other thread in the queue moves up by one place.
    pub proof fn lemma_turn(self, cpu: int, irql: Irql, now: TimeSpec)
        requires
            self.wf(),
            self.can_switch(cpu),
            irql.level() <= Irql::Dispatch.level(),
            self.favors_normal(cpu),
        ensures
            self.turn(cpu, irql, now).wf(),
            self.turn(cpu, irql, now).can_switch(cpu),
            self.turn(cpu, irql, now).locals[cpu].current == self.queue_normal[0],
            self.turn(cpu, irql, now).queue_normal.len() >= self.queue_normal.len() - 1,
            forall|i: int|
                0 <= i < self.queue_normal.len() - 1 ==> #[trigger] self.turn(
                    cpu,
                    irql,
                    now,
                ).queue_normal[i] == self.queue_normal[i + 1],
    {
        let current = self.locals[cpu].current;
        let head = self.queue_normal[0];
        assert(self.wf_local(cpu));
        assert(self.wf_queue(self.queue_normal, false));
        assert(self.queue_entry_ok(self.queue_normal[0], false));
        assert(self.held(current));
        assert(head != current);
        Self::lemma_update_statistics_wf(self, current, now);
        let s1 = self.update_statistics(current, now);
        let s = s1.check_timer(now);
        let k = pool_index(self.threads, current);
        Self::lemma_update_frame(self, s1, k);
        Self::lemma_same_but_flags(s1, s);
        assert(s.locals == self.locals);
        assert(s.queue_normal == self.queue_normal);
        assert(pool_record(s.threads, current).priority == pool_record(
            self.threads,
            current,
        ).priority);
        assert(pool_record(s.threads, current).quantum == pool_record(
            self.threads,
            current,
        ).quantum);
        Self::lemma_reschedule_wf(self, cpu, now);
        Self::lemma_reschedule_consistent(self, cpu, now);
        let r = self.reschedule(cpu, now).0;
        // Either way the normal queue gives its head and the processor
        // switches to it.
        let base = if s.preempt_source(cpu) == Some(Source::Normal) {
            s
        } else {
            s.consume_quantum(current)
        };
        if s.preempt_source(cpu) != Some(Source::Normal) {
            assert(s.preempt_source(cpu).is_none());
            assert(s.spends_quantum(cpu));
            Self::lemma_consume_quantum_wf(s, current);
            assert(base.next_source(cpu) == Some(Source::Normal));
        }
        assert(base.wf_core());
        assert(base.locals == self.locals);
        assert(base.queue_normal == self.queue_normal);
        assert(r == base.dispatch(cpu, Source::Normal).0);
        Self::lemma_dispatch_wf(base, cpu, Source::Normal);
        assert(r.locals[cpu].current == head);
        assert(r.locals[cpu].retired == Some(current));
        assert(r.locals[cpu].irql == Irql::Dispatch);
        assert(r.queue_normal == self.queue_normal.drop_first());
        assert(r.can_finish_switch(cpu, irql));
        Self::lemma_switch_context_after_wf(r, cpu, irql, now);
        Self::lemma_switch_context_after_consistent(r, cpu, irql, now);
        let stamped = r.stamp(head, now);
        let cleared = stamped.with_slot_cleared(cpu, irql);
        assert(cleared.queue_normal == self.queue_normal.drop_first());
        assert(cleared.locals[cpu].current == head);
        let post = cleared.retire(current);
        assert(post.locals == cleared.locals);
        let t = pool_record(cleared.threads, current);
        if t.priority == Priority::Idle {
        } else if t.attribute.zombie {
        } else if t.sleep_counter > 0 {
        } else {
            let marked = cleared.mark(current, true);
            assert(marked.queue_normal == cleared.queue_normal);
        }
        assert forall|i: int| 0 <= i < self.queue_normal.len() - 1 implies #[trigger] post.queue_normal[i]
            == self.queue_normal[i + 1] by {
            assert(cleared.queue_normal[i] == self.queue_normal[i + 1]);
        }
    }

    /// The round robin is fair. A thread at place `k` of the normal queue
    /// runs on processor `cpu` after `k + 1` turns of that processor, if each
    /// of those turns favors the normal queue. With `n` threads in the
    /// normal band, one of which runs, a thread that waits is at a place
    /// below `n - 1`, so it runs within `n` turns.
    pub proof fn lemma_round_robin(self, cpu: int, irql: Irql, now: TimeSpec, k: nat)
        requires
            self.wf(),
            self.can_switch(cpu),
            irql.level() <= Irql::Dispatch.level(),
            k < self.queue_normal.len(),
            forall|j: nat| j <= k ==> (#[trigger] self.turns(cpu, irql, now, j)).favors_normal(cpu),
        ensures
            self.turns(cpu, irql, now, k + 1).locals[cpu].current == self.queue_normal[k as int],
            self.turns(cpu, irql, now, k + 1).wf(),
        decreases k,
    {
        assert(self.turns(cpu, irql, now, 0) == self);
        self.lemma_turn(cpu, irql, now);
        let next = self.turn(cpu, irql, now);
        if k == 0 {
            assert(self.turns(cpu, irql, now, 1) == next.turns(cpu, irql, now, 0));
        } else {
            assert forall|j: nat| j <= k - 1 implies (#[trigger] next.turns(
                cpu,
                irql,
                now,
                j,
            )).favors_normal(cpu) by {
                assert(self.turns(cpu, irql, now, j + 1) == next.turns(cpu, irql, now, j));
            }
            assert(next.queue_normal[k - 1] == self.queue_normal[k as int]);
            next.lemma_round_robin(cpu, irql, now, (k - 1) as nat);
            assert(self.turns(cpu, irql, now, k + 1) == next.turns(cpu, irql, now, k));
        }
    }

    /// With `n` threads in the normal band, one of which runs on processor
    /// `cpu`, fewer than `n` threads wait in the normal queue. So, by
    /// `lemma_round_robin`, each of them runs within `n` turns.
    pub proof fn lemma_round_robin_bound(self, cpu: int)
        requires
            self.wf(),
            0 <= cpu < self.locals.len(),
            pool_record(self.threads, self.locals[cpu].current).priority != Priority::Idle,
            pool_record(self.threads, self.locals[cpu].current).priority != Priority::Realtime,
        ensures
            self.band_handles(false).finite(),
            self.queue_normal.len() < self.band_handles(false).len(),
    {
        let current = self.locals[cpu].current;
        assert(self.wf_local(cpu));
        assert(self.held(current));
        assert(self.wf_queue(self.queue_normal, false));
        assert(self.band_handles(false).contains(current));
        assert forall|i: int| 0 <= i < self.queue_normal.len() implies self.band_handles(
            false,
        ).contains(#[trigger] self.queue_normal[i]) by {
            assert(self.queue_entry_ok(self.queue_normal[i], false));
        }
        assert(!self.queue_normal.contains(current)) by {
            if self.queue_normal.contains(current) {
                let i = choose|i: int|
                    0 <= i < self.queue_normal.len() && self.queue_normal[i] == current;
                assert(self.queue_entry_ok(self.queue_normal[i], false));
            }
        }
        Self::lemma_queue_has_room(self.queue_normal, self.band_handles(false), current);
    }

    /// Handles are issued in increasing order and never twice: the handle of
    /// a thread that was spawned is larger than that of every thread that
    /// was registered before, and was no handle of any of them.
    pub proof fn lemma_handles_are_fresh(
        pre: SchedulerView,
        post: SchedulerView,
        cpu: ProcessorIndex,
        start: ThreadStart,
        name: Seq<char>,
        options: SpawnOption,
        now: TimeSpec,
        h: ThreadHandle,
    )
        requires
            pre.wf(),
            Self::spawned(pre, post, cpu, start, name, options, now, Some(h)),
        ensures
            !pool_contains(pre.threads, h),
            pool_contains(post.threads, h),
            forall|i: int| 0 <= i < pre.threads.len() ==> (#[trigger] pre.threads[i]).handle.0 < h.0,
            h.0 != 0,
    {
        if pool_contains(pre.threads, h) {
            let i = pool_index(pre.threads, h);
            assert(pre.threads[i].handle.0 < pre.next_thread_id);
        }
        assert forall|i: int| 0 <= i < pre.threads.len() implies (
        #[trigger] pre.threads[i]).handle.0 < h.0 by {
            assert(pre.threads[i].handle.0 < pre.next_thread_id);
        }
    }

    /// A process is reaped with its last thread. When the thread on
    /// processor `cpu` exits and its process counts no other thread, the
    /// process has left the registry afterwards, and the record that is
    /// handed to whoever waits for it has its semaphore signalled once more
    /// than before. When the process counts other threads, it stays, with
    /// one thread less and its semaphore untouched.
    pub proof fn lemma_exit_reaps_process(self, cpu: int, now: TimeSpec)
        requires
            self.wf(),
            self.can_switch(cpu),
            process_pool_contains(
                self.processes,
                pool_record(self.threads, self.locals[cpu].current).pid,
            ),
        ensures
            ({
                let pid = pool_record(self.threads, self.locals[cpu].current).pid;
                let p = process_pool_record(self.processes, pid);
                let post = self.exit(cpu, now).0;
                &&& p.n_threads == 1 ==> !process_pool_contains(post.processes, pid)
                    && self.exited_process(pid).is_some() && self.exited_process(
                    pid,
                ).unwrap().sem == p.sem.signaled() && self.exited_process(pid).unwrap().pid == pid
                &&& p.n_threads != 1 ==> process_pool_contains(post.processes, pid)
                    && process_pool_record(post.processes, pid).sem == p.sem
                    && process_pool_record(post.processes, pid).n_threads
                    == p.n_threads.wrapping_sub(1) && self.exited_process(pid).is_none()
            }),
    {
        let t = self.locals[cpu].current;
        assert(self.wf_local(cpu));
        Self::lemma_yield_wf(self, cpu, now);
        Self::lemma_exit_wf(self, cpu, now);
        let pid = pool_record(self.threads, t).pid;
        let slept = self.sleep(cpu, now).0;
        let y = self.yield_thread(cpu, now).0;
        let k = pool_index(y.threads, t);
        crate::task::thread::lemma_update_same_handle(y.threads, slept.threads, k);
        let rec = pool_record(slept.threads, t);
        assert(rec.pid == pid);
        let marked = slept.with_thread(t, Self::exited_thread(rec));
        assert(marked.processes == self.processes);
        let post = marked.leave_process(pid);
        let kp = process_pool_index(self.processes, pid);
        let p = process_pool_record(self.processes, pid);
        if p.n_threads == 1 {
            if process_pool_contains(post.processes, pid) {
                let i = process_pool_index(post.processes, pid);
                let i2 = if i < kp { i } else { i + 1 };
                assert(post.processes[i] == self.processes[i2]);
                if i2 < kp {
                    assert(self.processes[i2].pid.0 < self.processes[kp].pid.0);
                } else {
                    assert(self.processes[kp].pid.0 < self.processes[i2].pid.0);
                }
            }
        } else {
            assert(post.processes[kp].pid == pid);
            assert(process_pool_wf(post.processes)) by {
                assert forall|i: int, j: int| 0 <= i < j < post.processes.len() implies (
                #[trigger] post.processes[i]).pid.0 < (#[trigger] post.processes[j]).pid.0 by {
                    assert(self.processes[i].pid.0 < self.processes[j].pid.0);
                }
            }
            lemma_process_index_unique(post.processes, pid, kp);
        }
    }
}

} // verus!
