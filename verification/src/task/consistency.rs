//! The queued mark tells the truth: a thread that bears it waits in a run
//! queue. This module proves that every operation of the scheduler keeps it
//! so.

use vstd::prelude::*;

use crate::task::irql::{Irql, ProcessorCoreType, ProcessorIndex};
use crate::task::lifecycle::SpawnOption;
use crate::task::model::{SchedulerView, Source};
use crate::task::priority::{Priority, SchedulerState};
use crate::task::process::ProcessContextData;
use crate::task::thread::{
    lemma_index_unique,
    lemma_update_same_handle,
    pool_contains,
    pool_index,
    pool_record,
    pool_wf,
    ThreadContextData,
    ThreadHandle,
    ThreadStart,
};
use crate::task::timer::{TimeSpec, Timer, TimerEvent, TimerType};

verus! {

impl SchedulerView {
    /// Two states with the same threads and queues account for the same
    /// marks.
    pub proof fn lemma_same_skeleton(pre: SchedulerView, post: SchedulerView, x: Option<ThreadHandle>)
        requires
            pre.marks_accounted(x),
            post.threads == pre.threads,
            post.queue_realtime == pre.queue_realtime,
            post.queue_urgent == pre.queue_urgent,
            post.queue_normal == pre.queue_normal,
        ensures
            post.marks_accounted(x),
    {
        assert forall|i: int|
            0 <= i < post.threads.len() && (#[trigger] post.threads[i]).attribute.queued && Some(
                post.threads[i].handle,
            ) != x implies post.enqueued(post.threads[i].handle) by {
            assert(pre.enqueued(pre.threads[i].handle));
        }
    }

    /// A change to one thread record that leaves its handle alone and does
    /// not set its queued mark does not change which marks are accounted
    /// for.
    pub proof fn lemma_update_consistent(
        pre: SchedulerView,
        post: SchedulerView,
        k: int,
        x: Option<ThreadHandle>,
    )
        requires
            pre.marks_accounted(x),
            0 <= k < pre.threads.len(),
            post == (SchedulerView { threads: post.threads, ..pre }),
            post.threads.len() == pre.threads.len(),
            post.threads[k].handle == pre.threads[k].handle,
            post.threads[k].attribute.queued ==> pre.threads[k].attribute.queued,
            forall|i: int| 0 <= i < pre.threads.len() && i != k ==> post.threads[i] == pre.threads[i],
        ensures
            post.marks_accounted(x),
    {
        assert forall|i: int|
            0 <= i < post.threads.len() && (#[trigger] post.threads[i]).attribute.queued && Some(
                post.threads[i].handle,
            ) != x implies post.enqueued(post.threads[i].handle) by {
            assert(pre.threads[i].attribute.queued);
            assert(pre.enqueued(pre.threads[i].handle));
        }
    }

    /// Appending a thread to the queue of its band accounts for its mark and
    /// loses none.
    pub proof fn lemma_enqueue_consistent(pre: SchedulerView, h: ThreadHandle)
        requires
            pre.marks_accounted(Some(h)),
        ensures
            pre.enqueue(h).consistent(),
    {
        let post = pre.enqueue(h);
        assert forall|i: int|
            0 <= i < post.threads.len() && (#[trigger] post.threads[i]).attribute.queued implies post.enqueued(
            post.threads[i].handle,
        ) by {
            let y = pre.threads[i].handle;
            if y == h {
                if crate::task::model::is_realtime(pool_record(pre.threads, h).priority) {
                    assert(post.queue_realtime[pre.queue_realtime.len() as int] == h);
                } else {
                    assert(post.queue_normal[pre.queue_normal.len() as int] == h);
                }
            } else {
                assert(pre.enqueued(y));
                if pre.queue_realtime.contains(y) {
                    let j = choose|j: int|
                        0 <= j < pre.queue_realtime.len() && pre.queue_realtime[j] == y;
                    assert(post.queue_realtime[j] == y);
                } else if pre.queue_normal.contains(y) {
                    let j = choose|j: int|
                        0 <= j < pre.queue_normal.len() && pre.queue_normal[j] == y;
                    assert(post.queue_normal[j] == y);
                }
            }
        }
    }

    /// Setting the queued mark of one thread leaves every other mark
    /// accounted for.
    pub proof fn lemma_mark_set(pre: SchedulerView, h: ThreadHandle)
        requires
            pool_wf(pre.threads),
            pool_contains(pre.threads, h),
            pre.marks_accounted(Some(h)),
        ensures
            pre.mark(h, true).marks_accounted(Some(h)),
    {
        let k = pool_index(pre.threads, h);
        let mid = pre.mark(h, true);
        lemma_update_same_handle(pre.threads, mid.threads, k);
        assert forall|i: int|
            0 <= i < mid.threads.len() && (#[trigger] mid.threads[i]).attribute.queued && Some(
                mid.threads[i].handle,
            ) != Some(h) implies mid.enqueued(mid.threads[i].handle) by {
            assert(i != k);
            assert(pre.threads[i].attribute.queued);
            assert(pre.enqueued(pre.threads[i].handle));
        }
    }

    /// Clearing the queued mark of a thread that alone may bear it without
    /// waiting accounts for every mark.
    pub proof fn lemma_mark_cleared(pre: SchedulerView, h: ThreadHandle)
        requires
            pool_wf(pre.threads),
            pool_contains(pre.threads, h),
            pre.marks_accounted(Some(h)),
        ensures
            pre.mark(h, false).consistent(),
    {
        let k = pool_index(pre.threads, h);
        let post = pre.mark(h, false);
        lemma_update_same_handle(pre.threads, post.threads, k);
        assert forall|i: int|
            0 <= i < post.threads.len() && (#[trigger] post.threads[i]).attribute.queued implies post.enqueued(
            post.threads[i].handle,
        ) by {
            assert(i != k);
            if pre.threads[i].handle == h {
                lemma_index_unique(pre.threads, h, i);
            }
            assert(pre.threads[i].attribute.queued);
            assert(pre.enqueued(pre.threads[i].handle));
        }
    }

    /// Offering a thread to the run queues keeps the marks accounted for.
    pub proof fn lemma_add_consistent(pre: SchedulerView, h: ThreadHandle)
        requires
            pool_wf(pre.threads),
            pool_contains(pre.threads, h),
            pre.consistent(),
        ensures
            pre.add(h).consistent(),
    {
        if pre.admits(h) {
            Self::lemma_mark_set(pre, h);
            Self::lemma_enqueue_consistent(pre.mark(h, true), h);
        }
    }

    /// Disposing of a released thread accounts for every mark, if every mark
    /// but that of the thread was accounted for.
    pub proof fn lemma_retire_consistent(pre: SchedulerView, h: ThreadHandle)
        requires
            pre.wf_core(),
            pre.released(h),
            pre.marks_accounted(Some(h)),
        ensures
            pre.retire(h).consistent(),
    {
        let k = pool_index(pre.threads, h);
        let t = pool_record(pre.threads, h);
        lemma_index_unique(pre.threads, h, k);
        if t.priority != Priority::Idle && t.attribute.zombie {
            let post = pre.retire(h);
            assert forall|i: int|
                0 <= i < post.threads.len() && (#[trigger] post.threads[i]).attribute.queued implies post.enqueued(
                post.threads[i].handle,
            ) by {
                let i2 = if i < k { i } else { i + 1 };
                assert(post.threads[i] == pre.threads[i2]);
                if i2 < k {
                    assert(pre.threads[i2].handle.0 < pre.threads[k].handle.0);
                } else {
                    assert(pre.threads[k].handle.0 < pre.threads[i2].handle.0);
                }
                assert(pre.threads[i2].attribute.queued);
                assert(pre.enqueued(pre.threads[i2].handle));
            }
        } else if t.priority == Priority::Idle || t.sleep_counter > 0 {
            Self::lemma_mark_cleared(pre, h);
        } else {
            Self::lemma_mark_set(pre, h);
            Self::lemma_enqueue_consistent(pre.mark(h, true), h);
        }
    }

    /// Taking the thread of a source keeps the marks accounted for: the
    /// thread that leaves its queue loses its mark.
    pub proof fn lemma_take_consistent(pre: SchedulerView, cpu: int, src: Source)
        requires
            pre.wf_core(),
            pre.consistent(),
            0 <= cpu < pre.locals.len(),
            pre.source_ready(src),
        ensures
            pre.take(src).consistent(),
    {
        if src != Source::Idle {
            let x = pre.head(cpu, src);
            let mid = pre.without_head(src);
            assert(pre.wf_queue(pre.queue_realtime, true));
            assert(pre.wf_queue(pre.queue_normal, false));
            if src == Source::Realtime {
                assert(pre.queue_entry_ok(pre.queue_realtime[0], true));
            } else {
                assert(pre.queue_entry_ok(pre.queue_normal[0], false));
            }
            assert(mid.marks_accounted(Some(x))) by {
                assert forall|i: int|
                    0 <= i < mid.threads.len() && (#[trigger] mid.threads[i]).attribute.queued
                        && Some(mid.threads[i].handle) != Some(x) implies mid.enqueued(
                    mid.threads[i].handle,
                ) by {
                    let y = pre.threads[i].handle;
                    assert(pre.enqueued(y));
                    if pre.queue_realtime.contains(y) {
                        let j = choose|j: int|
                            0 <= j < pre.queue_realtime.len() && pre.queue_realtime[j] == y;
                        if src == Source::Realtime {
                            assert(j > 0);
                            assert(mid.queue_realtime[j - 1] == y);
                        } else {
                            assert(mid.queue_realtime[j] == y);
                        }
                    } else if pre.queue_normal.contains(y) {
                        let j = choose|j: int|
                            0 <= j < pre.queue_normal.len() && pre.queue_normal[j] == y;
                        if src == Source::Normal {
                            assert(j > 0);
                            assert(mid.queue_normal[j - 1] == y);
                        } else {
                            assert(mid.queue_normal[j] == y);
                        }
                    }
                }
            }
            Self::lemma_mark_cleared(mid, x);
        }
    }

    /// A switch touches no mark and no queue.
    pub proof fn lemma_switch_consistent(pre: SchedulerView, cpu: int, next: ThreadHandle)
        requires
            pre.consistent(),
        ensures
            pre.switch_to(cpu, next).consistent(),
    {
        Self::lemma_same_skeleton(pre, pre.switch_to(cpu, next), None);
    }

    /// Giving a processor the thread of a source keeps the marks accounted
    /// for.
    pub proof fn lemma_dispatch_consistent(pre: SchedulerView, cpu: int, src: Source)
        requires
            pre.wf_core(),
            pre.consistent(),
            pre.can_switch(cpu),
            pre.source_ready(src),
        ensures
            pre.dispatch(cpu, src).0.consistent(),
    {
        Self::lemma_take_consistent(pre, cpu, src);
        Self::lemma_switch_consistent(pre.take(src), cpu, pre.head(cpu, src));
    }

    /// Charging time to a thread keeps the marks accounted for.
    pub proof fn lemma_update_statistics_consistent(pre: SchedulerView, h: ThreadHandle, now: TimeSpec)
        requires
            pool_wf(pre.threads),
            pre.consistent(),
        ensures
            pre.update_statistics(h, now).consistent(),
    {
        if pool_contains(pre.threads, h) {
            let k = pool_index(pre.threads, h);
            Self::lemma_update_consistent(pre, pre.update_statistics(h, now), k, None);
        }
    }

    /// Rescheduling keeps the queued marks truthful.
    pub proof fn lemma_reschedule_consistent(pre: SchedulerView, cpu: int, now: TimeSpec)
        requires
            pre.wf_core(),
            pre.consistent(),
            pre.can_switch(cpu),
        ensures
            pre.reschedule(cpu, now).0.consistent(),
    {
        if pre.state != SchedulerState::Disabled {
            let current = pre.locals[cpu].current;
            assert(pre.wf_local(cpu));
            Self::lemma_update_statistics_wf(pre, current, now);
            Self::lemma_update_statistics_consistent(pre, current, now);
            let s1 = pre.update_statistics(current, now);
            let s = s1.check_timer(now);
            Self::lemma_same_but_flags(s1, s);
            Self::lemma_same_skeleton(s1, s, None);
            match s.preempt_source(cpu) {
                Some(src) => {
                    Self::lemma_dispatch_consistent(s, cpu, src);
                },
                None => {
                    if s.spends_quantum(cpu) {
                        assert(pool_contains(s.threads, current));
                        Self::lemma_consume_quantum_wf(s, current);
                        let spent = s.consume_quantum(current);
                        let k = pool_index(s.threads, current);
                        Self::lemma_update_consistent(s, spent, k, None);
                        match spent.next_source(cpu) {
                            Some(src) => {
                                Self::lemma_dispatch_consistent(spent, cpu, src);
                            },
                            None => {},
                        }
                    }
                },
            }
        }
    }

    /// Yielding keeps the queued marks truthful.
    pub proof fn lemma_yield_consistent(pre: SchedulerView, cpu: int, now: TimeSpec)
        requires
            pre.wf_core(),
            pre.consistent(),
            pre.can_switch(cpu),
        ensures
            pre.yield_thread(cpu, now).0.consistent(),
    {
        let current = pre.locals[cpu].current;
        Self::lemma_update_statistics_wf(pre, current, now);
        Self::lemma_update_statistics_consistent(pre, current, now);
        let s = pre.update_statistics(current, now);
        let src = match s.next_source(cpu) {
            Some(src) => src,
            None => Source::Idle,
        };
        Self::lemma_dispatch_consistent(s, cpu, src);
    }

    /// Going to sleep keeps the queued marks truthful.
    pub proof fn lemma_sleep_consistent(pre: SchedulerView, cpu: int, now: TimeSpec)
        requires
            pre.wf_core(),
            pre.consistent(),
            pre.can_switch(cpu),
        ensures
            pre.sleep(cpu, now).0.consistent(),
    {
        Self::lemma_yield_wf(pre, cpu, now);
        Self::lemma_yield_consistent(pre, cpu, now);
        let t = pre.locals[cpu].current;
        let y = pre.yield_thread(cpu, now).0;
        let k = pool_index(y.threads, t);
        Self::lemma_update_consistent(y, pre.sleep(cpu, now).0, k, None);
    }

    /// Exiting keeps the queued marks truthful.
    pub proof fn lemma_exit_consistent(pre: SchedulerView, cpu: int, now: TimeSpec)
        requires
            pre.wf_core(),
            pre.consistent(),
            pre.can_switch(cpu),
        ensures
            pre.exit(cpu, now).0.consistent(),
    {
        Self::lemma_exit_wf(pre, cpu, now);
        Self::lemma_sleep_consistent(pre, cpu, now);
        let t = pre.locals[cpu].current;
        let slept = pre.sleep(cpu, now).0;
        let k = pool_index(slept.threads, t);
        let rec = pool_record(slept.threads, t);
        let marked = slept.with_thread(t, Self::exited_thread(rec));
        Self::lemma_update_consistent(slept, marked, k, None);
        Self::lemma_same_skeleton(marked, marked.leave_process(rec.pid), None);
    }

    /// Finishing a switch keeps the queued marks truthful.
    pub proof fn lemma_switch_context_after_consistent(
        pre: SchedulerView,
        cpu: int,
        irql: Irql,
        now: TimeSpec,
    )
        requires
            pre.wf_core(),
            pre.consistent(),
            pre.can_finish_switch(cpu, irql),
        ensures
            pre.switch_context_after(cpu, irql, now).consistent(),
    {
        let l = pre.locals[cpu];
        let r = l.retired.unwrap();
        assert(pre.wf_local(cpu));
        Self::lemma_switch_context_after_wf(pre, cpu, irql, now);
        let k = pool_index(pre.threads, l.current);
        let s1 = pre.stamp(l.current, now);
        Self::lemma_update_consistent(pre, s1, k, None);
        let s2 = s1.with_slot_cleared(cpu, irql);
        Self::lemma_same_skeleton(s1, s2, None);
        Self::lemma_retire_consistent(s2, r);
    }

    /// Waking a thread keeps the queued marks truthful.
    pub proof fn lemma_wake_consistent(pre: SchedulerView, h: ThreadHandle)
        requires
            pre.wf_core(),
            pre.consistent(),
        ensures
            pre.wake(h).consistent(),
    {
        if pool_contains(pre.threads, h) {
            Self::lemma_wake_wf(pre, h);
            let k = pool_index(pre.threads, h);
            let t = pool_record(pre.threads, h);
            if t.sleep_counter > 0 {
                let mid = pre.with_sleep_counter(h, (t.sleep_counter - 1) as isize);
                Self::lemma_update_consistent(pre, mid, k, None);
                Self::lemma_add_consistent(mid, h);
            } else {
                Self::lemma_add_consistent(pre, h);
            }
        }
    }

    /// Firing timer events keeps the queued marks truthful.
    pub proof fn lemma_fire_all_consistent(pre: SchedulerView, fired: Seq<TimerEvent>)
        requires
            pre.wf_core(),
            pre.consistent(),
        ensures
            pre.fire_all(fired).consistent(),
        decreases fired.len(),
    {
        if fired.len() > 0 {
            Self::lemma_fire_all_consistent(pre, fired.drop_last());
            Self::lemma_fire_all_wf(pre, fired.drop_last());
            let before = pre.fire_all(fired.drop_last());
            match fired.last().timer_type {
                TimerType::OneShot(thread) => {
                    Self::lemma_wake_consistent(before, thread);
                },
                _ => {},
            }
        }
    }

    /// A pass of the timer thread keeps the queued marks truthful.
    pub proof fn lemma_scheduler_thread_consistent(pre: SchedulerView, now: TimeSpec)
        requires
            pre.wf_core(),
            pre.consistent(),
        ensures
            pre.scheduler_thread(now).consistent(),
    {
        Self::lemma_fire_all_consistent(pre, pre.due_events(now));
        Self::lemma_same_skeleton(
            pre.fire_all(pre.due_events(now)),
            pre.scheduler_thread(now),
            None,
        );
    }

    /// An attempt to sleep until a deadline keeps the queued marks truthful.
    pub proof fn lemma_timer_sleep_consistent(pre: SchedulerView, cpu: int, timer: Timer, now: TimeSpec)
        requires
            pre.wf_core(),
            pre.consistent(),
            pre.can_switch(cpu),
        ensures
            pre.timer_sleep(cpu, timer, now).0.consistent(),
    {
        let event = TimerEvent { timer, timer_type: TimerType::OneShot(pre.locals[cpu].current) };
        if !timer.alive_at(now) {
        } else if pre.timer_queue.len() >= pre.cap_timer {
            Self::lemma_yield_consistent(pre, cpu, now);
        } else {
            let s = pre.schedule_timer(event);
            Self::lemma_events_changed(pre, s);
            Self::lemma_same_skeleton(pre, s, None);
            Self::lemma_sleep_consistent(s, cpu, now);
        }
    }

    /// A statistics pass keeps the queued marks truthful.
    pub proof fn lemma_statistics_thread_consistent(pre: SchedulerView, actual: usize)
        requires
            pre.consistent(),
        ensures
            pre.statistics_thread(actual).consistent(),
    {
        let post = pre.statistics_thread(actual);
        assert forall|i: int|
            0 <= i < post.threads.len() && (#[trigger] post.threads[i]).attribute.queued implies post.enqueued(
            post.threads[i].handle,
        ) by {
            assert(pre.threads[i].attribute.queued);
            assert(pre.enqueued(pre.threads[i].handle));
        }
    }

    /// Spawning a thread keeps the queued marks truthful.
    pub proof fn lemma_spawned_consistent(
        pre: SchedulerView,
        post: SchedulerView,
        cpu: ProcessorIndex,
        start: ThreadStart,
        name: Seq<char>,
        options: SpawnOption,
        now: TimeSpec,
        r: Option<ThreadHandle>,
    )
        requires
            pre.wf_core(),
            pre.consistent(),
            Self::spawned(pre, post, cpu, start, name, options, now, r),
        ensures
            post.consistent(),
    {
        if r.is_some() {
            let h = r.unwrap();
            let t = pool_record(post.threads, h).with_queued(false);
            if options.new_process {
                let p = choose|p: ProcessContextData|
                    Self::is_spawn_with(pre, post, cpu, name, options, now, t, p);
                let a = pre.with_new_process(p);
                Self::lemma_with_new_process_wf(pre, p);
                Self::lemma_same_skeleton(pre, a, None);
                Self::lemma_join_process_wf(a, t.pid);
                let b = a.join_process(t.pid);
                Self::lemma_same_skeleton(a, b, None);
                Self::lemma_new_thread_consistent(b, t);
            } else {
                Self::lemma_join_process_wf(pre, t.pid);
                let b = pre.join_process(t.pid);
                Self::lemma_same_skeleton(pre, b, None);
                Self::lemma_new_thread_consistent(b, t);
            }
        }
    }

    /// Registering a fresh thread and offering it to the run queues keeps
    /// the queued marks truthful.
    pub proof fn lemma_new_thread_consistent(pre: SchedulerView, t: ThreadContextData)
        requires
            pre.wf_core(),
            pre.consistent(),
            pre.next_thread_id < usize::MAX,
            t.handle == ThreadHandle(pre.next_thread_id),
            t.sleep_counter == 0,
            !t.attribute.queued,
            !pre.band_full(t.priority),
        ensures
            pre.with_new_thread(t).consistent(),
    {
        Self::lemma_with_new_thread_wf(pre, t);
        let mid = SchedulerView {
            threads: pre.threads.push(t),
            next_thread_id: (pre.next_thread_id + 1) as usize,
            ..pre
        };
        assert(mid.consistent()) by {
            assert forall|i: int|
                0 <= i < mid.threads.len() && (#[trigger] mid.threads[i]).attribute.queued implies mid.enqueued(
                mid.threads[i].handle,
            ) by {
                assert(i < pre.threads.len());
                assert(mid.threads[i] == pre.threads[i]);
                assert(pre.enqueued(pre.threads[i].handle));
            }
        }
        Self::lemma_add_consistent(mid, t.handle);
    }

    /// A scheduler that has just been set up bears no queued mark.
    pub proof fn lemma_booted_consistent(
        self,
        cpus: Seq<ProcessorCoreType>,
        performance_cpus: usize,
        now: TimeSpec,
    )
        requires
            self.is_booted(cpus, performance_cpus, now),
        ensures
            self.consistent(),
    {
    }
}

} // verus!
