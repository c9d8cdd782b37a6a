//! The scheduler as a mathematical value: what the contracts of the
//! scheduler speak of, the invariant, and the lemmas that keep it.

use vstd::prelude::*;
use crate::sync::Semaphore;
use crate::task::irql::{ContextSwitch, Irql, LocalScheduler, ProcessorCoreType, ProcessorIndex};
use crate::task::priority::{Priority, SchedulerState};
use crate::task::process::{process_pool_wf, ProcessContextData, ProcessId};
use crate::task::thread::{
    lemma_index_unique, lemma_update_same_handle, pool_contains, pool_index, pool_record, pool_wf,
    ThreadContextData, ThreadHandle,
};
use crate::task::timer::{TimeSpec, Timer, TimerEvent};

verus! {

/// Largest number of processors whose load, at 1000 per mille each, fits
/// the 32 bits in which it is kept.
pub const MAX_PROCESSORS: usize = 4_294_967;

/// Whether threads of the given priority wait in the realtime queue. All
/// other threads that wait do so in the normal queue.
pub open spec fn is_realtime(priority: Priority) -> bool {
    priority == Priority::Realtime
}

/// Where the thread that runs next comes from.
#[derive(Debug, Clone, Copy, PartialEq, Eq, Structural)]
pub enum Source {
    /// The idle thread of the processor.
    Idle,
    /// The head of the realtime queue.
    Realtime,
    /// The head of the urgent queue.
    Urgent,
    /// The head of the normal queue.
    Normal,
}

/// The state of the scheduler, with sequences for its queues, its
/// registries and its processors.
#[verifier::ext_equal]
pub struct SchedulerView {
    pub state: SchedulerState,
    pub queue_realtime: Seq<ThreadHandle>,
    pub queue_urgent: Seq<ThreadHandle>,
    pub queue_normal: Seq<ThreadHandle>,
    pub cap_realtime: usize,
    pub cap_urgent: usize,
    pub cap_normal: usize,
    pub locals: Seq<LocalScheduler>,
    pub num_of_performance_cpus: usize,
    pub usage: usize,
    pub usage_total: usize,
    pub is_frozen: bool,
    pub next_timer: isize,
    pub sem_timer: Semaphore,
    pub timer_queue: Seq<TimerEvent>,
    pub cap_timer: usize,
    pub events: Seq<TimerEvent>,
    pub threads: Seq<ThreadContextData>,
    pub processes: Seq<ProcessContextData>,
    pub next_thread_id: usize,
    pub next_pid: usize,
}

impl SchedulerView {
    /// Some processor runs `h` or has it in its retirement slot.
    pub open spec fn held(&self, h: ThreadHandle) -> bool {
        exists|c: int|
            0 <= c < self.locals.len() && ((#[trigger] self.locals[c]).current == h
                || self.locals[c].retired == Some(h))
    }

    /// `h` waits in one of the run queues.
    pub open spec fn enqueued(&self, h: ThreadHandle) -> bool {
        self.queue_realtime.contains(h) || self.queue_urgent.contains(h)
            || self.queue_normal.contains(h)
    }

    /// The registered threads that wait in the realtime queue when they wait
    /// (`realtime`), or in the normal queue (`!realtime`).
    pub open spec fn band_handles(&self, realtime: bool) -> Set<ThreadHandle> {
        Set::new(
            |h: ThreadHandle|
                pool_contains(self.threads, h) && pool_record(self.threads, h).priority != Priority::Idle
                    && is_realtime(pool_record(self.threads, h).priority) == realtime,
        )
    }

    /// The registries are in order, identifiers were all issued, no sleep
    /// counter is negative, and no idle thread is marked as queued.
    pub open spec fn wf_registry(&self) -> bool {
        &&& pool_wf(self.threads)
        &&& process_pool_wf(self.processes)
        &&& forall|i: int|
            0 <= i < self.threads.len() ==> {
                let t = #[trigger] self.threads[i];
                &&& t.handle.0 < self.next_thread_id
                &&& t.sleep_counter >= 0
                &&& (t.priority == Priority::Idle ==> !t.attribute.queued)
            }
        &&& self.next_thread_id >= 1
        &&& forall|i: int|
            0 <= i < self.processes.len() ==> (#[trigger] self.processes[i]).pid.0
                < self.next_pid
    }

    /// What holds of a handle in a run queue: its thread is registered,
    /// marked as queued, of the queue's band, awake, no zombie, and on no
    /// processor.
    pub open spec fn queue_entry_ok(&self, h: ThreadHandle, realtime: bool) -> bool {
        &&& pool_contains(self.threads, h)
        &&& pool_record(self.threads, h).attribute.queued
        &&& !pool_record(self.threads, h).attribute.zombie
        &&& pool_record(self.threads, h).sleep_counter == 0
        &&& pool_record(self.threads, h).priority != Priority::Idle
        &&& is_realtime(pool_record(self.threads, h).priority) == realtime
        &&& !self.held(h)
    }

    /// A run queue holds no handle twice, and each entry is in order.
    pub open spec fn wf_queue(&self, q: Seq<ThreadHandle>, realtime: bool) -> bool {
        &&& q.no_duplicates()
        &&& forall|i: int| 0 <= i < q.len() ==> self.queue_entry_ok(#[trigger] q[i], realtime)
    }

    /// The queues respect their capacities, the urgent queue is empty (no
    /// priority is admitted to it), and each band has no more threads than
    /// its queue has room for.
    pub open spec fn wf_queues(&self) -> bool {
        &&& self.queue_realtime.len() <= self.cap_realtime
        &&& self.queue_urgent.len() <= self.cap_urgent
        &&& self.queue_normal.len() <= self.cap_normal
        &&& self.timer_queue.len() <= self.cap_timer
        &&& self.wf_queue(self.queue_realtime, true)
        &&& self.wf_queue(self.queue_normal, false)
        &&& self.queue_urgent.len() == 0
        &&& self.band_handles(true).finite()
        &&& self.band_handles(true).len() <= self.cap_realtime
        &&& self.band_handles(false).finite()
        &&& self.band_handles(false).len() <= self.cap_normal
    }

    /// What holds of a thread that a processor runs, unless it is the
    /// processor's idle thread: it is of a priority that is scheduled, awake
    /// and no zombie.
    pub open spec fn runs_ok(&self, h: ThreadHandle) -> bool {
        &&& pool_record(self.threads, h).priority != Priority::Idle
        &&& !pool_record(self.threads, h).attribute.zombie
        &&& pool_record(self.threads, h).sleep_counter == 0
    }

    /// What holds of one processor: its idle thread is an idle thread; it
    /// runs that or a thread that is fit to run; what retires is not what
    /// runs.
    pub open spec fn wf_local(&self, c: int) -> bool {
        let l = self.locals[c];
        &&& l.index.0 == c
        &&& pool_contains(self.threads, l.idle)
        &&& pool_record(self.threads, l.idle).priority == Priority::Idle
        &&& pool_contains(self.threads, l.current)
        &&& (l.current != l.idle ==> self.runs_ok(l.current))
        &&& (l.retired matches Some(r) ==> pool_contains(self.threads, r) && r != l.current && (r
            != l.idle ==> pool_record(self.threads, r).priority != Priority::Idle))
    }

    /// No two processors share an idle thread, a running thread or a retiring
    /// thread.
    pub open spec fn wf_locals(&self) -> bool {
        &&& 0 < self.num_of_performance_cpus <= self.locals.len() <= MAX_PROCESSORS
        &&& forall|c: int| 0 <= c < self.locals.len() ==> #[trigger] self.wf_local(c)
        &&& forall|a: int, b: int|
            0 <= a < self.locals.len() && 0 <= b < self.locals.len() && a != b ==> {
                let x = #[trigger] self.locals[a];
                let y = #[trigger] self.locals[b];
                &&& x.idle != y.idle
                &&& x.current != y.current
                &&& x.retired != Some(y.current)
                &&& (x.retired.is_some() ==> x.retired != y.retired)
            }
    }

    /// The sorted timer list is in order of deadlines.
    pub open spec fn wf_events(&self) -> bool {
        forall|i: int, j: int|
            0 <= i < j < self.events.len() ==> (#[trigger] self.events[i]).timer.deadline.0 <= (
            #[trigger] self.events[j]).timer.deadline.0
    }

    /// The structural invariant: what the invariant says of the registries,
    /// the queues and the processors. It holds also between the two steps
    /// of an admission, when a thread bears the queued mark and has not
    /// reached its queue. The lemmas of this module keep it; those on the
    /// queued marks keep the rest.
    pub open spec fn wf_core(&self) -> bool {
        &&& self.wf_registry()
        &&& self.wf_queues()
        &&& self.wf_locals()
        &&& self.wf_events()
    }

    /// Every thread that is marked as queued waits in a run queue, with the
    /// possible exception of thread `except`.
    pub open spec fn marks_accounted(self, except: Option<ThreadHandle>) -> bool {
        forall|i: int|
            0 <= i < self.threads.len() && (#[trigger] self.threads[i]).attribute.queued && Some(
                self.threads[i].handle,
            ) != except ==> self.enqueued(self.threads[i].handle)
    }

    /// Every thread that is marked as queued waits in a run queue.
    pub open spec fn consistent(self) -> bool {
        self.marks_accounted(None)
    }

    /// The invariant of the scheduler. Every public operation keeps it. A
    /// thread is marked as queued exactly when its handle waits in a run
    /// queue, and then it waits in one place only, is awake, no zombie, and
    /// on no processor.
    pub open spec fn wf(&self) -> bool {
        &&& self.wf_core()
        &&& self.consistent()
    }

    /// What follows when one thread record is replaced by one with the same
    /// handle and priority, and nothing else changes: every other thread is
    /// judged as before.
    pub proof fn lemma_update_frame(pre: SchedulerView, post: SchedulerView, k: int)
        requires
            pool_wf(pre.threads),
            0 <= k < pre.threads.len(),
            post.threads.len() == pre.threads.len(),
            post.threads[k].handle == pre.threads[k].handle,
            post.threads[k].priority == pre.threads[k].priority,
            forall|i: int|
                0 <= i < pre.threads.len() && i != k ==> post.threads[i]
                    == pre.threads[i],
            post.locals == pre.locals,
        ensures
            pool_wf(post.threads),
            forall|h: ThreadHandle| #[trigger] pool_contains(post.threads, h) == pool_contains(pre.threads, h),
            forall|h: ThreadHandle|
                pool_contains(pre.threads, h) && h != pre.threads[k].handle
                    ==> #[trigger] pool_record(post.threads, h) == pool_record(pre.threads, h),
            pool_record(post.threads, pre.threads[k].handle) == post.threads[k],
            pool_record(pre.threads, pre.threads[k].handle) == pre.threads[k],
            pool_contains(pre.threads, pre.threads[k].handle),
            forall|h: ThreadHandle| #[trigger] post.held(h) == pre.held(h),
            forall|h: ThreadHandle, r: bool|
                h != pre.threads[k].handle ==> #[trigger] post.queue_entry_ok(h, r)
                    == pre.queue_entry_ok(h, r),
            post.band_handles(true) == pre.band_handles(true),
            post.band_handles(false) == pre.band_handles(false),
    {
        lemma_update_same_handle(pre.threads, post.threads, k);
        let hk = pre.threads[k].handle;
        assert forall|h: ThreadHandle| #[trigger] post.held(h) == pre.held(h) by {
            if pre.held(h) {
                let c = choose|c: int|
                    0 <= c < pre.locals.len() && ((#[trigger] pre.locals[c]).current == h
                        || pre.locals[c].retired == Some(h));
                assert(post.locals[c].current == h || post.locals[c].retired == Some(h));
            }
            if post.held(h) {
                let c = choose|c: int|
                    0 <= c < post.locals.len() && ((#[trigger] post.locals[c]).current == h
                        || post.locals[c].retired == Some(h));
                assert(pre.locals[c].current == h || pre.locals[c].retired == Some(h));
            }
        }
        assert forall|h: ThreadHandle| #[trigger]
            post.band_handles(true).contains(h) == pre.band_handles(true).contains(h) by {
            if pool_contains(pre.threads, h) && h != hk {
                assert(pool_record(post.threads, h) == pool_record(pre.threads, h));
            }
        }
        assert forall|h: ThreadHandle| #[trigger]
            post.band_handles(false).contains(h) == pre.band_handles(false).contains(h) by {
            if pool_contains(pre.threads, h) && h != hk {
                assert(pool_record(post.threads, h) == pool_record(pre.threads, h));
            }
        }
        assert(post.band_handles(true) =~= pre.band_handles(true));
        assert(post.band_handles(false) =~= pre.band_handles(false));
        assert forall|h: ThreadHandle, r: bool| h != hk implies #[trigger] post.queue_entry_ok(
            h,
            r,
        ) == pre.queue_entry_ok(h, r) by {
            if pool_contains(pre.threads, h) {
                assert(pool_record(post.threads, h) == pool_record(pre.threads, h));
            }
        }
    }

    /// A queue without repetitions whose entries all come from a finite set
    /// that has one member more is shorter than that set is large.
    pub proof fn lemma_queue_has_room(q: Seq<ThreadHandle>, s: Set<ThreadHandle>, t: ThreadHandle)
        requires
            q.no_duplicates(),
            forall|i: int| 0 <= i < q.len() ==> s.contains(#[trigger] q[i]),
            s.finite(),
            s.contains(t),
            !q.contains(t),
        ensures
            q.len() < s.len(),
    {
        q.unique_seq_to_set();
        let rest = s.remove(t);
        assert forall|h: ThreadHandle| q.to_set().contains(h) implies rest.contains(h) by {
            let i = choose|i: int| 0 <= i < q.len() && q[i] == h;
            assert(s.contains(q[i]));
        }
        vstd::set_lib::lemma_len_subset(q.to_set(), rest);
    }

    /// What follows when one thread record is dropped and nothing else
    /// changes: every other thread is judged as before.
    pub proof fn lemma_remove_frame(pre: SchedulerView, post: SchedulerView, k: int)
        requires
            pool_wf(pre.threads),
            0 <= k < pre.threads.len(),
            post.threads == pre.threads.remove(k),
            post.locals == pre.locals,
        ensures
            pool_wf(post.threads),
            !pool_contains(post.threads, pre.threads[k].handle),
            forall|h: ThreadHandle|
                h != pre.threads[k].handle ==> #[trigger] pool_contains(post.threads, h)
                    == pool_contains(pre.threads, h),
            forall|h: ThreadHandle|
                pool_contains(pre.threads, h) && h != pre.threads[k].handle
                    ==> #[trigger] pool_record(post.threads, h) == pool_record(pre.threads, h),
            forall|h: ThreadHandle| #[trigger] post.held(h) == pre.held(h),
            forall|h: ThreadHandle, r: bool|
                h != pre.threads[k].handle ==> #[trigger] post.queue_entry_ok(h, r)
                    == pre.queue_entry_ok(h, r),
            post.band_handles(true).subset_of(pre.band_handles(true)),
            post.band_handles(false).subset_of(pre.band_handles(false)),
    {
        let hk = pre.threads[k].handle;
        let a = pre.threads;
        let b = post.threads;
        assert forall|i: int| 0 <= i < b.len() implies #[trigger] b[i] == a[if i < k {
            i
        } else {
            i + 1
        }] by {}
        assert(pool_wf(post.threads)) by {
            assert forall|i: int, j: int| 0 <= i < j < b.len() implies (#[trigger] b[i]).handle.0 < (
            #[trigger] b[j]).handle.0 by {
                let i2 = if i < k { i } else { i + 1 };
                let j2 = if j < k { j } else { j + 1 };
                assert(a[i2].handle.0 < a[j2].handle.0);
            }
            assert forall|i: int| 0 <= i < b.len() implies (#[trigger] b[i]).handle.0 != 0 by {
                let i2 = if i < k { i } else { i + 1 };
                assert(a[i2].handle.0 != 0);
            }
        }
        assert(!pool_contains(post.threads, hk)) by {
            if pool_contains(post.threads, hk) {
                let i = pool_index(post.threads, hk);
                let i2 = if i < k { i } else { i + 1 };
                assert(a[i2].handle == hk);
                if i2 < k {
                    assert(a[i2].handle.0 < a[k].handle.0);
                } else {
                    assert(a[k].handle.0 < a[i2].handle.0);
                }
            }
        }
        assert forall|h: ThreadHandle| h != hk implies #[trigger] pool_contains(post.threads, h)
            == pool_contains(pre.threads, h) by {
            if pool_contains(pre.threads, h) {
                let i = pool_index(pre.threads, h);
                let i2 = if i < k { i } else { i - 1 };
                assert(b[i2].handle == h);
            }
            if pool_contains(post.threads, h) {
                let i = pool_index(post.threads, h);
                let i2 = if i < k { i } else { i + 1 };
                assert(a[i2].handle == h);
            }
        }
        assert forall|h: ThreadHandle| pool_contains(pre.threads, h) && h != hk implies #[trigger]
            pool_record(post.threads, h) == pool_record(pre.threads, h) by {
            let i = pool_index(pre.threads, h);
            let i2 = if i < k { i } else { i - 1 };
            assert(b[i2].handle == h);
            lemma_index_unique(post.threads, h, i2);
        }
        assert forall|h: ThreadHandle| #[trigger] post.held(h) == pre.held(h) by {
            if pre.held(h) {
                let c = choose|c: int|
                    0 <= c < pre.locals.len() && ((#[trigger] pre.locals[c]).current == h
                        || pre.locals[c].retired == Some(h));
                assert(post.locals[c].current == h || post.locals[c].retired == Some(h));
            }
            if post.held(h) {
                let c = choose|c: int|
                    0 <= c < post.locals.len() && ((#[trigger] post.locals[c]).current == h
                        || post.locals[c].retired == Some(h));
                assert(pre.locals[c].current == h || pre.locals[c].retired == Some(h));
            }
        }
        assert forall|h: ThreadHandle, r: bool| h != hk implies #[trigger] post.queue_entry_ok(
            h,
            r,
        ) == pre.queue_entry_ok(h, r) by {
            if pool_contains(pre.threads, h) {
                assert(pool_record(post.threads, h) == pool_record(pre.threads, h));
            }
        }
        assert forall|h: ThreadHandle| post.band_handles(true).contains(h) implies #[trigger]
            pre.band_handles(true).contains(h) by {
            assert(h != hk);
            assert(pool_record(post.threads, h) == pool_record(pre.threads, h));
        }
        assert forall|h: ThreadHandle| post.band_handles(false).contains(h) implies #[trigger]
            pre.band_handles(false).contains(h) by {
            assert(h != hk);
            assert(pool_record(post.threads, h) == pool_record(pre.threads, h));
        }
    }

    /// A thread that a processor may begin to run: registered, awake, no
    /// zombie, of a priority that is scheduled, on no processor and in no
    /// queue.
    pub open spec fn ready_to_run(&self, h: ThreadHandle) -> bool {
        &&& pool_contains(self.threads, h)
        &&& !pool_record(self.threads, h).attribute.zombie
        &&& pool_record(self.threads, h).sleep_counter == 0
        &&& pool_record(self.threads, h).priority != Priority::Idle
        &&& !self.held(h)
        &&& !self.enqueued(h)
    }

    /// A thread that may enter a run queue: fit to run, and marked as
    /// queued already.
    pub open spec fn ready_to_enqueue(&self, h: ThreadHandle) -> bool {
        &&& self.ready_to_run(h)
        &&& pool_record(self.threads, h).attribute.queued
    }

    /// The structural invariant survives a change to one thread record that touches
    /// neither its handle, its priority, its attributes nor its sleep
    /// counter.
    pub proof fn lemma_update_inert(pre: SchedulerView, post: SchedulerView, k: int)
        requires
            pre.wf_core(),
            0 <= k < pre.threads.len(),
            post == (SchedulerView { threads: post.threads, ..pre }),
            post.threads.len() == pre.threads.len(),
            post.threads[k].handle == pre.threads[k].handle,
            post.threads[k].priority == pre.threads[k].priority,
            post.threads[k].attribute == pre.threads[k].attribute,
            post.threads[k].sleep_counter == pre.threads[k].sleep_counter,
            forall|i: int|
                0 <= i < pre.threads.len() && i != k ==> post.threads[i]
                    == pre.threads[i],
        ensures
            post.wf_core(),
    {
        Self::lemma_update_frame(pre, post, k);
        let hk = pre.threads[k].handle;
        assert forall|h: ThreadHandle, r: bool| #[trigger]
            post.queue_entry_ok(h, r) == pre.queue_entry_ok(h, r) by {}
        assert(post.wf_registry()) by {
            assert forall|i: int| 0 <= i < post.threads.len() implies {
                let t = #[trigger] post.threads[i];
                &&& t.handle.0 < post.next_thread_id
                &&& t.sleep_counter >= 0
                &&& (t.priority == Priority::Idle ==> !t.attribute.queued)
            } by {
                let t0 = pre.threads[i];
                assert(t0.handle.0 < pre.next_thread_id);
            }
        }
        assert(post.wf_queues()) by {
            assert(pre.wf_queue(pre.queue_realtime, true));
            assert(pre.wf_queue(pre.queue_normal, false));
        }
        assert(post.wf_locals()) by {
            assert forall|c: int| 0 <= c < post.locals.len() implies #[trigger] post.wf_local(
                c,
            ) by {
                assert(pre.wf_local(c));
            }
        }
    }

    /// The structural invariant survives a change to the attributes or the
    /// sleep counter of a thread that waits in no queue, as long as the new
    /// record is in order and a thread that runs stays fit to run.
    pub proof fn lemma_update_offqueue(pre: SchedulerView, post: SchedulerView, k: int)
        requires
            pre.wf_core(),
            0 <= k < pre.threads.len(),
            post == (SchedulerView { threads: post.threads, ..pre }),
            post.threads.len() == pre.threads.len(),
            post.threads[k].handle == pre.threads[k].handle,
            post.threads[k].priority == pre.threads[k].priority,
            forall|i: int|
                0 <= i < pre.threads.len() && i != k ==> post.threads[i]
                    == pre.threads[i],
            !pre.enqueued(pre.threads[k].handle),
            post.threads[k].sleep_counter >= 0,
            post.threads[k].priority == Priority::Idle
                ==> !post.threads[k].attribute.queued,
            forall|c: int|
                0 <= c < pre.locals.len() && (#[trigger] pre.locals[c]).current
                    == pre.threads[k].handle && pre.locals[c].idle
                    != pre.threads[k].handle ==> !post.threads[k].attribute.zombie
                    && post.threads[k].sleep_counter == 0,
        ensures
            post.wf_core(),
            !post.enqueued(pre.threads[k].handle),
            post.held(pre.threads[k].handle) == pre.held(pre.threads[k].handle),
    {
        Self::lemma_update_frame(pre, post, k);
        let hk = pre.threads[k].handle;
        assert(post.wf_registry()) by {
            assert forall|i: int| 0 <= i < post.threads.len() implies {
                let t = #[trigger] post.threads[i];
                &&& t.handle.0 < post.next_thread_id
                &&& t.sleep_counter >= 0
                &&& (t.priority == Priority::Idle ==> !t.attribute.queued)
            } by {
                let t0 = pre.threads[i];
                assert(t0.handle.0 < pre.next_thread_id);
            }
        }
        assert(post.wf_queues()) by {
            assert(pre.wf_queue(pre.queue_realtime, true));
            assert(pre.wf_queue(pre.queue_normal, false));
            assert forall|i: int| 0 <= i < post.queue_realtime.len() implies post.queue_entry_ok(
                #[trigger] post.queue_realtime[i],
                true,
            ) by {
                let h = pre.queue_realtime[i];
                assert(pre.queue_realtime.contains(h));
                assert(pre.queue_entry_ok(h, true));
            }
            assert forall|i: int| 0 <= i < post.queue_normal.len() implies post.queue_entry_ok(
                #[trigger] post.queue_normal[i],
                false,
            ) by {
                let h = pre.queue_normal[i];
                assert(pre.queue_normal.contains(h));
                assert(pre.queue_entry_ok(h, false));
            }
        }
        assert(post.wf_locals()) by {
            assert forall|c: int| 0 <= c < post.locals.len() implies #[trigger] post.wf_local(
                c,
            ) by {
                assert(pre.wf_local(c));
                let l = pre.locals[c];
                if l.current == hk || l.retired == Some(hk) {
                    assert(pre.held(hk));
                }
            }
        }
    }

    /// A processor is stalled, and runs nothing but its idle thread, while
    /// the system is frozen, and while it is an efficiency core and the
    /// scheduler is not at full throttle.
    pub open spec fn stalled(&self, cpu: int) -> bool {
        self.is_frozen || (self.state != SchedulerState::FullThrottle
            && self.locals[cpu].core_type == ProcessorCoreType::Sub)
    }

    /// The process whose thread runs on the given processor. It is process 0
    /// while the scheduler is disabled, and where no thread can be found.
    pub open spec fn spec_current_pid(&self, cpu: ProcessorIndex) -> ProcessId {
        if self.state != SchedulerState::Disabled && cpu.0 < self.locals.len()
            && pool_contains(self.threads, self.locals[cpu.0 as int].current) {
            pool_record(self.threads, self.locals[cpu.0 as int].current).pid
        } else {
            ProcessId(0)
        }
    }

    // ----- admission and retirement -----

    /// The state with thread `h` replaced by `t`.
    pub open spec fn with_thread(self, h: ThreadHandle, t: ThreadContextData) -> SchedulerView {
        SchedulerView { threads: self.threads.update(pool_index(self.threads, h), t), ..self }
    }

    /// The state with the queued mark of thread `h` set to `queued`.
    pub open spec fn mark(self, h: ThreadHandle, queued: bool) -> SchedulerView {
        self.with_thread(h, pool_record(self.threads, h).with_queued(queued))
    }

    /// The state with `h` appended to the queue of its band.
    pub open spec fn enqueue(self, h: ThreadHandle) -> SchedulerView {
        if is_realtime(pool_record(self.threads, h).priority) {
            SchedulerView { queue_realtime: self.queue_realtime.push(h), ..self }
        } else {
            SchedulerView { queue_normal: self.queue_normal.push(h), ..self }
        }
    }

    /// A thread is admitted to a run queue unless its priority is `Idle`, it
    /// is a zombie, it sleeps, it waits in a queue already, or a processor
    /// runs it or lets it retire: such a thread reaches its queue when the
    /// processor has let it go.
    pub open spec fn admits(self, h: ThreadHandle) -> bool {
        let t = pool_record(self.threads, h);
        &&& t.priority != Priority::Idle
        &&& !t.attribute.zombie
        &&& !t.attribute.queued
        &&& t.sleep_counter <= 0
        &&& !self.held(h)
    }

    /// The state after thread `h` was offered to the run queues.
    pub open spec fn add(self, h: ThreadHandle) -> SchedulerView {
        if self.admits(h) {
            self.mark(h, true).enqueue(h)
        } else {
            self
        }
    }

    /// The state after thread `h`, which a processor has just let go, was
    /// disposed of: an idle thread and a sleeping thread stay off the queues,
    /// a zombie leaves the registry, any other thread goes to the end of the
    /// queue of its band.
    pub open spec fn retire(self, h: ThreadHandle) -> SchedulerView {
        let t = pool_record(self.threads, h);
        if t.priority == Priority::Idle {
            self.mark(h, false)
        } else if t.attribute.zombie {
            SchedulerView { threads: self.threads.remove(pool_index(self.threads, h)), ..self }
        } else if t.sleep_counter > 0 {
            self.mark(h, false)
        } else {
            self.mark(h, true).enqueue(h)
        }
    }

    /// Appending a thread that is ready to the queue of its band keeps the
    /// invariant, and the queue has room for it.
    pub proof fn lemma_enqueue_wf(pre: SchedulerView, h: ThreadHandle)
        requires
            pre.wf_core(),
            pre.ready_to_enqueue(h),
        ensures
            pre.enqueue(h).wf_core(),
            is_realtime(pool_record(pre.threads, h).priority) ==> pre.queue_realtime.len()
                < pre.cap_realtime,
            !is_realtime(pool_record(pre.threads, h).priority) ==> pre.queue_normal.len()
                < pre.cap_normal,
    {
        let post = pre.enqueue(h);
        let realtime = is_realtime(pool_record(pre.threads, h).priority);
        let q0 = if realtime { pre.queue_realtime } else { pre.queue_normal };
        let q = if realtime { post.queue_realtime } else { post.queue_normal };
        assert(pre.wf_queue(q0, realtime));
        assert(pre.band_handles(realtime).contains(h));
        assert forall|i: int| 0 <= i < q0.len() implies pre.band_handles(realtime).contains(
            #[trigger] q0[i],
        ) by {
            assert(pre.queue_entry_ok(q0[i], realtime));
        }
        Self::lemma_queue_has_room(q0, pre.band_handles(realtime), h);
        assert forall|x: ThreadHandle| #[trigger] post.held(x) == pre.held(x) by {
            if pre.held(x) {
                let c = choose|c: int|
                    0 <= c < pre.locals.len() && ((#[trigger] pre.locals[c]).current == x
                        || pre.locals[c].retired == Some(x));
                assert(post.locals[c].current == x || post.locals[c].retired == Some(x));
            }
            if post.held(x) {
                let c = choose|c: int|
                    0 <= c < post.locals.len() && ((#[trigger] post.locals[c]).current == x
                        || post.locals[c].retired == Some(x));
                assert(pre.locals[c].current == x || pre.locals[c].retired == Some(x));
            }
        }
        assert forall|x: ThreadHandle, r: bool| #[trigger]
            post.queue_entry_ok(x, r) == pre.queue_entry_ok(x, r) by {}
        assert(post.band_handles(true) =~= pre.band_handles(true));
        assert(post.band_handles(false) =~= pre.band_handles(false));
        assert(post.wf_registry());
        assert(post.wf_events());
        assert(post.wf_locals()) by {
            assert forall|c: int| 0 <= c < post.locals.len() implies #[trigger] post.wf_local(
                c,
            ) by {
                assert(pre.wf_local(c));
            }
        }
        assert(post.wf_queue(q, realtime)) by {
            assert forall|i: int| 0 <= i < q.len() implies post.queue_entry_ok(
                #[trigger] q[i],
                realtime,
            ) by {
                if i < q0.len() {
                    assert(q[i] == q0[i]);
                    assert(pre.queue_entry_ok(q0[i], realtime));
                } else {
                    assert(q[i] == h);
                }
            }
            assert forall|i: int, j: int| 0 <= i < q.len() && 0 <= j < q.len() && i != j implies q[i]
                != q[j] by {
                if i < q0.len() && j < q0.len() {
                    assert(q0[i] != q0[j]);
                } else if i < q0.len() {
                    assert(q0.contains(q0[i]));
                } else {
                    assert(q0.contains(q0[j]));
                }
            }
        }
        if realtime {
            assert(post.wf_queue(post.queue_normal, false)) by {
                assert(pre.wf_queue(pre.queue_normal, false));
            }
        } else {
            assert(post.wf_queue(post.queue_realtime, true)) by {
                assert(pre.wf_queue(pre.queue_realtime, true));
            }
        }
    }

    /// A thread that is not marked as queued waits in no queue, and neither
    /// does a thread that a processor runs or lets retire.
    pub proof fn lemma_unmarked_is_free(self, h: ThreadHandle)
        requires
            self.wf_core(),
            !pool_record(self.threads, h).attribute.queued || self.held(h),
        ensures
            !self.enqueued(h),
    {
        if self.queue_realtime.contains(h) {
            let i = choose|i: int| 0 <= i < self.queue_realtime.len() && self.queue_realtime[i] == h;
            assert(self.queue_entry_ok(self.queue_realtime[i], true));
        }
        if self.queue_normal.contains(h) {
            let i = choose|i: int| 0 <= i < self.queue_normal.len() && self.queue_normal[i] == h;
            assert(self.queue_entry_ok(self.queue_normal[i], false));
        }
    }

    /// Offering a registered thread to the run queues keeps the structural
    /// invariant.
    pub proof fn lemma_add_wf(pre: SchedulerView, h: ThreadHandle)
        requires
            pre.wf_core(),
            pool_contains(pre.threads, h),
        ensures
            pre.add(h).wf_core(),
            pre.admits(h) ==> pre.mark(h, true).wf_core() && pre.mark(h, true).ready_to_enqueue(h),
    {
        if pre.admits(h) {
            let k = pool_index(pre.threads, h);
            let mid = pre.mark(h, true);
            pre.lemma_unmarked_is_free(h);
            assert(pre.threads[k].sleep_counter >= 0);
            Self::lemma_update_offqueue(pre, mid, k);
            Self::lemma_update_frame(pre, mid, k);
            assert(mid.enqueued(h) == pre.enqueued(h));
            Self::lemma_enqueue_wf(mid, h);
        }
    }

    /// The structural invariant survives the removal of a thread that is on no processor
    /// and in no queue, and is no idle thread.
    pub proof fn lemma_remove_wf(pre: SchedulerView, h: ThreadHandle)
        requires
            pre.wf_core(),
            pool_contains(pre.threads, h),
            pool_record(pre.threads, h).priority != Priority::Idle,
            !pre.held(h),
            !pre.enqueued(h),
        ensures
            (SchedulerView {
                threads: pre.threads.remove(pool_index(pre.threads, h)),
                ..pre
            }).wf_core(),
    {
        let k = pool_index(pre.threads, h);
        let post = SchedulerView { threads: pre.threads.remove(k), ..pre };
        Self::lemma_remove_frame(pre, post, k);
        assert(post.wf_registry()) by {
            assert forall|i: int| 0 <= i < post.threads.len() implies {
                let t = #[trigger] post.threads[i];
                &&& t.handle.0 < post.next_thread_id
                &&& t.sleep_counter >= 0
                &&& (t.priority == Priority::Idle ==> !t.attribute.queued)
            } by {
                let i2 = if i < k { i } else { i + 1 };
                let t0 = pre.threads[i2];
                assert(t0.handle.0 < pre.next_thread_id);
            }
        }
        assert(post.wf_queues()) by {
            assert(pre.wf_queue(pre.queue_realtime, true));
            assert(pre.wf_queue(pre.queue_normal, false));
            assert forall|i: int| 0 <= i < post.queue_realtime.len() implies post.queue_entry_ok(
                #[trigger] post.queue_realtime[i],
                true,
            ) by {
                let x = pre.queue_realtime[i];
                assert(pre.queue_realtime.contains(x));
                assert(pre.queue_entry_ok(x, true));
            }
            assert forall|i: int| 0 <= i < post.queue_normal.len() implies post.queue_entry_ok(
                #[trigger] post.queue_normal[i],
                false,
            ) by {
                let x = pre.queue_normal[i];
                assert(pre.queue_normal.contains(x));
                assert(pre.queue_entry_ok(x, false));
            }
            vstd::set_lib::lemma_len_subset(post.band_handles(true), pre.band_handles(true));
            vstd::set_lib::lemma_len_subset(post.band_handles(false), pre.band_handles(false));
        }
        assert(post.wf_locals()) by {
            assert forall|c: int| 0 <= c < post.locals.len() implies #[trigger] post.wf_local(
                c,
            ) by {
                assert(pre.wf_local(c));
                let l = pre.locals[c];
                if l.current == h || l.retired == Some(h) {
                    assert(pre.held(h));
                }
            }
        }
    }

    /// A thread that a processor has let go and that waits to be disposed
    /// of: registered, on no processor, in no queue.
    pub open spec fn released(&self, h: ThreadHandle) -> bool {
        &&& pool_contains(self.threads, h)
        &&& !self.held(h)
        &&& !self.enqueued(h)
    }

    /// Disposing of a released thread keeps the structural invariant.
    pub proof fn lemma_retire_wf(pre: SchedulerView, h: ThreadHandle)
        requires
            pre.wf_core(),
            pre.released(h),
        ensures
            pre.retire(h).wf_core(),
            pre.mark(h, false).wf_core(),
            pool_record(pre.threads, h).priority != Priority::Idle && !pool_record(
                pre.threads,
                h,
            ).attribute.zombie && pool_record(pre.threads, h).sleep_counter <= 0 ==> pre.mark(
                h,
                true,
            ).wf_core() && pre.mark(h, true).ready_to_enqueue(h),
    {
        let k = pool_index(pre.threads, h);
        let t = pool_record(pre.threads, h);
        assert(pre.threads[k].handle.0 < pre.next_thread_id);
        let off = pre.mark(h, false);
        Self::lemma_update_offqueue(pre, off, k);
        if t.priority == Priority::Idle {
        } else if t.attribute.zombie {
            Self::lemma_remove_wf(pre, h);
        } else if t.sleep_counter > 0 {
        } else {
            let mid = pre.mark(h, true);
            Self::lemma_update_offqueue(pre, mid, k);
            Self::lemma_update_frame(pre, mid, k);
            assert(mid.enqueued(h) == pre.enqueued(h));
            Self::lemma_enqueue_wf(mid, h);
        }
    }

    /// The state with the sleep counter of thread `h` set to `counter`.
    pub open spec fn with_sleep_counter(self, h: ThreadHandle, counter: isize) -> SchedulerView {
        self.with_thread(
            h,
            ThreadContextData { sleep_counter: counter, ..pool_record(self.threads, h) },
        )
    }

    /// The state after thread `h` was woken: its sleep counter goes down by
    /// one unless it is zero, and the thread is offered to the run queues.
    /// Waking a thread that is not registered does nothing.
    pub open spec fn wake(self, h: ThreadHandle) -> SchedulerView {
        if !pool_contains(self.threads, h) {
            self
        } else if pool_record(self.threads, h).sleep_counter > 0 {
            self.with_sleep_counter(
                h,
                (pool_record(self.threads, h).sleep_counter - 1) as isize,
            ).add(h)
        } else {
            self.add(h)
        }
    }

    /// Waking a thread keeps the structural invariant.
    pub proof fn lemma_wake_wf(pre: SchedulerView, h: ThreadHandle)
        requires
            pre.wf_core(),
        ensures
            pre.wake(h).wf_core(),
            pool_contains(pre.threads, h) && pool_record(pre.threads, h).sleep_counter > 0 ==> {
                let mid = pre.with_sleep_counter(
                    h,
                    (pool_record(pre.threads, h).sleep_counter - 1) as isize,
                );
                &&& mid.wf_core()
                &&& pool_contains(mid.threads, h)
            },
    {
        if pool_contains(pre.threads, h) {
            let k = pool_index(pre.threads, h);
            let t = pool_record(pre.threads, h);
            assert(pre.threads[k].sleep_counter >= 0);
            if t.sleep_counter > 0 {
                let mid = pre.with_sleep_counter(h, (t.sleep_counter - 1) as isize);
                assert(!pre.enqueued(h)) by {
                    if pre.queue_realtime.contains(h) {
                        let i = choose|i: int|
                            0 <= i < pre.queue_realtime.len() && pre.queue_realtime[i] == h;
                        assert(pre.queue_entry_ok(pre.queue_realtime[i], true));
                    }
                    if pre.queue_normal.contains(h) {
                        let i = choose|i: int|
                            0 <= i < pre.queue_normal.len() && pre.queue_normal[i] == h;
                        assert(pre.queue_entry_ok(pre.queue_normal[i], false));
                    }
                }
                assert forall|c: int|
                    0 <= c < pre.locals.len() && (#[trigger] pre.locals[c]).current == h
                        && pre.locals[c].idle != h implies false by {
                    assert(pre.wf_local(c));
                }
                Self::lemma_update_offqueue(pre, mid, k);
                Self::lemma_update_frame(pre, mid, k);
                Self::lemma_add_wf(mid, h);
            } else {
                Self::lemma_add_wf(pre, h);
            }
        }
    }

    // ----- the choice of the next thread and the switch to it -----

    /// Whether the source has a thread to give.
    pub open spec fn source_ready(self, src: Source) -> bool {
        match src {
            Source::Idle => true,
            Source::Realtime => self.queue_realtime.len() > 0,
            Source::Urgent => self.queue_urgent.len() > 0,
            Source::Normal => self.queue_normal.len() > 0,
        }
    }

    /// The thread the source gives to processor `cpu`.
    pub open spec fn head(self, cpu: int, src: Source) -> ThreadHandle {
        match src {
            Source::Idle => self.locals[cpu].idle,
            Source::Realtime => self.queue_realtime[0],
            Source::Urgent => self.queue_urgent[0],
            Source::Normal => self.queue_normal[0],
        }
    }

    /// The state with the head of the source's queue dropped.
    pub open spec fn without_head(self, src: Source) -> SchedulerView {
        match src {
            Source::Idle => self,
            Source::Realtime => SchedulerView {
                queue_realtime: self.queue_realtime.drop_first(),
                ..self
            },
            Source::Urgent => SchedulerView { queue_urgent: self.queue_urgent.drop_first(), ..self },
            Source::Normal => SchedulerView { queue_normal: self.queue_normal.drop_first(), ..self },
        }
    }

    /// The state after the source gave its thread: a thread that leaves a
    /// queue loses its queued mark with it.
    pub open spec fn take(self, src: Source) -> SchedulerView {
        match src {
            Source::Idle => self,
            Source::Realtime => self.without_head(src).mark(self.queue_realtime[0], false),
            Source::Urgent => self.without_head(src).mark(self.queue_urgent[0], false),
            Source::Normal => self.without_head(src).mark(self.queue_normal[0], false),
        }
    }

    /// The source of the next thread for processor `cpu` when any thread
    /// will do: the idle thread on a stalled processor, else the first queue
    /// that is not empty, realtime before urgent before normal.
    pub open spec fn next_source(self, cpu: int) -> Option<Source> {
        if self.stalled(cpu) {
            Some(Source::Idle)
        } else if self.queue_realtime.len() > 0 {
            Some(Source::Realtime)
        } else if self.queue_urgent.len() > 0 {
            Some(Source::Urgent)
        } else if self.queue_normal.len() > 0 {
            Some(Source::Normal)
        } else {
            None
        }
    }

    /// A processor can switch threads when its level is at most `Dispatch`
    /// and no retirement is in flight on it.
    pub open spec fn can_switch(self, cpu: int) -> bool {
        &&& 0 <= cpu < self.locals.len()
        &&& self.locals[cpu].irql.level() <= Irql::Dispatch.level()
        &&& self.locals[cpu].retired.is_none()
    }

    /// What the caller is told to do when processor `cpu` is to run `next`:
    /// nothing if it runs `next` already.
    pub open spec fn switch_action(self, cpu: int, next: ThreadHandle) -> Option<ContextSwitch> {
        let l = self.locals[cpu];
        if l.current == next {
            None
        } else {
            Some(ContextSwitch { from: l.current, to: next, irql: l.irql })
        }
    }

    /// The state after processor `cpu` began to switch to `next`: the thread
    /// it ran retires, `next` runs, and the level is `Dispatch` until the
    /// switch is finished. Nothing changes if it runs `next` already.
    pub open spec fn switch_to(self, cpu: int, next: ThreadHandle) -> SchedulerView {
        let l = self.locals[cpu];
        if l.current == next {
            self
        } else {
            SchedulerView {
                locals: self.locals.update(
                    cpu,
                    LocalScheduler {
                        current: next,
                        retired: Some(l.current),
                        irql: Irql::Dispatch,
                        ..l
                    },
                ),
                ..self
            }
        }
    }

    /// Taking the thread of a source keeps the structural invariant; what
    /// a queue gave is fit to run, in no queue any more and bears no mark.
    /// No other thread record changes.
    pub proof fn lemma_take_wf(pre: SchedulerView, cpu: int, src: Source)
        requires
            pre.wf_core(),
            0 <= cpu < pre.locals.len(),
            pre.source_ready(src),
        ensures
            pre.take(src).wf_core(),
            src == Source::Idle ==> pre.head(cpu, src) == pre.locals[cpu].idle && pre.take(src)
                == pre,
            src != Source::Idle ==> pre.take(src).ready_to_run(pre.head(cpu, src)) && pool_record(
                pre.take(src).threads,
                pre.head(cpu, src),
            ) == pool_record(pre.threads, pre.head(cpu, src)).with_queued(false) && pool_contains(
                pre.threads,
                pre.head(cpu, src),
            ) && !pre.held(pre.head(cpu, src)),
            pre.take(src).locals == pre.locals,
            pre.take(src).threads.len() == pre.threads.len(),
            forall|x: ThreadHandle| #[trigger]
                pool_contains(pre.take(src).threads, x) == pool_contains(pre.threads, x),
            forall|x: ThreadHandle|
                pool_contains(pre.threads, x) && (src == Source::Idle || x != pre.head(cpu, src))
                    ==> #[trigger] pool_record(pre.take(src).threads, x) == pool_record(
                    pre.threads,
                    x,
                ),
            forall|x: ThreadHandle| #[trigger] pre.take(src).held(x) == pre.held(x),
    {
        let post = pre.without_head(src);
        let h = pre.head(cpu, src);
        if src != Source::Idle {
            assert forall|x: ThreadHandle| #[trigger] post.held(x) == pre.held(x) by {
                if pre.held(x) {
                    let c = choose|c: int|
                        0 <= c < pre.locals.len() && ((#[trigger] pre.locals[c]).current == x
                            || pre.locals[c].retired == Some(x));
                    assert(post.locals[c].current == x || post.locals[c].retired == Some(x));
                }
                if post.held(x) {
                    let c = choose|c: int|
                        0 <= c < post.locals.len() && ((#[trigger] post.locals[c]).current == x
                            || post.locals[c].retired == Some(x));
                    assert(pre.locals[c].current == x || pre.locals[c].retired == Some(x));
                }
            }
            assert forall|x: ThreadHandle, r: bool| #[trigger]
                post.queue_entry_ok(x, r) == pre.queue_entry_ok(x, r) by {}
            assert(post.band_handles(true) =~= pre.band_handles(true));
            assert(post.band_handles(false) =~= pre.band_handles(false));
            assert(post.wf_registry());
            assert(post.wf_events());
            assert(post.wf_locals()) by {
                assert forall|c: int| 0 <= c < post.locals.len() implies #[trigger] post.wf_local(
                    c,
                ) by {
                    assert(pre.wf_local(c));
                }
            }
            assert(pre.wf_queue(pre.queue_realtime, true));
            assert(pre.wf_queue(pre.queue_normal, false));
            let realtime = src == Source::Realtime;
            let q0 = if realtime { pre.queue_realtime } else { pre.queue_normal };
            let q = q0.drop_first();
            assert(pre.queue_entry_ok(q0[0], realtime));
            assert(post.wf_queue(q, realtime)) by {
                assert forall|i: int| 0 <= i < q.len() implies post.queue_entry_ok(
                    #[trigger] q[i],
                    realtime,
                ) by {
                    assert(q[i] == q0[i + 1]);
                    assert(pre.queue_entry_ok(q0[i + 1], realtime));
                }
                assert forall|i: int, j: int|
                    0 <= i < q.len() && 0 <= j < q.len() && i != j implies q[i] != q[j] by {
                    assert(q0[i + 1] != q0[j + 1]);
                }
            }
            assert(!q.contains(h)) by {
                if q.contains(h) {
                    let i = choose|i: int| 0 <= i < q.len() && q[i] == h;
                    assert(q0[i + 1] != q0[0]);
                }
            }
            let other = if realtime { pre.queue_normal } else { pre.queue_realtime };
            assert(pre.wf_queue(other, !realtime));
            assert(post.wf_queue(other, !realtime));
            assert(!other.contains(h)) by {
                if other.contains(h) {
                    let i = choose|i: int| 0 <= i < other.len() && other[i] == h;
                    assert(pre.queue_entry_ok(other[i], !realtime));
                }
            }
            assert(post.wf_core());
            assert(!post.enqueued(h));
            let k = pool_index(post.threads, h);
            let done = post.mark(h, false);
            assert(done == pre.take(src));
            assert(post.threads[k].sleep_counter >= 0);
            assert forall|c: int|
                0 <= c < post.locals.len() && (#[trigger] post.locals[c]).current == h
                    && post.locals[c].idle != h implies false by {
                assert(post.held(h));
            }
            Self::lemma_update_offqueue(post, done, k);
            Self::lemma_update_frame(post, done, k);
        }
    }

    /// Switching a processor that can switch to the thread it runs, to its
    /// idle thread, or to a thread that is fit to run, keeps the
    /// structural invariant.
    pub proof fn lemma_switch_wf(pre: SchedulerView, cpu: int, next: ThreadHandle)
        requires
            pre.wf_core(),
            pre.can_switch(cpu),
            next == pre.locals[cpu].current || next == pre.locals[cpu].idle || pre.ready_to_run(
                next,
            ),
        ensures
            pre.switch_to(cpu, next).wf_core(),
    {
        let post = pre.switch_to(cpu, next);
        let l = pre.locals[cpu];
        if l.current != next {
            assert(pre.wf_local(cpu));
            assert forall|x: ThreadHandle| #[trigger] post.held(x) implies pre.held(x) || x
                == next by {
                let c = choose|c: int|
                    0 <= c < post.locals.len() && ((#[trigger] post.locals[c]).current == x
                        || post.locals[c].retired == Some(x));
                if c != cpu {
                    assert(pre.locals[c].current == x || pre.locals[c].retired == Some(x));
                } else {
                    assert(pre.locals[cpu].current == l.current);
                }
            }
            assert(pre.wf_queue(pre.queue_realtime, true));
            assert(pre.wf_queue(pre.queue_normal, false));
            assert(post.wf_registry());
            assert(post.wf_events());
            assert(post.band_handles(true) =~= pre.band_handles(true));
            assert(post.band_handles(false) =~= pre.band_handles(false));
            assert forall|i: int| 0 <= i < post.queue_realtime.len() implies post.queue_entry_ok(
                #[trigger] post.queue_realtime[i],
                true,
            ) by {
                let x = pre.queue_realtime[i];
                assert(pre.queue_realtime.contains(x));
                assert(pre.queue_entry_ok(x, true));
            }
            assert forall|i: int| 0 <= i < post.queue_normal.len() implies post.queue_entry_ok(
                #[trigger] post.queue_normal[i],
                false,
            ) by {
                let x = pre.queue_normal[i];
                assert(pre.queue_normal.contains(x));
                assert(pre.queue_entry_ok(x, false));
            }
            assert(post.wf_queues());
            assert forall|c: int| 0 <= c < post.locals.len() implies #[trigger] post.wf_local(
                c,
            ) by {
                assert(pre.wf_local(c));
            }
            assert forall|a: int, b: int|
                0 <= a < post.locals.len() && 0 <= b < post.locals.len() && a != b implies {
                    let x = #[trigger] post.locals[a];
                    let y = #[trigger] post.locals[b];
                    &&& x.idle != y.idle
                    &&& x.current != y.current
                    &&& x.retired != Some(y.current)
                    &&& (x.retired.is_some() ==> x.retired != y.retired)
                } by {
                let x0 = pre.locals[a];
                let y0 = pre.locals[b];
                assert(pre.wf_local(a));
                assert(pre.wf_local(b));
                assert(x0.idle != y0.idle);
                if a == cpu {
                    assert(pre.held(y0.current));
                    if y0.retired.is_some() {
                        assert(pre.held(y0.retired.unwrap()));
                    }
                } else if b == cpu {
                    assert(pre.held(x0.current));
                    if x0.retired.is_some() {
                        assert(pre.held(x0.retired.unwrap()));
                    }
                }
            }
        }
    }

    /// The state after source `src` gave its thread to processor `cpu`, and
    /// what the caller is told to do.
    pub open spec fn dispatch(self, cpu: int, src: Source) -> (SchedulerView, Option<ContextSwitch>) {
        (
            self.take(src).switch_to(cpu, self.head(cpu, src)),
            self.switch_action(cpu, self.head(cpu, src)),
        )
    }

    /// Giving a processor that can switch the thread of a source keeps the
    /// invariant.
    pub proof fn lemma_dispatch_wf(pre: SchedulerView, cpu: int, src: Source)
        requires
            pre.wf_core(),
            pre.can_switch(cpu),
            pre.source_ready(src),
        ensures
            pre.dispatch(cpu, src).0.wf_core(),
            pre.take(src).wf_core(),
            pre.take(src).can_switch(cpu),
            pre.head(cpu, src) == pre.take(src).locals[cpu].idle || pre.take(src).ready_to_run(
                pre.head(cpu, src),
            ),
            pre.take(src).switch_action(cpu, pre.head(cpu, src)) == pre.dispatch(cpu, src).1,
    {
        Self::lemma_take_wf(pre, cpu, src);
        Self::lemma_switch_wf(pre.take(src), cpu, pre.head(cpu, src));
    }

    /// The state after the time since its last accounting was charged to
    /// thread `h`.
    pub open spec fn update_statistics(self, h: ThreadHandle, now: TimeSpec) -> SchedulerView {
        if pool_contains(self.threads, h) {
            self.with_thread(h, pool_record(self.threads, h).accounted(now.spec_ticks()))
        } else {
            self
        }
    }

    /// The state after thread `h` spent a tick of its quantum.
    pub open spec fn consume_quantum(self, h: ThreadHandle) -> SchedulerView {
        let t = pool_record(self.threads, h);
        self.with_thread(h, ThreadContextData { quantum: t.quantum.consumed(), ..t })
    }

    /// The state with the timer thread signalled if the earliest pending
    /// deadline has passed at `now`.
    pub open spec fn check_timer(self, now: TimeSpec) -> SchedulerView {
        if (Timer { deadline: TimeSpec(self.next_timer) }).alive_at(now) {
            self
        } else {
            SchedulerView { sem_timer: self.sem_timer.signaled(), ..self }
        }
    }

    /// The source that preempts the thread on processor `cpu`, if any: the
    /// idle thread when the system is frozen; nothing while a realtime
    /// thread runs; the idle thread on a stalled processor; else the
    /// realtime queue, the urgent queue if the thread is below `High`, the
    /// normal queue if it is below `Normal`.
    pub open spec fn preempt_source(self, cpu: int) -> Option<Source> {
        let p = pool_record(self.threads, self.locals[cpu].current).priority;
        if self.is_frozen {
            Some(Source::Idle)
        } else if p == Priority::Realtime {
            None
        } else if self.stalled(cpu) {
            Some(Source::Idle)
        } else if self.queue_realtime.len() > 0 {
            Some(Source::Realtime)
        } else if p.level() < Priority::High.level() && self.queue_urgent.len() > 0 {
            Some(Source::Urgent)
        } else if p.level() < Priority::Normal.level() && self.queue_normal.len() > 0 {
            Some(Source::Normal)
        } else {
            None
        }
    }

    /// The thread on processor `cpu` spends a tick of its quantum when
    /// nothing preempts it and it is no realtime thread.
    pub open spec fn spends_quantum(self, cpu: int) -> bool {
        self.preempt_source(cpu).is_none() && pool_record(
            self.threads,
            self.locals[cpu].current,
        ).priority != Priority::Realtime
    }

    /// The state after processor `cpu` was asked to reschedule at `now`, and
    /// what the caller is told to do.
    pub open spec fn reschedule(self, cpu: int, now: TimeSpec) -> (
        SchedulerView,
        Option<ContextSwitch>,
    ) {
        if self.state == SchedulerState::Disabled {
            (self, None)
        } else {
            let current = self.locals[cpu].current;
            let s = self.update_statistics(current, now).check_timer(now);
            match s.preempt_source(cpu) {
                Some(src) => s.dispatch(cpu, src),
                None => if s.spends_quantum(cpu) {
                    let spent = s.consume_quantum(current);
                    if pool_record(s.threads, current).quantum.is_last_tick() {
                        match spent.next_source(cpu) {
                            Some(src) => spent.dispatch(cpu, src),
                            None => (spent, None),
                        }
                    } else {
                        (spent, None)
                    }
                } else {
                    (s, None)
                },
            }
        }
    }

    /// Charging time to a thread keeps the structural invariant and leaves queues,
    /// processors, and what decides about scheduling, as they were.
    pub proof fn lemma_update_statistics_wf(pre: SchedulerView, h: ThreadHandle, now: TimeSpec)
        requires
            pre.wf_core(),
        ensures
            pre.update_statistics(h, now).wf_core(),
            pool_contains(pre.threads, h) ==> pool_record(pre.update_statistics(h, now).threads, h)
                == pool_record(pre.threads, h).accounted(now.spec_ticks()),
            forall|x: ThreadHandle| #[trigger]
                pool_contains(pre.update_statistics(h, now).threads, x) == pool_contains(
                    pre.threads,
                    x,
                ),
            forall|c: int|
                0 <= c < pre.locals.len() ==> #[trigger] pre.update_statistics(h, now).can_switch(c)
                    == pre.can_switch(c),
    {
        if pool_contains(pre.threads, h) {
            let k = pool_index(pre.threads, h);
            Self::lemma_update_inert(pre, pre.update_statistics(h, now), k);
            Self::lemma_update_frame(pre, pre.update_statistics(h, now), k);
        }
    }

    /// Spending a tick of a thread's quantum keeps the structural invariant.
    pub proof fn lemma_consume_quantum_wf(pre: SchedulerView, h: ThreadHandle)
        requires
            pre.wf_core(),
            pool_contains(pre.threads, h),
        ensures
            pre.consume_quantum(h).wf_core(),
    {
        let k = pool_index(pre.threads, h);
        Self::lemma_update_inert(pre, pre.consume_quantum(h), k);
    }

    /// Rescheduling a processor that can switch keeps the structural invariant.
    pub proof fn lemma_reschedule_wf(pre: SchedulerView, cpu: int, now: TimeSpec)
        requires
            pre.wf_core(),
            pre.can_switch(cpu),
        ensures
            pre.reschedule(cpu, now).0.wf_core(),
    {
        if pre.state != SchedulerState::Disabled {
            let current = pre.locals[cpu].current;
            assert(pre.wf_local(cpu));
            Self::lemma_update_statistics_wf(pre, current, now);
            let s1 = pre.update_statistics(current, now);
            let s = s1.check_timer(now);
            assert(s.wf_core()) by {
                Self::lemma_same_but_flags(s1, s);
            }
            assert(s.can_switch(cpu));
            match s.preempt_source(cpu) {
                Some(src) => {
                    Self::lemma_dispatch_wf(s, cpu, src);
                },
                None => {
                    if s.spends_quantum(cpu) {
                        assert(pool_contains(s.threads, current));
                        Self::lemma_consume_quantum_wf(s, current);
                        let spent = s.consume_quantum(current);
                        assert(spent.can_switch(cpu));
                        match spent.next_source(cpu) {
                            Some(src) => {
                                Self::lemma_dispatch_wf(spent, cpu, src);
                            },
                            None => {},
                        }
                    }
                },
            }
        }
    }

    /// The structural invariant does not depend on the scheduler's state, its load
    /// figures, the frozen flag, the published deadline, or the timer
    /// semaphore.
    pub proof fn lemma_same_but_flags(pre: SchedulerView, post: SchedulerView)
        requires
            pre.wf_core(),
            post == (SchedulerView {
                state: post.state,
                usage: post.usage,
                usage_total: post.usage_total,
                is_frozen: post.is_frozen,
                next_timer: post.next_timer,
                sem_timer: post.sem_timer,
                ..pre
            }),
        ensures
            post.wf_core(),
    {
        assert forall|x: ThreadHandle| #[trigger] post.held(x) == pre.held(x) by {
            if pre.held(x) {
                let c = choose|c: int|
                    0 <= c < pre.locals.len() && ((#[trigger] pre.locals[c]).current == x
                        || pre.locals[c].retired == Some(x));
                assert(post.locals[c].current == x || post.locals[c].retired == Some(x));
            }
            if post.held(x) {
                let c = choose|c: int|
                    0 <= c < post.locals.len() && ((#[trigger] post.locals[c]).current == x
                        || post.locals[c].retired == Some(x));
                assert(pre.locals[c].current == x || pre.locals[c].retired == Some(x));
            }
        }
        assert forall|x: ThreadHandle, r: bool| #[trigger]
            post.queue_entry_ok(x, r) == pre.queue_entry_ok(x, r) by {}
        assert(post.band_handles(true) =~= pre.band_handles(true));
        assert(post.band_handles(false) =~= pre.band_handles(false));
        assert(pre.wf_queue(pre.queue_realtime, true));
        assert(pre.wf_queue(pre.queue_normal, false));
        assert(post.wf_locals()) by {
            assert forall|c: int| 0 <= c < post.locals.len() implies #[trigger] post.wf_local(
                c,
            ) by {
                assert(pre.wf_local(c));
            }
        }
    }

    // ----- the end of a switch, sleeping and yielding -----

    /// The state with the retirement slot of processor `cpu` emptied and its
    /// level set to `irql`.
    pub open spec fn with_slot_cleared(self, cpu: int, irql: Irql) -> SchedulerView {
        SchedulerView {
            locals: self.locals.update(
                cpu,
                LocalScheduler { retired: None, irql, ..self.locals[cpu] },
            ),
            ..self
        }
    }

    /// The state with the clock sample `now` noted as the time thread `h`
    /// began to run.
    pub open spec fn stamp(self, h: ThreadHandle, now: TimeSpec) -> SchedulerView {
        self.with_thread(
            h,
            ThreadContextData { measure: now.spec_ticks(), ..pool_record(self.threads, h) },
        )
    }

    /// The state after processor `cpu` finished a switch at `now`: the
    /// thread that runs now is stamped, the thread that retired is disposed
    /// of, and the level goes down to `irql`.
    pub open spec fn switch_context_after(self, cpu: int, irql: Irql, now: TimeSpec) -> SchedulerView {
        let l = self.locals[cpu];
        self.stamp(l.current, now).with_slot_cleared(cpu, irql).retire(l.retired.unwrap())
    }

    /// A switch can be finished on a processor on which a thread retires,
    /// at a level that is not above the processor's.
    pub open spec fn can_finish_switch(self, cpu: int, irql: Irql) -> bool {
        &&& 0 <= cpu < self.locals.len()
        &&& self.locals[cpu].retired.is_some()
        &&& irql.level() <= self.locals[cpu].irql.level()
    }

    /// Emptying a retirement slot keeps the structural invariant, and the thread that
    /// was in it is released.
    pub proof fn lemma_slot_cleared_wf(pre: SchedulerView, cpu: int, irql: Irql)
        requires
            pre.wf_core(),
            0 <= cpu < pre.locals.len(),
        ensures
            pre.with_slot_cleared(cpu, irql).wf_core(),
            pre.locals[cpu].retired.is_some() ==> pre.with_slot_cleared(cpu, irql).released(
                pre.locals[cpu].retired.unwrap(),
            ),
    {
        let post = pre.with_slot_cleared(cpu, irql);
        let l = pre.locals[cpu];
        assert(pre.wf_local(cpu));
        assert forall|x: ThreadHandle| #[trigger] post.held(x) implies pre.held(x) by {
            let c = choose|c: int|
                0 <= c < post.locals.len() && ((#[trigger] post.locals[c]).current == x
                    || post.locals[c].retired == Some(x));
            assert(pre.locals[c].current == x || pre.locals[c].retired == Some(x));
        }
        assert(pre.wf_queue(pre.queue_realtime, true));
        assert(pre.wf_queue(pre.queue_normal, false));
        assert(post.band_handles(true) =~= pre.band_handles(true));
        assert(post.band_handles(false) =~= pre.band_handles(false));
        assert forall|i: int| 0 <= i < post.queue_realtime.len() implies post.queue_entry_ok(
            #[trigger] post.queue_realtime[i],
            true,
        ) by {
            assert(pre.queue_entry_ok(pre.queue_realtime[i], true));
        }
        assert forall|i: int| 0 <= i < post.queue_normal.len() implies post.queue_entry_ok(
            #[trigger] post.queue_normal[i],
            false,
        ) by {
            assert(pre.queue_entry_ok(pre.queue_normal[i], false));
        }
        assert forall|c: int| 0 <= c < post.locals.len() implies #[trigger] post.wf_local(c) by {
            assert(pre.wf_local(c));
        }
        assert forall|a: int, b: int|
            0 <= a < post.locals.len() && 0 <= b < post.locals.len() && a != b implies {
                let x = #[trigger] post.locals[a];
                let y = #[trigger] post.locals[b];
                &&& x.idle != y.idle
                &&& x.current != y.current
                &&& x.retired != Some(y.current)
                &&& (x.retired.is_some() ==> x.retired != y.retired)
            } by {
            let x0 = pre.locals[a];
            let y0 = pre.locals[b];
            assert(x0.idle != y0.idle);
        }
        if l.retired.is_some() {
            let r = l.retired.unwrap();
            assert(pre.held(r));
            if post.held(r) {
                let c = choose|c: int|
                    0 <= c < post.locals.len() && ((#[trigger] post.locals[c]).current == r
                        || post.locals[c].retired == Some(r));
                if c != cpu {
                    let x0 = pre.locals[cpu];
                    let y0 = pre.locals[c];
                    assert(x0.retired != Some(y0.current));
                    assert(x0.retired != y0.retired);
                }
            }
            assert(!pre.enqueued(r)) by {
                if pre.queue_realtime.contains(r) {
                    let i = choose|i: int|
                        0 <= i < pre.queue_realtime.len() && pre.queue_realtime[i] == r;
                    assert(pre.queue_entry_ok(pre.queue_realtime[i], true));
                }
                if pre.queue_normal.contains(r) {
                    let i = choose|i: int|
                        0 <= i < pre.queue_normal.len() && pre.queue_normal[i] == r;
                    assert(pre.queue_entry_ok(pre.queue_normal[i], false));
                }
            }
        }
    }

    /// Finishing a switch keeps the structural invariant.
    pub proof fn lemma_switch_context_after_wf(
        pre: SchedulerView,
        cpu: int,
        irql: Irql,
        now: TimeSpec,
    )
        requires
            pre.wf_core(),
            pre.can_finish_switch(cpu, irql),
        ensures
            pre.switch_context_after(cpu, irql, now).wf_core(),
            pre.stamp(pre.locals[cpu].current, now).wf_core(),
            pre.stamp(pre.locals[cpu].current, now).with_slot_cleared(cpu, irql).wf_core(),
            pre.stamp(pre.locals[cpu].current, now).with_slot_cleared(cpu, irql).released(
                pre.locals[cpu].retired.unwrap(),
            ),
    {
        let l = pre.locals[cpu];
        assert(pre.wf_local(cpu));
        let k = pool_index(pre.threads, l.current);
        let s1 = pre.stamp(l.current, now);
        Self::lemma_update_inert(pre, s1, k);
        Self::lemma_slot_cleared_wf(s1, cpu, irql);
        let s2 = s1.with_slot_cleared(cpu, irql);
        Self::lemma_retire_wf(s2, l.retired.unwrap());
    }

    /// The state after the thread on processor `cpu` gave up the processor at
    /// `now`, and what the caller is told to do: the thread is charged for
    /// its time, and the processor switches to the next thread that waits,
    /// or to its idle thread if none does.
    pub open spec fn yield_thread(self, cpu: int, now: TimeSpec) -> (
        SchedulerView,
        Option<ContextSwitch>,
    ) {
        let s = self.update_statistics(self.locals[cpu].current, now);
        match s.next_source(cpu) {
            Some(src) => s.dispatch(cpu, src),
            None => s.dispatch(cpu, Source::Idle),
        }
    }

    /// A sleep counter one higher, held at the largest value.
    pub open spec fn bumped(counter: isize) -> isize {
        if counter < isize::MAX {
            (counter + 1) as isize
        } else {
            counter
        }
    }

    /// The state after the thread on processor `cpu` went to sleep at `now`,
    /// and what the caller is told to do: the thread gives up the processor
    /// and its sleep counter goes up by one.
    pub open spec fn sleep(self, cpu: int, now: TimeSpec) -> (SchedulerView, Option<ContextSwitch>) {
        let current = self.locals[cpu].current;
        let yielded = self.yield_thread(cpu, now);
        (
            yielded.0.with_sleep_counter(
                current,
                Self::bumped(pool_record(yielded.0.threads, current).sleep_counter),
            ),
            yielded.1,
        )
    }

    /// Yielding keeps the structural invariant. Afterwards the thread that yielded waits
    /// in no queue, and runs only where it is the idle thread.
    pub proof fn lemma_yield_wf(pre: SchedulerView, cpu: int, now: TimeSpec)
        requires
            pre.wf_core(),
            pre.can_switch(cpu),
        ensures
            pre.yield_thread(cpu, now).0.wf_core(),
            pre.update_statistics(pre.locals[cpu].current, now).wf_core(),
            pre.update_statistics(pre.locals[cpu].current, now).can_switch(cpu),
            ({
                let post = pre.yield_thread(cpu, now).0;
                let t = pre.locals[cpu].current;
                &&& pool_contains(post.threads, t)
                &&& post.threads.len() == pre.threads.len()
                &&& pool_record(post.threads, t) == pool_record(pre.threads, t).accounted(
                    now.spec_ticks(),
                )
                &&& !post.enqueued(t)
                &&& post.held(t)
                &&& (pool_record(pre.threads, t).priority != Priority::Idle ==> pool_record(
                    pre.threads,
                    t,
                ).sleep_counter == 0)
                &&& forall|c: int|
                    0 <= c < post.locals.len() && (#[trigger] post.locals[c]).current == t
                        ==> post.locals[c].idle == t
            }),
    {
        let t = pre.locals[cpu].current;
        assert(pre.wf_local(cpu));
        Self::lemma_update_statistics_wf(pre, t, now);
        let s = pre.update_statistics(t, now);
        let src = match s.next_source(cpu) {
            Some(src) => src,
            None => Source::Idle,
        };
        Self::lemma_dispatch_wf(s, cpu, src);
        let post = pre.yield_thread(cpu, now).0;
        assert(post == s.dispatch(cpu, src).0);
        Self::lemma_take_wf(s, cpu, src);
        let mid = s.take(src);
        let next = s.head(cpu, src);
        assert(s.locals == pre.locals);
        assert(mid.locals == pre.locals);
        assert(s.held(t));
        assert(pool_contains(s.threads, t));
        assert(pool_record(mid.threads, t) == pool_record(s.threads, t));
        if next != t {
            assert(post.locals[cpu].retired == Some(t));
        } else {
            assert(post.locals[cpu].current == t);
        }
        assert(post.held(t));
        assert(post.wf_queue(post.queue_realtime, true));
        assert(post.wf_queue(post.queue_normal, false));
        assert(!post.enqueued(t)) by {
            if post.queue_realtime.contains(t) {
                let i = choose|i: int|
                    0 <= i < post.queue_realtime.len() && post.queue_realtime[i] == t;
                assert(post.queue_entry_ok(post.queue_realtime[i], true));
            }
            if post.queue_normal.contains(t) {
                let i = choose|i: int| 0 <= i < post.queue_normal.len() && post.queue_normal[i] == t;
                assert(post.queue_entry_ok(post.queue_normal[i], false));
            }
        }
        assert forall|c: int|
            0 <= c < post.locals.len() && (#[trigger] post.locals[c]).current == t implies post.locals[c].idle
            == t by {
            if c != cpu {
                assert(pre.locals[c].current != pre.locals[cpu].current);
            } else {
                if src != Source::Idle {
                    assert(!mid.held(next));
                    assert(mid.locals[cpu].current == t);
                }
            }
        }
        if pool_record(pre.threads, t).priority != Priority::Idle {
            assert(pre.runs_ok(t));
        }
    }

    /// Going to sleep keeps the structural invariant.
    pub proof fn lemma_sleep_wf(pre: SchedulerView, cpu: int, now: TimeSpec)
        requires
            pre.wf_core(),
            pre.can_switch(cpu),
        ensures
            pre.sleep(cpu, now).0.wf_core(),
    {
        Self::lemma_yield_wf(pre, cpu, now);
        let t = pre.locals[cpu].current;
        let y = pre.yield_thread(cpu, now).0;
        let k = pool_index(y.threads, t);
        assert(y.threads[k].sleep_counter >= 0);
        Self::lemma_update_offqueue(y, pre.sleep(cpu, now).0, k);
    }
}

} // verus!
