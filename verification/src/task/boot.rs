//! How the scheduler comes to life: the idle process and one idle thread
//! per processor, then the first process of the system.

use vstd::prelude::*;
use crate::sync::{ConcurrentFifo, Semaphore};
use crate::task::irql::{Irql, LocalScheduler, ProcessorCoreType, ProcessorIndex};
use crate::task::lifecycle::SpawnOption;
use crate::task::model::{SchedulerView, MAX_PROCESSORS};
use crate::task::priority::{Priority, SchedulerState};
use crate::task::process::{ProcessContextData, ProcessId, ProcessPool};
use crate::task::scheduler::{
    Scheduler, ThreadQueue, SIZE_OF_MAIN_QUEUE, SIZE_OF_SUB_QUEUE, SIZE_OF_TIMER_QUEUE,
};
use crate::task::thread::{
    lemma_index_unique, pool_contains, pool_index, pool_record, ThreadContextData, ThreadHandle,
    ThreadPool, ThreadStart,
};
use crate::task::timer::TimeSpec;
use crate::text::{digits, padded, push_decimal};

verus! {

/// The name of the idle thread of processor `c`.
pub open spec fn idle_name(c: int) -> Seq<char> {
    "Idle_#"@ + digits(c as nat)
}

/// Makes the name of the idle thread of processor `index`.
fn make_idle_name(index: usize) -> (r: String)
    ensures
        r@ == idle_name(index as int),
{
    let mut name = String::new();
    name.push_str("Idle_#");
    push_decimal(&mut name, index, 0, ' ');
    assert(padded(digits(index as nat), 0, ' ') == digits(index as nat));
    name
}

impl SchedulerView {
    /// The state of a scheduler that has just been set up for processors of
    /// the given kinds: it runs in normal operation; every processor runs
    /// its idle thread at the lowest level; the idle threads have the
    /// handles from 1 on and belong to the idle process, process 0; all
    /// queues are empty.
    pub open spec fn is_booted(
        self,
        cpus: Seq<ProcessorCoreType>,
        performance_cpus: usize,
        now: TimeSpec,
    ) -> bool {
        &&& self.state == SchedulerState::Normal
        &&& self.queue_realtime.len() == 0
        &&& self.queue_urgent.len() == 0
        &&& self.queue_normal.len() == 0
        &&& self.cap_realtime == SIZE_OF_SUB_QUEUE
        &&& self.cap_urgent == SIZE_OF_SUB_QUEUE
        &&& self.cap_normal == SIZE_OF_MAIN_QUEUE
        &&& self.locals.len() == cpus.len()
        &&& forall|c: int|
            0 <= c < cpus.len() ==> #[trigger] self.locals[c] == (LocalScheduler {
                index: ProcessorIndex(c as usize),
                core_type: cpus[c],
                idle: ThreadHandle((c + 1) as usize),
                current: ThreadHandle((c + 1) as usize),
                retired: None,
                irql: Irql::Passive,
            })
        &&& self.num_of_performance_cpus == performance_cpus
        &&& self.usage == 0
        &&& self.usage_total == 0
        &&& !self.is_frozen
        &&& self.next_timer == 0
        &&& self.sem_timer.value == 0
        &&& self.timer_queue.len() == 0
        &&& self.cap_timer == SIZE_OF_TIMER_QUEUE
        &&& self.events.len() == 0
        &&& self.threads.len() == cpus.len()
        &&& forall|c: int|
            0 <= c < cpus.len() ==> (#[trigger] self.threads[c]).is_fresh(
                ThreadHandle((c + 1) as usize),
                ProcessId(0),
                Priority::Idle,
                idle_name(c),
                None,
                None,
            )
        &&& self.processes.len() == 1
        &&& self.processes[0].is_fresh(
            ProcessId(0),
            ProcessId(0),
            Priority::Idle,
            "idle"@,
            "/"@,
            now,
        )
        &&& self.next_thread_id == cpus.len() + 1
        &&& self.next_pid == 1
    }

    /// A scheduler that has just been set up meets the invariant, and a
    /// thread of any priority can be spawned in it from any processor.
    pub proof fn lemma_booted_wf(
        self,
        cpus: Seq<ProcessorCoreType>,
        performance_cpus: usize,
        now: TimeSpec,
    )
        requires
            self.is_booted(cpus, performance_cpus, now),
            0 < performance_cpus <= cpus.len() <= MAX_PROCESSORS,
        ensures
            self.wf(),
            self.band_handles(true) =~= Set::empty(),
            self.band_handles(false) =~= Set::empty(),
            forall|cpu: ProcessorIndex|
                cpu.0 < cpus.len() ==> #[trigger] self.spec_current_pid(cpu) == ProcessId(0),
    {
        assert forall|c: int| 0 <= c < cpus.len() implies pool_contains(
            self.threads,
            ThreadHandle((c + 1) as usize),
        ) && #[trigger] pool_record(self.threads, ThreadHandle((c + 1) as usize)) == self.threads[c] by {
            assert(self.threads[c].handle == ThreadHandle((c + 1) as usize));
            assert(crate::task::thread::pool_wf(self.threads)) by {
                assert forall|i: int, j: int| 0 <= i < j < self.threads.len() implies (
                #[trigger] self.threads[i]).handle.0 < (#[trigger] self.threads[j]).handle.0 by {}
            }
            lemma_index_unique(self.threads, ThreadHandle((c + 1) as usize), c);
        }
        assert forall|h: ThreadHandle| pool_contains(self.threads, h) implies #[trigger] pool_record(
            self.threads,
            h,
        ).priority == Priority::Idle by {
            let i = pool_index(self.threads, h);
            assert(self.threads[i].priority == Priority::Idle);
        }
        assert(self.band_handles(true) =~= Set::empty());
        assert(self.band_handles(false) =~= Set::empty());
        assert(self.wf_registry());
        assert(self.wf_queues());
        assert(self.wf_locals()) by {
            assert forall|c: int| 0 <= c < self.locals.len() implies #[trigger] self.wf_local(
                c,
            ) by {
                let x = pool_record(self.threads, ThreadHandle((c + 1) as usize));
            }
        }
        assert forall|cpu: ProcessorIndex| cpu.0 < cpus.len() implies #[trigger]
            self.spec_current_pid(cpu) == ProcessId(0) by {
            let c = cpu.0 as int;
            let x = pool_record(self.threads, ThreadHandle((c + 1) as usize));
            assert(self.locals[c].current == ThreadHandle((c + 1) as usize));
        }
    }

    /// `mid` is the state after the timer thread, and `post` the state after
    /// the statistics thread, was spawned from processor `cpu` in state
    /// `pre`, with the results `r`.
    pub open spec fn late_init_steps(
        pre: SchedulerView,
        mid: SchedulerView,
        post: SchedulerView,
        cpu: ProcessorIndex,
        timer_entry: ThreadStart,
        statistics_entry: ThreadStart,
        now: TimeSpec,
        r: (Option<ThreadHandle>, Option<ThreadHandle>),
    ) -> bool {
        &&& Self::spawned(
            pre,
            mid,
            cpu,
            timer_entry,
            "scheduler"@,
            SpawnOption { priority: Some(Priority::Realtime), new_process: false, personality: None },
            now,
            r.0,
        )
        &&& Self::spawned(
            mid,
            post,
            cpu,
            statistics_entry,
            "statistics"@,
            SpawnOption { priority: Some(Priority::Realtime), new_process: false, personality: None },
            now,
            r.1,
        )
    }

    /// The state of the scheduler as `start` leaves it: set up, and with the
    /// first process of the system spawned from processor 0, at priority
    /// `High`, under the name "System".
    pub open spec fn is_started(
        self,
        cpus: Seq<ProcessorCoreType>,
        performance_cpus: usize,
        f: ThreadStart,
        now: TimeSpec,
    ) -> bool {
        exists|base: SchedulerView| #[trigger]
            base.is_booted(cpus, performance_cpus, now) && Self::spawned(
                base,
                self,
                ProcessorIndex(0),
                f,
                "System"@,
                SpawnOption { priority: Some(Priority::High), new_process: true, personality: None },
                now,
                Some(ThreadHandle((cpus.len() + 1) as usize)),
            )
    }
}

impl Scheduler {
    /// Sets the scheduler up for processors of the given kinds, of which
    /// `num_of_performance_cpus` are performance cores, and starts the first
    /// process of the system at `f`. The caller then idles until the first
    /// interrupt.
    pub fn start(
        cpus: &Vec<ProcessorCoreType>,
        num_of_performance_cpus: usize,
        f: ThreadStart,
        now: TimeSpec,
    ) -> (r: Scheduler)
        requires
            0 < num_of_performance_cpus <= cpus@.len() <= MAX_PROCESSORS,
        ensures
            r.wf(),
            r@.is_started(cpus@, num_of_performance_cpus, f, now),
    {
        let n = cpus.len();
        let mut threads = ThreadPool::new();
        let mut locals: Vec<LocalScheduler> = Vec::new();
        let mut index: usize = 0;
        while index < n
            invariant
                n == cpus@.len(),
                n <= MAX_PROCESSORS,
                index <= n,
                threads.wf(),
                threads@.len() == index,
                locals@.len() == index,
                forall|c: int|
                    0 <= c < index ==> (#[trigger] threads@[c]).is_fresh(
                        ThreadHandle((c + 1) as usize),
                        ProcessId(0),
                        Priority::Idle,
                        idle_name(c),
                        None,
                        None,
                    ),
                forall|c: int|
                    0 <= c < index ==> #[trigger] locals@[c] == (LocalScheduler {
                        index: ProcessorIndex(c as usize),
                        core_type: cpus@[c],
                        idle: ThreadHandle((c + 1) as usize),
                        current: ThreadHandle((c + 1) as usize),
                        retired: None,
                        irql: Irql::Passive,
                    }),
            decreases n - index,
        {
            let name = make_idle_name(index);
            let idle = ThreadHandle(index + 1);
            let thread = ThreadContextData::new(
                idle,
                ProcessId(0),
                Priority::Idle,
                name.as_str(),
                None,
                None,
            );
            threads.add(thread);
            locals.push(LocalScheduler::new(ProcessorIndex(index), cpus[index], idle));
            index = index + 1;
        }
        let mut processes = ProcessPool::new();
        processes.add(
            ProcessContextData::new(ProcessId(0), ProcessId(0), Priority::Idle, "idle", "/", now),
        );
        let mut scheduler = Scheduler {
            state: SchedulerState::Normal,
            queue_realtime: ThreadQueue::with_capacity(SIZE_OF_SUB_QUEUE),
            queue_urgent: ThreadQueue::with_capacity(SIZE_OF_SUB_QUEUE),
            queue_normal: ThreadQueue::with_capacity(SIZE_OF_MAIN_QUEUE),
            locals,
            num_of_performance_cpus,
            usage: 0,
            usage_total: 0,
            is_frozen: false,
            next_timer: 0,
            sem_timer: Semaphore::new(0),
            timer_queue: ConcurrentFifo::with_capacity(SIZE_OF_TIMER_QUEUE),
            events: Vec::new(),
            threads,
            processes,
            next_thread_id: n + 1,
            next_pid: 1,
        };
        let ghost base = scheduler@;
        proof {
            assert(base.is_booted(cpus@, num_of_performance_cpus, now));
            base.lemma_booted_wf(cpus@, num_of_performance_cpus, now);
        }
        let options = SpawnOption {
            priority: Some(Priority::High),
            new_process: true,
            personality: None,
        };
        let first = scheduler.spawn_thread(ProcessorIndex(0), f, "System", options, now);
        proof {
            assert(base.can_spawn(ProcessorIndex(0), options));
            assert(first == Some(ThreadHandle((n + 1) as usize)));
            base.lemma_booted_consistent(cpus@, num_of_performance_cpus, now);
        }
        scheduler
    }

    /// Starts the two threads the scheduler itself needs, at priority
    /// `Realtime`: the timer thread, named "scheduler", at `timer_entry`,
    /// and the statistics thread, named "statistics", at `statistics_entry`.
    /// They are spawned from processor `cpu`, one after the other.
    pub fn late_init(
        &mut self,
        cpu: ProcessorIndex,
        timer_entry: ThreadStart,
        statistics_entry: ThreadStart,
        now: TimeSpec,
    ) -> (r: (Option<ThreadHandle>, Option<ThreadHandle>))
        requires
            old(self).wf(),
        ensures
            final(self).wf(),
            exists|mid: SchedulerView|
                SchedulerView::late_init_steps(
                    old(self)@,
                    mid,
                    final(self)@,
                    cpu,
                    timer_entry,
                    statistics_entry,
                    now,
                    r,
                ),
    {
        let first = SpawnOption::with_priority(Priority::Realtime).start(
            self,
            cpu,
            timer_entry,
            "scheduler",
            now,
        );
        let ghost mid = self@;
        let second = SpawnOption::with_priority(Priority::Realtime).start(
            self,
            cpu,
            statistics_entry,
            "statistics",
            now,
        );
        proof {
            assert(SchedulerView::late_init_steps(
                old(self)@,
                mid,
                self@,
                cpu,
                timer_entry,
                statistics_entry,
                now,
                (first, second),
            ));
        }
        (first, second)
    }
}

} // verus!
