//! The statistics pass: per-thread and per-process load, the load of the
//! machine, and the switch between normal operation and full throttle.

use vstd::prelude::*;
use crate::task::model::SchedulerView;
use crate::task::priority::{Priority, SchedulerState};
use crate::task::process::{
    process_pool_contains,
    process_pool_index,
    process_pool_wf,
    ProcessContextData,
    ProcessId,
};
use crate::task::scheduler::{Scheduler, THRESHOLD_ENTER_MAX, THRESHOLD_LEAVE_MAX};
use crate::task::thread::{
    lemma_index_unique,
    pool_contains,
    pool_index,
    pool_record,
    pool_wf,
    ThreadContextData,
    ThreadHandle,
};

verus! {

/// The load of a thread in per mille of the interval: its busy ticks,
/// `load0`, times a million, over a thousand times the `actual` ticks that
/// passed since the last pass, never more than 1000. A thread that was busy
/// for the whole interval has the load 1000.
pub open spec fn thread_load(load0: u32, actual: usize) -> int {
    let raw = (load0 as int * 1_000_000) / (actual as int * 1000);
    if raw < 1000 {
        raw
    } else {
        1000
    }
}

/// A thread record after the pass: its load is set and its busy ticks are
/// counted from zero again.
pub open spec fn measured(t: ThreadContextData, actual: usize) -> ThreadContextData {
    ThreadContextData { load0: 0, load: thread_load(t.load0, actual) as u32, ..t }
}

/// The sum of the loads of the threads whose priority is not `Idle`.
pub open spec fn usage_sum(threads: Seq<ThreadContextData>, actual: usize) -> int
    decreases threads.len(),
{
    if threads.len() == 0 {
        0
    } else {
        usage_sum(threads.drop_last(), actual) + (if threads.last().priority != Priority::Idle {
            thread_load(threads.last().load0, actual)
        } else {
            0
        })
    }
}

/// The process records after a thread of process `pid` with `load0` busy
/// ticks was charged to its process: the busy ticks go to the processor
/// time, the load to the load gathered in this pass. A thread whose process
/// is gone is charged to nobody.
pub open spec fn charge_one(
    processes: Seq<ProcessContextData>,
    pid: ProcessId,
    load0: u32,
    actual: usize,
) -> Seq<ProcessContextData> {
    if process_pool_contains(processes, pid) {
        let k = process_pool_index(processes, pid);
        let p = processes[k];
        processes.update(
            k,
            ProcessContextData {
                cpu_time: p.cpu_time.wrapping_add(load0 as usize),
                load0: p.load0.wrapping_add(thread_load(load0, actual) as u32),
                ..p
            },
        )
    } else {
        processes
    }
}

/// The process records after the given threads were charged, first to last.
pub open spec fn charge_all(
    processes: Seq<ProcessContextData>,
    threads: Seq<ThreadContextData>,
    actual: usize,
) -> Seq<ProcessContextData>
    decreases threads.len(),
{
    if threads.len() == 0 {
        processes
    } else {
        charge_one(
            charge_all(processes, threads.drop_last(), actual),
            threads.last().pid,
            threads.last().load0,
            actual,
        )
    }
}

/// A process record at the end of the pass: the load gathered becomes its
/// load, and gathering starts from zero again.
pub open spec fn settled(p: ProcessContextData) -> ProcessContextData {
    ProcessContextData { load: p.load0, load0: 0, ..p }
}

/// The load above which the scheduler goes to full throttle: all
/// performance cores but one fully busy, and the last one at 95 percent.
pub open spec fn enter_threshold(performance_cpus: usize) -> int {
    (performance_cpus - 1) * 1000 + THRESHOLD_ENTER_MAX
}

/// The load below which the scheduler leaves full throttle: two thirds of
/// the performance cores.
pub open spec fn leave_threshold(performance_cpus: usize) -> int {
    performance_cpus * THRESHOLD_LEAVE_MAX
}

/// The state of the scheduler after a statistics pass that found the load
/// `usage_total`.
pub open spec fn next_state(
    state: SchedulerState,
    usage_total: usize,
    performance_cpus: usize,
) -> SchedulerState {
    match state {
        SchedulerState::Disabled => SchedulerState::Disabled,
        SchedulerState::Normal => if usage_total > enter_threshold(performance_cpus) {
            SchedulerState::FullThrottle
        } else {
            SchedulerState::Normal
        },
        SchedulerState::FullThrottle => if usage_total < leave_threshold(performance_cpus) {
            SchedulerState::Normal
        } else {
            SchedulerState::FullThrottle
        },
    }
}

/// Hysteresis: the threshold to leave full throttle lies below the one to
/// enter it. A load above the enter threshold takes a running scheduler to
/// full throttle; a load below the leave threshold takes it back to normal;
/// a load from the leave threshold up to the enter threshold changes
/// nothing; and a disabled scheduler stays disabled.
pub proof fn lemma_hysteresis(state: SchedulerState, usage_total: usize, performance_cpus: usize)
    requires
        performance_cpus >= 1,
    ensures
        leave_threshold(performance_cpus) < enter_threshold(performance_cpus),
        leave_threshold(performance_cpus) <= usage_total <= enter_threshold(performance_cpus)
            ==> next_state(state, usage_total, performance_cpus) == state,
        state == SchedulerState::Normal && usage_total > enter_threshold(performance_cpus)
            ==> next_state(state, usage_total, performance_cpus) == SchedulerState::FullThrottle,
        state == SchedulerState::FullThrottle && usage_total < leave_threshold(performance_cpus)
            ==> next_state(state, usage_total, performance_cpus) == SchedulerState::Normal,
        state == SchedulerState::Normal && usage_total <= enter_threshold(performance_cpus)
            ==> next_state(state, usage_total, performance_cpus) == SchedulerState::Normal,
        state == SchedulerState::FullThrottle && usage_total >= leave_threshold(performance_cpus)
            ==> next_state(state, usage_total, performance_cpus) == SchedulerState::FullThrottle,
        next_state(SchedulerState::Disabled, usage_total, performance_cpus)
            == SchedulerState::Disabled,
{
}

/// A load and the sum of loads are never negative, and a load is at most
/// 1000.
pub proof fn lemma_usage_sum_bounds(threads: Seq<ThreadContextData>, actual: usize)
    requires
        actual > 0,
    ensures
        0 <= usage_sum(threads, actual) <= 1000 * threads.len(),
    decreases threads.len(),
{
    if threads.len() > 0 {
        lemma_usage_sum_bounds(threads.drop_last(), actual);
        lemma_thread_load_bounds(threads.last().load0, actual);
    }
}

/// A load lies between 0 and 1000.
pub proof fn lemma_thread_load_bounds(load0: u32, actual: usize)
    requires
        actual > 0,
    ensures
        0 <= thread_load(load0, actual) <= 1000,
{
    assert((load0 as int * 1_000_000) / (actual as int * 1000) >= 0) by (nonlinear_arith)
        requires
            load0 >= 0,
            actual > 0,
    ;
}

/// Charging threads to their processes leaves the processes where they are.
pub proof fn lemma_charge_all_pids(
    processes: Seq<ProcessContextData>,
    threads: Seq<ThreadContextData>,
    actual: usize,
)
    requires
        process_pool_wf(processes),
    ensures
        process_pool_wf(charge_all(processes, threads, actual)),
        charge_all(processes, threads, actual).len() == processes.len(),
        forall|i: int|
            0 <= i < processes.len() ==> (#[trigger] charge_all(processes, threads, actual)[i]).pid
                == processes[i].pid,
    decreases threads.len(),
{
    if threads.len() > 0 {
        let before = charge_all(processes, threads.drop_last(), actual);
        lemma_charge_all_pids(processes, threads.drop_last(), actual);
        let after = charge_one(before, threads.last().pid, threads.last().load0, actual);
        assert forall|i: int| 0 <= i < processes.len() implies (#[trigger] after[i]).pid
            == processes[i].pid by {
            assert(before[i].pid == processes[i].pid);
        }
        assert forall|i: int, j: int| 0 <= i < j < after.len() implies (#[trigger] after[i]).pid.0 < (
        #[trigger] after[j]).pid.0 by {
            assert(before[i].pid.0 < before[j].pid.0);
        }
    }
}

impl SchedulerView {
    /// The load of the machine that a pass finds: the sum of the loads of
    /// the threads that are not idle threads, never more than all
    /// processors can give.
    pub open spec fn measured_usage_total(self, actual: usize) -> usize {
        let usage = usage_sum(self.threads, actual);
        if usage < self.locals.len() * 1000 {
            usage as usize
        } else {
            (self.locals.len() * 1000) as usize
        }
    }

    /// The load per processor that a pass finds, never more than 1000.
    pub open spec fn measured_usage_per_cpu(self, actual: usize) -> usize {
        let usage = usage_sum(self.threads, actual) / (self.locals.len() as int);
        if usage < 1000 {
            usage as usize
        } else {
            1000
        }
    }

    /// The state after a statistics pass over an interval of `actual`
    /// ticks: every thread's load is set and charged to its process, the
    /// load of the machine is set, and the scheduler goes to full throttle
    /// or back according to it.
    pub open spec fn statistics_thread(self, actual: usize) -> SchedulerView {
        SchedulerView {
            threads: self.threads.map_values(|t: ThreadContextData| measured(t, actual)),
            processes: charge_all(self.processes, self.threads, actual).map_values(
                |p: ProcessContextData| settled(p),
            ),
            usage: self.measured_usage_per_cpu(actual),
            usage_total: self.measured_usage_total(actual),
            state: next_state(
                self.state,
                self.measured_usage_total(actual),
                self.num_of_performance_cpus,
            ),
            ..self
        }
    }

    /// The structural invariant survives a change to the thread records that touches
    /// neither handles, priorities, attributes nor sleep counters.
    pub proof fn lemma_threads_inert(pre: SchedulerView, post: SchedulerView)
        requires
            pre.wf_core(),
            post == (SchedulerView { threads: post.threads, ..pre }),
            post.threads.len() == pre.threads.len(),
            forall|i: int|
                0 <= i < pre.threads.len() ==> {
                    &&& (#[trigger] post.threads[i]).handle == pre.threads[i].handle
                    &&& post.threads[i].priority == pre.threads[i].priority
                    &&& post.threads[i].attribute == pre.threads[i].attribute
                    &&& post.threads[i].sleep_counter == pre.threads[i].sleep_counter
                },
        ensures
            post.wf_core(),
    {
        assert(pool_wf(post.threads)) by {
            assert forall|i: int, j: int| 0 <= i < j < post.threads.len() implies (
            #[trigger] post.threads[i]).handle.0 < (#[trigger] post.threads[j]).handle.0 by {
                assert(pre.threads[i].handle.0 < pre.threads[j].handle.0);
            }
            assert forall|i: int| 0 <= i < post.threads.len() implies (
            #[trigger] post.threads[i]).handle.0 != 0 by {
                assert(pre.threads[i].handle.0 != 0);
            }
        }
        assert forall|h: ThreadHandle| #[trigger]
            pool_contains(post.threads, h) == pool_contains(pre.threads, h) by {
            if pool_contains(pre.threads, h) {
                let i = pool_index(pre.threads, h);
                assert(post.threads[i].handle == h);
            }
            if pool_contains(post.threads, h) {
                let i = pool_index(post.threads, h);
                assert(pre.threads[i].handle == h);
            }
        }
        assert forall|h: ThreadHandle| pool_contains(pre.threads, h) implies {
            let a = #[trigger] pool_record(post.threads, h);
            let b = pool_record(pre.threads, h);
            a.priority == b.priority && a.attribute == b.attribute && a.sleep_counter
                == b.sleep_counter
        } by {
            let i = pool_index(pre.threads, h);
            assert(post.threads[i].handle == h);
            lemma_index_unique(post.threads, h, i);
        }
        assert forall|x: ThreadHandle| #[trigger] post.held(x) == pre.held(x) by {
            if pre.held(x) {
                let c = choose|c: int|
                    0 <= c < pre.locals.len() && ((#[trigger] pre.locals[c]).current == x
                        || pre.locals[c].retired == Some(x));
                assert(post.locals[c].current == x || post.locals[c].retired == Some(x));
            }
            if post.held(x) {
                let c = choose|c: int|
                    0 <= c < post.locals.len() && ((#[trigger] post.locals[c]).current == x
                        || post.locals[c].retired == Some(x));
                assert(pre.locals[c].current == x || pre.locals[c].retired == Some(x));
            }
        }
        assert forall|x: ThreadHandle, r: bool| #[trigger]
            post.queue_entry_ok(x, r) == pre.queue_entry_ok(x, r) by {
            if pool_contains(pre.threads, x) {
                let a = pool_record(post.threads, x);
            }
        }
        assert forall|h: ThreadHandle| #[trigger]
            post.band_handles(true).contains(h) == pre.band_handles(true).contains(h) by {
            if pool_contains(pre.threads, h) {
                let a = pool_record(post.threads, h);
            }
        }
        assert forall|h: ThreadHandle| #[trigger]
            post.band_handles(false).contains(h) == pre.band_handles(false).contains(h) by {
            if pool_contains(pre.threads, h) {
                let a = pool_record(post.threads, h);
            }
        }
        assert(post.band_handles(true) =~= pre.band_handles(true));
        assert(post.band_handles(false) =~= pre.band_handles(false));
        assert(post.wf_registry()) by {
            assert forall|i: int| 0 <= i < post.threads.len() implies {
                let t = #[trigger] post.threads[i];
                &&& t.handle.0 < post.next_thread_id
                &&& t.sleep_counter >= 0
                &&& (t.priority == Priority::Idle ==> !t.attribute.queued)
            } by {
                let t0 = pre.threads[i];
                assert(t0.handle.0 < pre.next_thread_id);
            }
        }
        assert(post.wf_queues()) by {
            assert(pre.wf_queue(pre.queue_realtime, true));
            assert(pre.wf_queue(pre.queue_normal, false));
        }
        assert(post.wf_locals()) by {
            assert forall|c: int| 0 <= c < post.locals.len() implies #[trigger] post.wf_local(
                c,
            ) by {
                assert(pre.wf_local(c));
                let l = pre.locals[c];
                let a = pool_record(post.threads, l.idle);
                let b = pool_record(post.threads, l.current);
                if l.retired.is_some() {
                    let r = pool_record(post.threads, l.retired.unwrap());
                }
            }
        }
    }

    /// A statistics pass keeps the structural invariant.
    pub proof fn lemma_statistics_thread_wf(pre: SchedulerView, actual: usize)
        requires
            pre.wf_core(),
            actual > 0,
        ensures
            pre.statistics_thread(actual).wf_core(),
    {
        let post = pre.statistics_thread(actual);
        let a = SchedulerView { threads: post.threads, ..pre };
        Self::lemma_threads_inert(pre, a);
        let b = SchedulerView { processes: post.processes, ..a };
        lemma_charge_all_pids(pre.processes, pre.threads, actual);
        let charged = charge_all(pre.processes, pre.threads, actual);
        assert forall|i: int| 0 <= i < b.processes.len() implies (#[trigger] b.processes[i]).pid
            == pre.processes[i].pid by {
            assert(charged[i].pid == pre.processes[i].pid);
        }
        assert(process_pool_wf(b.processes)) by {
            assert forall|i: int, j: int| 0 <= i < j < b.processes.len() implies (
            #[trigger] b.processes[i]).pid.0 < (#[trigger] b.processes[j]).pid.0 by {
                assert(pre.processes[i].pid.0 < pre.processes[j].pid.0);
            }
        }
        assert forall|i: int| 0 <= i < b.processes.len() implies (#[trigger] b.processes[i]).pid.0
            < b.next_pid by {
            assert(pre.processes[i].pid.0 < pre.next_pid);
        }
        crate::task::model::SchedulerView::lemma_processes_changed(a, b);
        Self::lemma_same_but_flags(b, post);
    }
}

/// The loads of the leading threads of the registry whose priority is
/// `Idle`: those of the idle threads of the processors, which are registered
/// before any other thread.
pub open spec fn idle_loads(threads: Seq<ThreadContextData>) -> Seq<u32>
    decreases threads.len(),
{
    if threads.len() == 0 || threads[0].priority != Priority::Idle {
        Seq::empty()
    } else {
        seq![threads[0].load] + idle_loads(threads.drop_first())
    }
}

/// Computes the load of a thread from its busy ticks.
fn load_of(load0: u32, actual: usize) -> (r: u32)
    requires
        actual > 0,
    ensures
        r as int == thread_load(load0, actual),
{
    let busy: u128 = load0 as u128 * 1_000_000;
    let interval: u128 = actual as u128 * 1000;
    let raw: u128 = busy / interval;
    if raw < 1000 {
        raw as u32
    } else {
        1000
    }
}

impl Scheduler {
    /// Charges the busy ticks and the load of one thread to the process
    /// `pid`, if it is registered.
    fn charge(&mut self, pid: ProcessId, load0: u32, load: u32, actual: usize)
        requires
            old(self).processes.wf(),
            load as int == thread_load(load0, actual),
        ensures
            final(self).processes@ == charge_one(old(self).processes@, pid, load0, actual),
            final(self)@ == (SchedulerView { processes: final(self).processes@, ..old(self)@ }),
    {
        match self.processes.find(pid) {
            Some(k) => {
                self.processes.data[k].cpu_time = self.processes.data[k].cpu_time.wrapping_add(
                    load0 as usize,
                );
                self.processes.data[k].load0 = self.processes.data[k].load0.wrapping_add(load);
                assert(self.processes@ =~= charge_one(old(self).processes@, pid, load0, actual));
            },
            None => {},
        }
    }

    /// One pass of the statistics thread, over an interval of `actual`
    /// clock ticks.
    ///
    /// Every thread gets as its load its busy ticks against the interval, in
    /// per mille and at most 1000, and its busy ticks count from zero again;
    /// busy ticks and load are added to the thread's process. The load of
    /// the machine is the sum of the loads of all threads that are no idle
    /// threads, at most 1000 per processor; the load per processor is that
    /// sum divided by the number of processors, at most 1000. With a load
    /// above the enter threshold a scheduler in normal operation goes to
    /// full throttle, with a load below the leave threshold it goes back.
    pub fn _statistics_thread(&mut self, actual: usize)
        requires
            old(self).wf(),
            actual > 0,
        ensures
            final(self).wf(),
            final(self)@ == old(self)@.statistics_thread(actual),
    {
        proof {
            SchedulerView::lemma_statistics_thread_consistent(self@, actual);
            SchedulerView::lemma_statistics_thread_wf(self@, actual);
        }
        let n = self.threads.data.len();
        let mut usage: u128 = 0;
        let mut i: usize = 0;
        assert(old(self).threads@.take(0) =~= Seq::empty());
        while i < n
            invariant
                old(self).wf(),
                n == old(self).threads@.len(),
                self.threads@.len() == n,
                i <= n,
                actual > 0,
                forall|j: int| 0 <= j < i ==> #[trigger] self.threads@[j] == measured(
                    old(self).threads@[j],
                    actual,
                ),
                forall|j: int| i <= j < n ==> #[trigger] self.threads@[j] == old(self).threads@[j],
                self.processes@ == charge_all(
                    old(self).processes@,
                    old(self).threads@.take(i as int),
                    actual,
                ),
                self.processes.wf(),
                old(self).processes.wf(),
                usage == usage_sum(old(self).threads@.take(i as int), actual),
                usage <= 1000 * i,
                self@ == (SchedulerView {
                    threads: self.threads@,
                    processes: self.processes@,
                    ..old(self)@
                }),
            decreases n - i,
        {
            let ghost t0 = old(self).threads@[i as int];
            proof {
                assert(old(self).threads@.take(i + 1).drop_last() =~= old(self).threads@.take(
                    i as int,
                ));
                assert(old(self).threads@.take(i + 1).last() == t0);
                lemma_thread_load_bounds(t0.load0, actual);
                lemma_charge_all_pids(
                    old(self).processes@,
                    old(self).threads@.take(i + 1),
                    actual,
                );
            }
            let load0 = self.threads.data[i].load0;
            let pid = self.threads.data[i].pid;
            let load = load_of(load0, actual);
            if self.threads.data[i].priority != Priority::Idle {
                usage = usage + load as u128;
            }
            self.threads.data[i].load0 = 0;
            self.threads.data[i].load = load;
            self.charge(pid, load0, load, actual);
            i = i + 1;
        }
        assert(old(self).threads@.take(n as int) =~= old(self).threads@);
        let ghost charged = charge_all(old(self).processes@, old(self).threads@, actual);
        let m = self.processes.data.len();
        let mut j: usize = 0;
        proof {
            lemma_charge_all_pids(old(self).processes@, old(self).threads@, actual);
            assert(self.threads@ =~= old(self).threads@.map_values(
                |t: ThreadContextData| measured(t, actual),
            ));
        }
        while j < m
            invariant
                old(self).wf(),
                self.threads@ == old(self).threads@.map_values(
                    |t: ThreadContextData| measured(t, actual),
                ),
                usage == usage_sum(old(self).threads@, actual),
                m == charged.len(),
                self.processes@.len() == m,
                j <= m,
                forall|x: int| 0 <= x < j ==> #[trigger] self.processes@[x] == settled(charged[x]),
                forall|x: int| j <= x < m ==> #[trigger] self.processes@[x] == charged[x],
                self@ == (SchedulerView {
                    threads: self.threads@,
                    processes: self.processes@,
                    ..old(self)@
                }),
            decreases m - j,
        {
            self.processes.data[j].load = self.processes.data[j].load0;
            self.processes.data[j].load0 = 0;
            j = j + 1;
        }
        proof {
            lemma_usage_sum_bounds(old(self).threads@, actual);
            assert(old(self)@.wf_locals());
        }
        let num_cpu = self.locals.len();
        let limit: u128 = num_cpu as u128 * 1000;
        let usage_total: usize = if usage < limit {
            usage as usize
        } else {
            num_cpu * 1000
        };
        let per_cpu: u128 = usage / (num_cpu as u128);
        let usage_per_cpu: usize = if per_cpu < 1000 {
            per_cpu as usize
        } else {
            1000
        };
        self.usage_total = usage_total;
        self.usage = usage_per_cpu;
        match self.state {
            SchedulerState::Disabled => {},
            SchedulerState::Normal => {
                if usage_total > (self.num_of_performance_cpus - 1) * 1000 + THRESHOLD_ENTER_MAX {
                    self.state = SchedulerState::FullThrottle;
                }
            },
            SchedulerState::FullThrottle => {
                if usage_total < self.num_of_performance_cpus * THRESHOLD_LEAVE_MAX {
                    self.state = SchedulerState::Normal;
                }
            },
        }
        proof {
            assert(self.processes@ =~= charged.map_values(|p: ProcessContextData| settled(p)));
            assert(self@ =~= old(self)@.statistics_thread(actual));
        }
    }

    /// Collects the loads of the idle threads of the processors, in the
    /// order of the processors.
    pub fn get_idle_statistics(&self, vec: &mut Vec<u32>)
        ensures
            final(vec)@ == idle_loads(self.threads@),
    {
        vec.clear();
        let mut i: usize = 0;
        assert(self.threads@.skip(0) =~= self.threads@);
        while i < self.threads.data.len() && self.threads.data[i].priority == Priority::Idle
            invariant
                i <= self.threads@.len(),
                idle_loads(self.threads@) == vec@ + idle_loads(self.threads@.skip(i as int)),
            decreases self.threads@.len() - i,
        {
            proof {
                let rest = self.threads@.skip(i as int);
                assert(rest[0] == self.threads@[i as int]);
                assert(rest.drop_first() =~= self.threads@.skip(i + 1));
                assert(vec@.push(rest[0].load) + idle_loads(rest.drop_first()) =~= vec@ + (
                seq![rest[0].load] + idle_loads(rest.drop_first())));
            }
            vec.push(self.threads.data[i].load);
            i = i + 1;
        }
        proof {
            let rest = self.threads@.skip(i as int);
            if i < self.threads@.len() {
                assert(rest[0] == self.threads@[i as int]);
            }
            assert(idle_loads(rest) =~= Seq::empty());
            assert(vec@ + idle_loads(rest) =~= vec@);
        }
    }
}

} // verus!
