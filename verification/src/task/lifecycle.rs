//! How threads and processes come and go: spawning, exiting and joining.

use vstd::prelude::*;
use crate::task::executor::{Executor, PersonalityContext, Task};
use crate::task::irql::{ContextSwitch, ProcessorIndex};
use crate::task::model::{is_realtime, SchedulerView};
use crate::task::priority::{Priority, SchedulerState};
use crate::task::process::{
    lemma_process_index_unique, process_pool_contains, process_pool_index, process_pool_record,
    process_pool_wf, ProcessContextData, ProcessId,
};
use crate::task::scheduler::Scheduler;
use crate::task::thread::{
    lemma_index_unique, pool_contains, pool_index, pool_record, pool_wf, ThreadAttribute,
    ThreadContextData, ThreadHandle, ThreadStart,
};
use crate::task::timer::TimeSpec;

verus! {

/// Options for a thread that is to be started.
#[derive(Debug, Clone, Copy, PartialEq, Eq, Structural)]
pub struct SpawnOption {
    /// Priority of the thread; that of its process if there is none.
    pub priority: Option<Priority>,
    /// Whether the thread starts a process of its own.
    pub new_process: bool,
    /// Personality to attach to the thread.
    pub personality: Option<PersonalityContext>,
}

impl SchedulerView {
    /// The threads of the band that `realtime` names among the first `n`
    /// records of the registry.
    pub open spec fn band_prefix(self, realtime: bool, n: int) -> Set<ThreadHandle> {
        Set::new(
            |h: ThreadHandle|
                exists|i: int|
                    0 <= i < n && (#[trigger] self.threads[i]).handle == h && self.threads[i].priority
                        != Priority::Idle && is_realtime(self.threads[i].priority) == realtime,
        )
    }

    /// The whole registry as a prefix of itself gives the band.
    pub proof fn lemma_band_prefix_all(self, realtime: bool)
        requires
            pool_wf(self.threads),
        ensures
            self.band_prefix(realtime, self.threads.len() as int) == self.band_handles(realtime),
    {
        let a = self.band_prefix(realtime, self.threads.len() as int);
        let b = self.band_handles(realtime);
        assert forall|h: ThreadHandle| a.contains(h) == b.contains(h) by {
            if a.contains(h) {
                let i = choose|i: int|
                    0 <= i < self.threads.len() && (#[trigger] self.threads[i]).handle == h
                        && self.threads[i].priority != Priority::Idle && is_realtime(
                        self.threads[i].priority,
                    ) == realtime;
                lemma_index_unique(self.threads, h, i);
            }
            if b.contains(h) {
                let i = pool_index(self.threads, h);
                assert(self.threads[i].handle == h);
            }
        }
        assert(a =~= b);
    }

    /// One more record adds its handle to the prefix if it is of the band.
    pub proof fn lemma_band_prefix_step(self, realtime: bool, n: int)
        requires
            pool_wf(self.threads),
            0 <= n < self.threads.len(),
            self.band_prefix(realtime, n).finite(),
        ensures
            self.band_prefix(realtime, n + 1).finite(),
            self.band_prefix(realtime, n + 1).len() == self.band_prefix(realtime, n).len() + (if self.threads[n].priority
                != Priority::Idle && is_realtime(self.threads[n].priority) == realtime {
                1nat
            } else {
                0nat
            }),
    {
        let a = self.band_prefix(realtime, n);
        let b = self.band_prefix(realtime, n + 1);
        let t = self.threads[n];
        if t.priority != Priority::Idle && is_realtime(t.priority) == realtime {
            assert(!a.contains(t.handle)) by {
                if a.contains(t.handle) {
                    let i = choose|i: int|
                        0 <= i < n && (#[trigger] self.threads[i]).handle == t.handle;
                    assert(self.threads[i].handle.0 < self.threads[n].handle.0);
                }
            }
            assert forall|h: ThreadHandle| b.contains(h) == a.insert(t.handle).contains(h) by {
                if a.contains(h) {
                    let i = choose|i: int|
                        0 <= i < n && (#[trigger] self.threads[i]).handle == h
                            && self.threads[i].priority != Priority::Idle && is_realtime(
                            self.threads[i].priority,
                        ) == realtime;
                    assert(0 <= i < n + 1);
                }
                if h == t.handle {
                    assert(self.threads[n].handle == h);
                }
            }
            assert(b =~= a.insert(t.handle));
        } else {
            assert forall|h: ThreadHandle| b.contains(h) == a.contains(h) by {
                if a.contains(h) {
                    let i = choose|i: int|
                        0 <= i < n && (#[trigger] self.threads[i]).handle == h
                            && self.threads[i].priority != Priority::Idle && is_realtime(
                            self.threads[i].priority,
                        ) == realtime;
                    assert(0 <= i < n + 1);
                }
            }
            assert(b =~= a);
        }
    }

    /// The band of the given priority has as many threads as its queue has
    /// room for. No band is ever full for the priority `Idle`, which is not
    /// queued.
    pub open spec fn band_full(self, priority: Priority) -> bool {
        if priority == Priority::Idle {
            false
        } else if is_realtime(priority) {
            self.band_handles(true).len() >= self.cap_realtime
        } else {
            self.band_handles(false).len() >= self.cap_normal
        }
    }

    /// The process a thread spawned from processor `cpu` belongs to.
    pub open spec fn spawn_pid(self, cpu: ProcessorIndex, options: SpawnOption) -> ProcessId {
        if options.new_process {
            ProcessId(self.next_pid)
        } else {
            self.spec_current_pid(cpu)
        }
    }

    /// The priority a thread spawned from processor `cpu` gets: the one
    /// asked for, else that of its process, which is `Normal` for a process
    /// of its own.
    pub open spec fn spawn_priority(self, cpu: ProcessorIndex, options: SpawnOption) -> Priority {
        match options.priority {
            Some(p) => p,
            None => if options.new_process {
                Priority::Normal
            } else {
                process_pool_record(self.processes, self.spec_current_pid(cpu)).priority
            },
        }
    }

    /// A thread can be spawned from processor `cpu` when a handle is left
    /// for it, its process exists or an identifier is left for a new one,
    /// and its band has room.
    pub open spec fn can_spawn(self, cpu: ProcessorIndex, options: SpawnOption) -> bool {
        &&& self.next_thread_id < usize::MAX
        &&& (options.new_process ==> self.next_pid < usize::MAX)
        &&& (!options.new_process ==> process_pool_contains(
            self.processes,
            self.spec_current_pid(cpu),
        ))
        &&& !self.band_full(self.spawn_priority(cpu, options))
    }

    /// The working directory a process started from processor `cpu`
    /// inherits: that of the process that starts it, or nothing.
    pub open spec fn inherited_cwd(self, cpu: ProcessorIndex) -> Seq<char> {
        if process_pool_contains(self.processes, self.spec_current_pid(cpu)) {
            process_pool_record(self.processes, self.spec_current_pid(cpu)).cwd@
        } else {
            Seq::empty()
        }
    }

    /// The state with process record `p` registered under the next
    /// identifier.
    pub open spec fn with_new_process(self, p: ProcessContextData) -> SchedulerView {
        SchedulerView {
            processes: self.processes.push(p),
            next_pid: (self.next_pid + 1) as usize,
            ..self
        }
    }

    /// The state with one thread more counted in process `pid`.
    pub open spec fn join_process(self, pid: ProcessId) -> SchedulerView {
        let p = process_pool_record(self.processes, pid);
        SchedulerView {
            processes: self.processes.update(
                process_pool_index(self.processes, pid),
                ProcessContextData { n_threads: p.n_threads.wrapping_add(1), ..p },
            ),
            ..self
        }
    }

    /// The state with thread record `t` registered under the next handle and
    /// offered to the run queues.
    pub open spec fn with_new_thread(self, t: ThreadContextData) -> SchedulerView {
        (SchedulerView {
            threads: self.threads.push(t),
            next_thread_id: (self.next_thread_id + 1) as usize,
            ..self
        }).add(t.handle)
    }

    /// The state after a thread with record `t` was spawned, in the process
    /// with record `p` if it starts one.
    pub open spec fn spawn_thread(
        self,
        options: SpawnOption,
        t: ThreadContextData,
        p: Option<ProcessContextData>,
    ) -> SchedulerView {
        if options.new_process {
            self.with_new_process(p.unwrap()).join_process(t.pid).with_new_thread(t)
        } else {
            self.join_process(t.pid).with_new_thread(t)
        }
    }

    /// What spawning a thread does: `post` and `r` are the state and the
    /// result after a thread with the given entry, name and options was
    /// spawned from processor `cpu` at `now` in state `pre`. The spawn
    /// succeeds exactly when `pre.can_spawn`; then the new thread has the
    /// next handle and a fresh record, as has its process if it starts one.
    pub open spec fn spawned(
        pre: SchedulerView,
        post: SchedulerView,
        cpu: ProcessorIndex,
        start: ThreadStart,
        name: Seq<char>,
        options: SpawnOption,
        now: TimeSpec,
        r: Option<ThreadHandle>,
    ) -> bool {
        &&& r.is_some() == pre.can_spawn(cpu, options)
        &&& (r.is_none() ==> post == pre)
        &&& (r matches Some(h) ==> {
            let t = pool_record(post.threads, h).with_queued(false);
            &&& h == ThreadHandle(pre.next_thread_id)
            &&& pool_contains(post.threads, h)
            &&& t.is_fresh(
                h,
                pre.spawn_pid(cpu, options),
                pre.spawn_priority(cpu, options),
                name,
                Some(start),
                options.personality,
            )
            &&& (options.new_process ==> Self::spawned_in_new_process(
                pre,
                post,
                cpu,
                name,
                options,
                now,
                t,
            ))
            &&& (!options.new_process ==> post == pre.spawn_thread(options, t, None))
        })
    }

    /// `post` is the state after the thread with record `t` was spawned in
    /// state `pre` together with a fresh process of its own.
    pub open spec fn spawned_in_new_process(
        pre: SchedulerView,
        post: SchedulerView,
        cpu: ProcessorIndex,
        name: Seq<char>,
        options: SpawnOption,
        now: TimeSpec,
        t: ThreadContextData,
    ) -> bool {
        exists|p: ProcessContextData|
            Self::is_spawn_with(pre, post, cpu, name, options, now, t, p)
    }

    /// `post` is the state after the thread with record `t` was spawned in
    /// state `pre` together with the fresh process record `p`.
    pub open spec fn is_spawn_with(
        pre: SchedulerView,
        post: SchedulerView,
        cpu: ProcessorIndex,
        name: Seq<char>,
        options: SpawnOption,
        now: TimeSpec,
        t: ThreadContextData,
        p: ProcessContextData,
    ) -> bool {
        &&& p.is_fresh(
            pre.spawn_pid(cpu, options),
            pre.spec_current_pid(cpu),
            pre.spawn_priority(cpu, options),
            name,
            pre.inherited_cwd(cpu),
            now,
        )
        &&& post == pre.spawn_thread(options, t, Some(p))
    }

    /// Registering a process under the next identifier keeps the structural invariant.
    pub proof fn lemma_with_new_process_wf(pre: SchedulerView, p: ProcessContextData)
        requires
            pre.wf_core(),
            pre.next_pid < usize::MAX,
            p.pid == ProcessId(pre.next_pid),
        ensures
            pre.with_new_process(p).wf_core(),
            process_pool_contains(pre.with_new_process(p).processes, p.pid),
            process_pool_record(pre.with_new_process(p).processes, p.pid) == p,
            process_pool_index(pre.with_new_process(p).processes, p.pid) == pre.processes.len(),
            forall|priority: Priority| #[trigger]
                pre.with_new_process(p).band_full(priority) == pre.band_full(priority),
    {
        assert(process_pool_wf(pre.with_new_process(p).processes)) by {
            let q = pre.with_new_process(p).processes;
            assert forall|i: int, j: int| 0 <= i < j < q.len() implies (#[trigger] q[i]).pid.0 < (
            #[trigger] q[j]).pid.0 by {
                if j < pre.processes.len() {
                    assert(pre.processes[i].pid.0 < pre.processes[j].pid.0);
                } else {
                    assert(pre.processes[i].pid.0 < pre.next_pid);
                }
            }
        }
        assert forall|i: int| 0 <= i < pre.with_new_process(p).processes.len() implies (
        #[trigger] pre.with_new_process(p).processes[i]).pid.0 < pre.with_new_process(
            p,
        ).next_pid by {
            if i < pre.processes.len() {
                assert(pre.processes[i].pid.0 < pre.next_pid);
            }
        }
        let post = pre.with_new_process(p);
        Self::lemma_processes_changed(pre, post);
        assert(post.processes[pre.processes.len() as int] == p);
        lemma_process_index_unique(post.processes, p.pid, pre.processes.len() as int);
    }

    /// The structural invariant asks of the processes only that they are in order and
    /// below the next identifier.
    pub proof fn lemma_processes_changed(pre: SchedulerView, post: SchedulerView)
        requires
            pre.wf_core(),
            post == (SchedulerView { processes: post.processes, next_pid: post.next_pid, ..pre }),
            process_pool_wf(post.processes),
            forall|i: int|
                0 <= i < post.processes.len() ==> (#[trigger] post.processes[i]).pid.0
                    < post.next_pid,
        ensures
            post.wf_core(),
            post.band_handles(true) == pre.band_handles(true),
            post.band_handles(false) == pre.band_handles(false),
    {
        assert forall|x: ThreadHandle| #[trigger] post.held(x) == pre.held(x) by {
            if pre.held(x) {
                let c = choose|c: int|
                    0 <= c < pre.locals.len() && ((#[trigger] pre.locals[c]).current == x
                        || pre.locals[c].retired == Some(x));
                assert(post.locals[c].current == x || post.locals[c].retired == Some(x));
            }
            if post.held(x) {
                let c = choose|c: int|
                    0 <= c < post.locals.len() && ((#[trigger] post.locals[c]).current == x
                        || post.locals[c].retired == Some(x));
                assert(pre.locals[c].current == x || pre.locals[c].retired == Some(x));
            }
        }
        assert forall|x: ThreadHandle, r: bool| #[trigger]
            post.queue_entry_ok(x, r) == pre.queue_entry_ok(x, r) by {}
        assert(post.band_handles(true) =~= pre.band_handles(true));
        assert(post.band_handles(false) =~= pre.band_handles(false));
        assert(pre.wf_queue(pre.queue_realtime, true));
        assert(pre.wf_queue(pre.queue_normal, false));
        assert(post.wf_locals()) by {
            assert forall|c: int| 0 <= c < post.locals.len() implies #[trigger] post.wf_local(
                c,
            ) by {
                assert(pre.wf_local(c));
            }
        }
    }

    /// Counting one thread more in a process keeps the structural invariant.
    pub proof fn lemma_join_process_wf(pre: SchedulerView, pid: ProcessId)
        requires
            pre.wf_core(),
            process_pool_contains(pre.processes, pid),
        ensures
            pre.join_process(pid).wf_core(),
            forall|priority: Priority| #[trigger]
                pre.join_process(pid).band_full(priority) == pre.band_full(priority),
    {
        let post = pre.join_process(pid);
        let k = process_pool_index(pre.processes, pid);
        assert forall|i: int| 0 <= i < post.processes.len() implies (
        #[trigger] post.processes[i]).pid == pre.processes[i].pid by {}
        assert(process_pool_wf(post.processes)) by {
            assert forall|i: int, j: int| 0 <= i < j < post.processes.len() implies (
            #[trigger] post.processes[i]).pid.0 < (#[trigger] post.processes[j]).pid.0 by {
                assert(pre.processes[i].pid.0 < pre.processes[j].pid.0);
            }
        }
        assert forall|i: int| 0 <= i < post.processes.len() implies (
        #[trigger] post.processes[i]).pid.0 < post.next_pid by {
            assert(pre.processes[i].pid.0 < pre.next_pid);
        }
        Self::lemma_processes_changed(pre, post);
    }

    /// Registering a fresh thread whose band has room, and offering it to
    /// the run queues, keeps the structural invariant.
    pub proof fn lemma_with_new_thread_wf(pre: SchedulerView, t: ThreadContextData)
        requires
            pre.wf_core(),
            pre.next_thread_id < usize::MAX,
            t.handle == ThreadHandle(pre.next_thread_id),
            t.sleep_counter == 0,
            !t.attribute.queued,
            !pre.band_full(t.priority),
        ensures
            pre.with_new_thread(t).wf_core(),
            ({
                let mid = SchedulerView {
                    threads: pre.threads.push(t),
                    next_thread_id: (pre.next_thread_id + 1) as usize,
                    ..pre
                };
                &&& mid.wf_core()
                &&& pool_contains(mid.threads, t.handle)
                &&& pool_record(mid.threads, t.handle) == t
            }),
    {
        let mid = SchedulerView {
            threads: pre.threads.push(t),
            next_thread_id: (pre.next_thread_id + 1) as usize,
            ..pre
        };
        let n = pre.threads.len() as int;
        assert(mid.threads[n] == t);
        assert forall|i: int| 0 <= i < n implies (#[trigger] mid.threads[i]) == pre.threads[i] by {}
        assert(pool_wf(mid.threads)) by {
            assert forall|i: int, j: int| 0 <= i < j < mid.threads.len() implies (
            #[trigger] mid.threads[i]).handle.0 < (#[trigger] mid.threads[j]).handle.0 by {
                if j < n {
                    assert(pre.threads[i].handle.0 < pre.threads[j].handle.0);
                } else {
                    assert(pre.threads[i].handle.0 < pre.next_thread_id);
                }
            }
            assert forall|i: int| 0 <= i < mid.threads.len() implies (
            #[trigger] mid.threads[i]).handle.0 != 0 by {
                if i < n {
                    assert(pre.threads[i].handle.0 != 0);
                }
            }
        }
        lemma_index_unique(mid.threads, t.handle, n);
        assert(!pool_contains(pre.threads, t.handle)) by {
            if pool_contains(pre.threads, t.handle) {
                let i = pool_index(pre.threads, t.handle);
                assert(pre.threads[i].handle.0 < pre.next_thread_id);
            }
        }
        assert forall|x: ThreadHandle| x != t.handle implies #[trigger] pool_contains(
            mid.threads,
            x,
        ) == pool_contains(pre.threads, x) by {
            if pool_contains(pre.threads, x) {
                let i = pool_index(pre.threads, x);
                assert(mid.threads[i].handle == x);
            }
            if pool_contains(mid.threads, x) {
                let i = pool_index(mid.threads, x);
                assert(pre.threads[i].handle == x);
            }
        }
        assert forall|x: ThreadHandle| pool_contains(pre.threads, x) implies #[trigger] pool_record(
            mid.threads,
            x,
        ) == pool_record(pre.threads, x) by {
            let i = pool_index(pre.threads, x);
            assert(mid.threads[i].handle == x);
            lemma_index_unique(mid.threads, x, i);
        }
        assert forall|x: ThreadHandle| #[trigger] mid.held(x) == pre.held(x) by {
            if pre.held(x) {
                let c = choose|c: int|
                    0 <= c < pre.locals.len() && ((#[trigger] pre.locals[c]).current == x
                        || pre.locals[c].retired == Some(x));
                assert(mid.locals[c].current == x || mid.locals[c].retired == Some(x));
            }
            if mid.held(x) {
                let c = choose|c: int|
                    0 <= c < mid.locals.len() && ((#[trigger] mid.locals[c]).current == x
                        || mid.locals[c].retired == Some(x));
                assert(pre.locals[c].current == x || pre.locals[c].retired == Some(x));
            }
        }
        assert(mid.wf_registry()) by {
            assert forall|i: int| 0 <= i < mid.threads.len() implies {
                let r = #[trigger] mid.threads[i];
                &&& r.handle.0 < mid.next_thread_id
                &&& r.sleep_counter >= 0
                &&& (r.priority == Priority::Idle ==> !r.attribute.queued)
            } by {
                if i < n {
                    let r0 = pre.threads[i];
                    assert(r0.handle.0 < pre.next_thread_id);
                }
            }
        }
        assert(pre.wf_queue(pre.queue_realtime, true));
        assert(pre.wf_queue(pre.queue_normal, false));
        assert(mid.wf_queues()) by {
            assert forall|i: int| 0 <= i < mid.queue_realtime.len() implies mid.queue_entry_ok(
                #[trigger] mid.queue_realtime[i],
                true,
            ) by {
                assert(pre.queue_entry_ok(pre.queue_realtime[i], true));
            }
            assert forall|i: int| 0 <= i < mid.queue_normal.len() implies mid.queue_entry_ok(
                #[trigger] mid.queue_normal[i],
                false,
            ) by {
                assert(pre.queue_entry_ok(pre.queue_normal[i], false));
            }
            Self::lemma_band_after_push(pre, mid, t, true);
            Self::lemma_band_after_push(pre, mid, t, false);
        }
        assert(mid.wf_locals()) by {
            assert forall|c: int| 0 <= c < mid.locals.len() implies #[trigger] mid.wf_local(c) by {
                assert(pre.wf_local(c));
            }
        }
        Self::lemma_add_wf(mid, t.handle);
    }

    /// Offering a fresh thread to the run queues changes nothing of its
    /// record but the queued mark.
    pub proof fn lemma_fresh_after_add(mid: SchedulerView, t: ThreadContextData)
        requires
            pool_wf(mid.threads),
            pool_contains(mid.threads, t.handle),
            pool_record(mid.threads, t.handle) == t,
            !t.attribute.queued,
        ensures
            pool_record(mid.add(t.handle).threads, t.handle).with_queued(false) == t,
            mid.add(t.handle).processes == mid.processes,
    {
        let k = pool_index(mid.threads, t.handle);
        if mid.admits(t.handle) {
            let marked = mid.mark(t.handle, true);
            crate::task::thread::lemma_update_same_handle(mid.threads, marked.threads, k);
        }
    }

    /// What a band is after a record was appended to the registry.
    pub proof fn lemma_band_after_push(
        pre: SchedulerView,
        mid: SchedulerView,
        t: ThreadContextData,
        realtime: bool,
    )
        requires
            pre.band_handles(realtime).finite(),
            !pool_contains(pre.threads, t.handle),
            pool_contains(mid.threads, t.handle),
            pool_record(mid.threads, t.handle) == t,
            forall|x: ThreadHandle|
                x != t.handle ==> #[trigger] pool_contains(mid.threads, x) == pool_contains(
                    pre.threads,
                    x,
                ),
            forall|x: ThreadHandle|
                pool_contains(pre.threads, x) ==> #[trigger] pool_record(mid.threads, x)
                    == pool_record(pre.threads, x),
        ensures
            mid.band_handles(realtime).finite(),
            mid.band_handles(realtime).len() == pre.band_handles(realtime).len() + (if t.priority
                != Priority::Idle && is_realtime(t.priority) == realtime {
                1nat
            } else {
                0nat
            }),
    {
        let a = pre.band_handles(realtime);
        let b = mid.band_handles(realtime);
        if t.priority != Priority::Idle && is_realtime(t.priority) == realtime {
            assert forall|h: ThreadHandle| b.contains(h) == a.insert(t.handle).contains(h) by {
                if h != t.handle && pool_contains(pre.threads, h) {
                    assert(pool_record(mid.threads, h) == pool_record(pre.threads, h));
                }
            }
            assert(b =~= a.insert(t.handle));
        } else {
            assert forall|h: ThreadHandle| b.contains(h) == a.contains(h) by {
                if h != t.handle && pool_contains(pre.threads, h) {
                    assert(pool_record(mid.threads, h) == pool_record(pre.threads, h));
                }
            }
            assert(b =~= a);
        }
    }
}

impl SchedulerView {
    /// The state with one thread less counted in process `pid`; the process
    /// leaves the registry with its last thread.
    pub open spec fn leave_process(self, pid: ProcessId) -> SchedulerView {
        if !process_pool_contains(self.processes, pid) {
            self
        } else {
            let k = process_pool_index(self.processes, pid);
            let p = process_pool_record(self.processes, pid);
            if p.n_threads == 1 {
                SchedulerView { processes: self.processes.remove(k), ..self }
            } else {
                SchedulerView {
                    processes: self.processes.update(
                        k,
                        ProcessContextData { n_threads: p.n_threads.wrapping_sub(1), ..p },
                    ),
                    ..self
                }
            }
        }
    }

    /// The record of process `pid` as it leaves the registry when its last
    /// thread exits: without threads, its semaphore signalled once more.
    pub open spec fn exited_process(self, pid: ProcessId) -> Option<ProcessContextData> {
        let p = process_pool_record(self.processes, pid);
        if process_pool_contains(self.processes, pid) && p.n_threads == 1 {
            Some(ProcessContextData { n_threads: 0, sem: p.sem.signaled(), ..p })
        } else {
            None
        }
    }

    /// The record of a thread that has exited: its semaphore signalled once
    /// more, its personality released, marked as a zombie.
    pub open spec fn exited_thread(t: ThreadContextData) -> ThreadContextData {
        ThreadContextData {
            sem: t.sem.signaled(),
            personality: None,
            attribute: ThreadAttribute { queued: t.attribute.queued, zombie: true },
            ..t
        }
    }

    /// The state after the thread on processor `cpu` exited at `now`, and
    /// what the caller is told to do: the thread becomes a zombie and goes to
    /// sleep for good, and its process counts one thread less.
    pub open spec fn exit(self, cpu: int, now: TimeSpec) -> (SchedulerView, Option<ContextSwitch>) {
        let t = self.locals[cpu].current;
        let slept = self.sleep(cpu, now);
        let rec = pool_record(slept.0.threads, t);
        (slept.0.with_thread(t, Self::exited_thread(rec)).leave_process(rec.pid), slept.1)
    }

    /// The structural invariant survives a change to one process record that leaves
    /// its identifier alone.
    pub proof fn lemma_process_update_wf(pre: SchedulerView, post: SchedulerView, k: int)
        requires
            pre.wf_core(),
            0 <= k < pre.processes.len(),
            post == (SchedulerView { processes: post.processes, ..pre }),
            post.processes.len() == pre.processes.len(),
            post.processes[k].pid == pre.processes[k].pid,
            forall|i: int|
                0 <= i < pre.processes.len() && i != k ==> post.processes[i] == pre.processes[i],
        ensures
            post.wf_core(),
    {
        assert forall|i: int| 0 <= i < post.processes.len() implies (
        #[trigger] post.processes[i]).pid == pre.processes[i].pid by {}
        assert(process_pool_wf(post.processes)) by {
            assert forall|i: int, j: int| 0 <= i < j < post.processes.len() implies (
            #[trigger] post.processes[i]).pid.0 < (#[trigger] post.processes[j]).pid.0 by {
                assert(pre.processes[i].pid.0 < pre.processes[j].pid.0);
            }
        }
        assert forall|i: int| 0 <= i < post.processes.len() implies (
        #[trigger] post.processes[i]).pid.0 < post.next_pid by {
            assert(pre.processes[i].pid.0 < pre.next_pid);
        }
        Self::lemma_processes_changed(pre, post);
    }

    /// Counting one thread less in a process keeps the structural invariant.
    pub proof fn lemma_leave_process_wf(pre: SchedulerView, pid: ProcessId)
        requires
            pre.wf_core(),
        ensures
            pre.leave_process(pid).wf_core(),
    {
        if process_pool_contains(pre.processes, pid) {
            let post = pre.leave_process(pid);
            let k = process_pool_index(pre.processes, pid);
            let p = process_pool_record(pre.processes, pid);
            if p.n_threads == 1 {
                assert forall|i: int| 0 <= i < post.processes.len() implies #[trigger] post.processes[i]
                    == pre.processes[if i < k { i } else { i + 1 }] by {}
                assert(process_pool_wf(post.processes)) by {
                    assert forall|i: int, j: int| 0 <= i < j < post.processes.len() implies (
                    #[trigger] post.processes[i]).pid.0 < (#[trigger] post.processes[j]).pid.0 by {
                        let i2 = if i < k { i } else { i + 1 };
                        let j2 = if j < k { j } else { j + 1 };
                        assert(pre.processes[i2].pid.0 < pre.processes[j2].pid.0);
                    }
                }
                assert forall|i: int| 0 <= i < post.processes.len() implies (
                #[trigger] post.processes[i]).pid.0 < post.next_pid by {
                    let i2 = if i < k { i } else { i + 1 };
                    assert(pre.processes[i2].pid.0 < pre.next_pid);
                }
            } else {
                assert forall|i: int| 0 <= i < post.processes.len() implies (
                #[trigger] post.processes[i]).pid == pre.processes[i].pid by {}
                assert(process_pool_wf(post.processes)) by {
                    assert forall|i: int, j: int| 0 <= i < j < post.processes.len() implies (
                    #[trigger] post.processes[i]).pid.0 < (#[trigger] post.processes[j]).pid.0 by {
                        assert(pre.processes[i].pid.0 < pre.processes[j].pid.0);
                    }
                }
                assert forall|i: int| 0 <= i < post.processes.len() implies (
                #[trigger] post.processes[i]).pid.0 < post.next_pid by {
                    assert(pre.processes[i].pid.0 < pre.next_pid);
                }
            }
            Self::lemma_processes_changed(pre, post);
        }
    }

    /// Exiting keeps the structural invariant.
    pub proof fn lemma_exit_wf(pre: SchedulerView, cpu: int, now: TimeSpec)
        requires
            pre.wf_core(),
            pre.can_switch(cpu),
        ensures
            pre.exit(cpu, now).0.wf_core(),
            pre.sleep(cpu, now).0.wf_core(),
            pool_contains(pre.sleep(cpu, now).0.threads, pre.locals[cpu].current),
            pre.sleep(cpu, now).0.with_thread(
                pre.locals[cpu].current,
                Self::exited_thread(
                    pool_record(pre.sleep(cpu, now).0.threads, pre.locals[cpu].current),
                ),
            ).wf_core(),
    {
        Self::lemma_yield_wf(pre, cpu, now);
        Self::lemma_sleep_wf(pre, cpu, now);
        let t = pre.locals[cpu].current;
        let y = pre.yield_thread(cpu, now).0;
        let k = pool_index(y.threads, t);
        let slept = pre.sleep(cpu, now).0;
        crate::task::thread::lemma_update_same_handle(y.threads, slept.threads, k);
        let rec = pool_record(slept.threads, t);
        let marked = slept.with_thread(t, Self::exited_thread(rec));
        assert(y.threads[k].sleep_counter >= 0);
        Self::lemma_update_offqueue(y, marked, k);
        Self::lemma_leave_process_wf(marked, rec.pid);
    }
}

/// What is left to do after a thread has exited.
pub struct ExitReport {
    /// The switch to perform.
    pub switch: Option<ContextSwitch>,
    /// The personality of the thread, to be cleaned up.
    pub personality: Option<PersonalityContext>,
    /// The record of the thread's process if the thread was its last one.
    /// The process has left the registry; whoever waits for it can go on.
    pub process: Option<ProcessContextData>,
}

impl Scheduler {
    /// Counts the threads of a band.
    fn band_len(&self, realtime: bool) -> (n: usize)
        requires
            self.threads.wf(),
        ensures
            self@.band_handles(realtime).finite(),
            n == self@.band_handles(realtime).len(),
    {
        let mut n: usize = 0;
        let mut i: usize = 0;
        proof {
            assert(self@.band_prefix(realtime, 0) =~= Set::empty());
        }
        while i < self.threads.data.len()
            invariant
                self.threads.wf(),
                i <= self.threads@.len(),
                n <= i,
                self@.band_prefix(realtime, i as int).finite(),
                n == self@.band_prefix(realtime, i as int).len(),
            decreases self.threads@.len() - i,
        {
            proof {
                self@.lemma_band_prefix_step(realtime, i as int);
            }
            let p = self.threads.data[i].priority;
            if p != Priority::Idle && (p == Priority::Realtime) == realtime {
                n = n + 1;
            }
            i = i + 1;
        }
        proof {
            self@.lemma_band_prefix_all(realtime);
        }
        n
    }

    /// Whether the band of the given priority has as many threads as its
    /// queue has room for.
    fn is_band_full(&self, priority: Priority) -> (r: bool)
        requires
            self.threads.wf(),
        ensures
            r == self@.band_full(priority),
    {
        if priority == Priority::Idle {
            false
        } else if priority == Priority::Realtime {
            self.band_len(true) >= self.queue_realtime.0.capacity
        } else {
            self.band_len(false) >= self.queue_normal.0.capacity
        }
    }

    /// Counts one thread more in the process at position `k` of the
    /// registry.
    fn count_thread(&mut self, k: usize)
        requires
            old(self).processes.wf(),
            k < old(self).processes@.len(),
        ensures
            final(self)@ == old(self)@.join_process(old(self).processes@[k as int].pid),
    {
        proof {
            lemma_process_index_unique(self.processes@, self.processes@[k as int].pid, k as int);
        }
        self.processes.data[k].n_threads = self.processes.data[k].n_threads.wrapping_add(1);
        assert(self@ =~= old(self)@.join_process(old(self).processes@[k as int].pid));
    }

    /// Decides whether a thread can be spawned from processor `cpu`, and
    /// with which parent process and priority.
    fn spawn_decision(&self, cpu: ProcessorIndex, options: SpawnOption) -> (r: Option<
        (ProcessId, Priority),
    >)
        requires
            self.wf(),
        ensures
            r.is_some() == self@.can_spawn(cpu, options),
            r matches Some(d) ==> d.0 == self@.spec_current_pid(cpu) && d.1
                == self@.spawn_priority(cpu, options),
    {
        let current_pid = self.current_pid(cpu);
        let priority = match options.priority {
            Some(p) => p,
            None => {
                if options.new_process {
                    Priority::Normal
                } else {
                    match self.processes.get(current_pid) {
                        Some(p) => p.priority,
                        None => {
                            return None;
                        },
                    }
                }
            },
        };
        if self.next_thread_id == usize::MAX {
            return None;
        }
        if options.new_process {
            if self.next_pid == usize::MAX {
                return None;
            }
        } else {
            if self.processes.find(current_pid).is_none() {
                return None;
            }
        }
        if self.is_band_full(priority) {
            return None;
        }
        Some((current_pid, priority))
    }

    /// Registers a process without threads under the next identifier. It
    /// inherits the working directory of its parent.
    fn new_process(&mut self, parent: ProcessId, priority: Priority, name: &str, now: TimeSpec) -> (pid:
        ProcessId)
        requires
            old(self).wf(),
            old(self).next_pid < usize::MAX,
        ensures
            final(self).wf(),
            pid == ProcessId(old(self).next_pid),
            final(self).processes.contains(pid),
            final(self)@ == old(self)@.with_new_process(final(self).processes.record(pid)),
            final(self).processes.record(pid).is_fresh(
                pid,
                parent,
                priority,
                name@,
                if old(self).processes.contains(parent) {
                    old(self).processes.record(parent).cwd@
                } else {
                    Seq::<char>::empty()
                },
                now,
            ),
            forall|p: Priority| #[trigger] final(self)@.band_full(p) == old(self)@.band_full(p),
    {
        let cwd = parent.cwd(self);
        let pid = ProcessId(self.next_pid);
        let child = ProcessContextData::new(pid, parent, priority, name, cwd.as_str(), now);
        proof {
            SchedulerView::lemma_with_new_process_wf(self@, child);
        }
        self.processes.add(child);
        self.next_pid = self.next_pid + 1;
        assert(self@ =~= old(self)@.with_new_process(child));
        pid
    }

    /// Registers a fresh thread of process `pid` under the next handle,
    /// counts it in its process and offers it to the run queues.
    fn new_thread(
        &mut self,
        pid: ProcessId,
        priority: Priority,
        name: &str,
        start: Option<ThreadStart>,
        personality: Option<PersonalityContext>,
    ) -> (h: ThreadHandle)
        requires
            old(self).wf(),
            old(self).next_thread_id < usize::MAX,
            old(self).processes.contains(pid),
            !old(self)@.band_full(priority),
        ensures
            final(self).wf(),
            h == ThreadHandle(old(self).next_thread_id),
            final(self).threads.contains(h),
            final(self).threads.record(h).with_queued(false).is_fresh(
                h,
                pid,
                priority,
                name@,
                start,
                personality,
            ),
            final(self)@ == old(self)@.join_process(pid).with_new_thread(
                final(self).threads.record(h).with_queued(false),
            ),
    {
        let k = match self.processes.find(pid) {
            Some(k) => k,
            None => 0,
        };
        proof {
            SchedulerView::lemma_join_process_wf(self@, pid);
        }
        self.count_thread(k);
        let ghost counted = self@;
        let handle = ThreadHandle(self.next_thread_id);
        let thread = ThreadContextData::new(handle, pid, priority, name, start, personality);
        let ghost t = thread;
        proof {
            SchedulerView::lemma_with_new_thread_wf(self@, thread);
        }
        self.threads.add(thread);
        self.next_thread_id = self.next_thread_id + 1;
        let ghost mid = self@;
        assert(mid =~= (SchedulerView {
            threads: counted.threads.push(t),
            next_thread_id: (counted.next_thread_id + 1) as usize,
            ..counted
        }));
        self.add(handle);
        proof {
            SchedulerView::lemma_fresh_after_add(mid, t);
        }
        handle
    }

    /// Spawns a thread that starts at `start`, from the thread that runs on
    /// processor `cpu`. The thread joins the process of its parent, or a new
    /// process whose parent that is; it gets the priority asked for, else
    /// that of its process; it is registered under the next handle and
    /// offered to the run queues. Nothing happens, and `None` is returned,
    /// when no handle or no process identifier is left, when the parent's
    /// process is gone, or when the band of the thread is full.
    pub fn spawn_thread(
        &mut self,
        cpu: ProcessorIndex,
        start: ThreadStart,
        name: &str,
        options: SpawnOption,
        now: TimeSpec,
    ) -> (r: Option<ThreadHandle>)
        requires
            old(self).wf(),
        ensures
            final(self).wf(),
            SchedulerView::spawned(old(self)@, final(self)@, cpu, start, name@, options, now, r),
    {
        let r = self.spawn_thread_inner(cpu, start, name, options, now);
        proof {
            SchedulerView::lemma_spawned_consistent(
                    old(self)@,
                    self@,
                    cpu,
                    start,
                    name@,
                    options,
                    now,
                    r,
                );
        }
        r
    }

    /// Spawns a thread as `spawn_thread` says.
    fn spawn_thread_inner(
        &mut self,
        cpu: ProcessorIndex,
        start: ThreadStart,
        name: &str,
        options: SpawnOption,
        now: TimeSpec,
    ) -> (r: Option<ThreadHandle>)
        requires
            old(self).wf(),
        ensures
            final(self).wf(),
            SchedulerView::spawned(old(self)@, final(self)@, cpu, start, name@, options, now, r),
    {
        let (parent, priority) = match self.spawn_decision(cpu, options) {
            Some(d) => d,
            None => {
                return None;
            },
        };
        if options.new_process {
            let pid = self.new_process(parent, priority, name, now);
            let ghost p = self.processes.record(pid);
            let h = self.new_thread(pid, priority, name, Some(start), options.personality);
            proof {
                let t = self.threads.record(h).with_queued(false);
                assert(p.is_fresh(
                    pid,
                    old(self)@.spec_current_pid(cpu),
                    priority,
                    name@,
                    old(self)@.inherited_cwd(cpu),
                    now,
                ));
                assert(t.pid == pid);
                assert(self@ == old(self)@.spawn_thread(options, t, Some(p)));
                assert(SchedulerView::is_spawn_with(
                    old(self)@,
                    self@,
                    cpu,
                    name@,
                    options,
                    now,
                    t,
                    p,
                ));
                assert(SchedulerView::spawned(
                    old(self)@,
                    self@,
                    cpu,
                    start,
                    name@,
                    options,
                    now,
                    Some(h),
                ));
            }
            Some(h)
        } else {
            let h = self.new_thread(parent, priority, name, Some(start), options.personality);
            proof {
                let t = self.threads.record(h).with_queued(false);
                assert(t.pid == parent);
                assert(self@ == old(self)@.spawn_thread(options, t, None));
                assert(SchedulerView::spawned(
                    old(self)@,
                    self@,
                    cpu,
                    start,
                    name@,
                    options,
                    now,
                    Some(h),
                ));
            }
            Some(h)
        }
    }
}

impl Scheduler {
    /// Counts one thread less in process `pid`; with its last thread the
    /// process is signalled and leaves the registry. Returns the record of
    /// a process that left.
    fn leave_process(&mut self, pid: ProcessId) -> (r: Option<ProcessContextData>)
        requires
            old(self).processes.wf(),
        ensures
            final(self)@ == old(self)@.leave_process(pid),
            r == old(self)@.exited_process(pid),
    {
        let k = match self.processes.find(pid) {
            Some(k) => k,
            None => {
                return None;
            },
        };
        if self.processes.data[k].n_threads == 1 {
            self.processes.data[k].n_threads = 0;
            self.processes.data[k].sem.signal();
            let ghost mid = self.processes@;
            proof {
                lemma_process_index_unique(mid, pid, k as int);
            }
            let p = self.processes.remove(pid);
            assert(self@ =~= old(self)@.leave_process(pid));
            p
        } else {
            self.processes.data[k].n_threads = self.processes.data[k].n_threads.wrapping_sub(1);
            assert(self@ =~= old(self)@.leave_process(pid));
            None
        }
    }

    /// The thread on processor `cpu` exits: its semaphore is signalled, its
    /// personality is released, its process counts one thread less and
    /// exits with its last thread, and the thread becomes a zombie that
    /// sleeps until it is destroyed when it retires.
    pub fn exit(&mut self, cpu: ProcessorIndex, now: TimeSpec) -> (r: ExitReport)
        requires
            old(self).wf(),
            old(self)@.can_switch(cpu.0 as int),
        ensures
            final(self).wf(),
            final(self)@ == old(self)@.exit(cpu.0 as int, now).0,
            r.switch == old(self)@.exit(cpu.0 as int, now).1,
            r.personality == old(self).threads.record(
                old(self).locals@[cpu.0 as int].current,
            ).personality,
            r.process == old(self)@.exited_process(
                old(self).threads.record(old(self).locals@[cpu.0 as int].current).pid,
            ),
    {
        proof {
            SchedulerView::lemma_exit_consistent(self@, cpu.0 as int, now);
            SchedulerView::lemma_exit_wf(self@, cpu.0 as int, now);
            SchedulerView::lemma_yield_wf(self@, cpu.0 as int, now);
            assert(self@.wf_local(cpu.0 as int));
        }
        let current = self.locals[cpu.0].current_thread();
        let switch = self.sleep(cpu, now);
        let ghost slept = self@;
        let k = match self.threads.find(current) {
            Some(k) => k,
            None => {
                return ExitReport { switch, personality: None, process: None };
            },
        };
        proof {
            let y = old(self)@.yield_thread(cpu.0 as int, now).0;
            crate::task::thread::lemma_update_same_handle(
                y.threads,
                slept.threads,
                pool_index(y.threads, current),
            );
        }
        self.threads.data[k].sem.signal();
        let personality = self.threads.data[k].personality;
        self.threads.data[k].personality = None;
        self.threads.data[k].attribute.zombie = true;
        let pid = self.threads.data[k].pid;
        assert(self@ =~= slept.with_thread(
            current,
            SchedulerView::exited_thread(pool_record(slept.threads, current)),
        ));
        let process = self.leave_process(pid);
        proof {
            SchedulerView::lemma_leave_process_wf(
                slept.with_thread(
                    current,
                    SchedulerView::exited_thread(pool_record(slept.threads, current)),
                ),
                pid,
            );
        }
        ExitReport { switch, personality, process }
    }
}

impl ProcessId {
    /// Tries to join the process. The join succeeds at once if the process
    /// is not registered any more; else it succeeds when it can take a
    /// permit of the process's semaphore. On `false` the caller waits and
    /// asks again.
    pub fn join(&self, scheduler: &mut Scheduler) -> (joined: bool)
        requires
            old(scheduler).wf(),
        ensures
            final(scheduler).wf(),
            joined == (!old(scheduler).processes.contains(*self) || old(
                scheduler,
            ).processes.record(*self).sem.value > 0),
            !old(scheduler).processes.contains(*self) || !joined ==> final(scheduler)@ == old(
                scheduler,
            )@,
            old(scheduler).processes.contains(*self) && joined ==> final(scheduler)@ == (
            SchedulerView {
                processes: old(scheduler).processes@.update(
                    old(scheduler).processes.index_of(*self),
                    ProcessContextData {
                        sem: crate::sync::Semaphore {
                            value: (old(scheduler).processes.record(*self).sem.value - 1) as usize,
                        },
                        ..old(scheduler).processes.record(*self)
                    },
                ),
                ..old(scheduler)@
            }),
    {
        let k = match scheduler.processes.find(*self) {
            Some(k) => k,
            None => {
                return true;
            },
        };
        let joined = scheduler.processes.data[k].sem.try_wait();
        proof {
            assert(joined ==> scheduler@ =~= (SchedulerView {
                processes: old(scheduler).processes@.update(
                    old(scheduler).processes.index_of(*self),
                    ProcessContextData {
                        sem: crate::sync::Semaphore {
                            value: (old(scheduler).processes.record(*self).sem.value - 1) as usize,
                        },
                        ..old(scheduler).processes.record(*self)
                    },
                ),
                ..old(scheduler)@
            }));
            assert(!joined ==> scheduler@ =~= old(scheduler)@);
            SchedulerView::lemma_process_update_wf(old(scheduler)@, scheduler@, k as int);
        }
        joined
    }

    /// Sets the working directory of the process. Does nothing if the
    /// process is not registered.
    pub fn set_cwd(&self, scheduler: &mut Scheduler, path: &str)
        requires
            old(scheduler).wf(),
        ensures
            final(scheduler).wf(),
            !old(scheduler).processes.contains(*self) ==> final(scheduler)@ == old(scheduler)@,
            old(scheduler).processes.contains(*self) ==> final(scheduler).processes.contains(*self)
                && final(scheduler).processes.record(*self).cwd@ == path@ && final(scheduler)@ == (
            SchedulerView {
                processes: old(scheduler).processes@.update(
                    old(scheduler).processes.index_of(*self),
                    final(scheduler).processes.record(*self),
                ),
                ..old(scheduler)@
            }) && final(scheduler).processes.record(*self) == (ProcessContextData {
                cwd: final(scheduler).processes.record(*self).cwd,
                ..old(scheduler).processes.record(*self)
            }),
    {
        let k = match scheduler.processes.find(*self) {
            Some(k) => k,
            None => {
                return ;
            },
        };
        scheduler.processes.data[k].cwd = path.to_owned();
        proof {
            SchedulerView::lemma_process_update_wf(old(scheduler)@, scheduler@, k as int);
            lemma_process_index_unique(scheduler.processes@, *self, k as int);
            assert(scheduler@ =~= (SchedulerView {
                processes: old(scheduler).processes@.update(
                    old(scheduler).processes.index_of(*self),
                    scheduler.processes.record(*self),
                ),
                ..old(scheduler)@
            }));
        }
    }

    /// The working directory of the process; empty if the process is not
    /// registered.
    pub fn cwd(&self, scheduler: &Scheduler) -> (r: String)
        requires
            scheduler.processes.wf(),
        ensures
            r@ == if scheduler.processes.contains(*self) {
                scheduler.processes.record(*self).cwd@
            } else {
                Seq::<char>::empty()
            },
    {
        match scheduler.processes.get(*self) {
            Some(p) => p.cwd.clone(),
            None => {
                let empty = "".to_owned();
                proof {
                    reveal_strlit("");
                }
                assert(empty@ =~= Seq::<char>::empty());
                empty
            },
        }
    }
}

impl SchedulerView {
    /// The state with `executor` as the executor of thread `h`.
    pub open spec fn with_executor(self, h: ThreadHandle, executor: Option<Executor>) -> SchedulerView {
        self.with_thread(h, ThreadContextData { executor, ..pool_record(self.threads, h) })
    }

    /// The tasks that wait in the executor of thread `h`.
    pub open spec fn tasks_of(self, h: ThreadHandle) -> Seq<Task> {
        match pool_record(self.threads, h).executor {
            Some(e) => e@,
            None => Seq::empty(),
        }
    }

    /// Giving a thread another executor keeps the structural invariant and leaves
    /// everything else as it is.
    pub proof fn lemma_with_executor_wf(pre: SchedulerView, h: ThreadHandle, e: Option<Executor>)
        requires
            pre.wf_core(),
            pool_contains(pre.threads, h),
        ensures
            pre.with_executor(h, e).wf_core(),
            pool_contains(pre.with_executor(h, e).threads, h),
            pool_record(pre.with_executor(h, e).threads, h) == (ThreadContextData {
                executor: e,
                ..pool_record(pre.threads, h)
            }),
            forall|c: int|
                0 <= c < pre.locals.len() ==> #[trigger] pre.with_executor(h, e).can_switch(c)
                    == pre.can_switch(c),
    {
        let k = pool_index(pre.threads, h);
        Self::lemma_update_inert(pre, pre.with_executor(h, e), k);
        crate::task::thread::lemma_update_same_handle(pre.threads, pre.with_executor(h, e).threads, k);
    }
}

impl Scheduler {
    /// Hands a task to the executor of the thread that runs on processor
    /// `cpu`. A thread has at most one executor; it is made when the first
    /// task arrives. Nothing else changes.
    pub fn spawn_task(&mut self, cpu: ProcessorIndex, task: Task)
        requires
            old(self).wf(),
            cpu.0 < old(self).locals@.len(),
        ensures
            final(self).wf(),
            final(self)@ == old(self)@.with_executor(
                old(self).locals@[cpu.0 as int].current,
                final(self).threads.record(old(self).locals@[cpu.0 as int].current).executor,
            ),
            final(self).threads.record(old(self).locals@[cpu.0 as int].current).executor.is_some(),
            final(self)@.tasks_of(old(self).locals@[cpu.0 as int].current) == old(self)@.tasks_of(
                old(self).locals@[cpu.0 as int].current,
            ).push(task),
    {
        let current = self.locals[cpu.0].current_thread();
        proof {
            assert(self@.wf_local(cpu.0 as int));
        }
        let k = match self.threads.find(current) {
            Some(k) => k,
            None => {
                proof {
                    assert(false);
                }
                return ;
            },
        };
        let mut executor = match self.threads.data[k].executor.take() {
            Some(e) => e,
            None => Executor::new(),
        };
        executor.spawn(task);
        let ghost e = Some(executor);
        self.threads.data[k].executor = Some(executor);
        proof {
            assert(self@ =~= old(self)@.with_executor(current, e));
            SchedulerView::lemma_with_executor_wf(old(self)@, current, e);
            SchedulerView::lemma_update_consistent(
                    old(self)@,
                    self@,
                    pool_index(old(self)@.threads, current),
                    None,
                );
        }
    }

    /// Hands a new task with the given id to the executor of the thread that
    /// runs on processor `cpu`.
    pub fn spawn_async(&mut self, cpu: ProcessorIndex, task_id: usize)
        requires
            old(self).wf(),
            cpu.0 < old(self).locals@.len(),
        ensures
            final(self).wf(),
            final(self)@ == old(self)@.with_executor(
                old(self).locals@[cpu.0 as int].current,
                final(self).threads.record(old(self).locals@[cpu.0 as int].current).executor,
            ),
            final(self).threads.record(old(self).locals@[cpu.0 as int].current).executor.is_some(),
            final(self)@.tasks_of(old(self).locals@[cpu.0 as int].current) == old(self)@.tasks_of(
                old(self).locals@[cpu.0 as int].current,
            ).push(Task { id: task_id }),
    {
        self.spawn_task(cpu, Task::new(task_id));
    }

    /// The thread on processor `cpu` runs its executor to exhaustion and
    /// exits. Returns the tasks that were run, in the order in which they
    /// arrived, and what is left to do after the exit. The state is that
    /// after the exit of the thread with its executor emptied.
    pub fn perform_tasks(&mut self, cpu: ProcessorIndex, now: TimeSpec) -> (r: (
        Vec<Task>,
        ExitReport,
    ))
        requires
            old(self).wf(),
            old(self)@.can_switch(cpu.0 as int),
        ensures
            final(self).wf(),
            r.0@ == old(self)@.tasks_of(old(self).locals@[cpu.0 as int].current),
            exists|e: Option<Executor>|
                SchedulerView::is_exit_after_tasks(
                    old(self)@,
                    final(self)@,
                    cpu.0 as int,
                    now,
                    e,
                    r.1.switch,
                ),
            r.1.personality == old(self).threads.record(
                old(self).locals@[cpu.0 as int].current,
            ).personality,
            r.1.process == old(self)@.exited_process(
                old(self).threads.record(old(self).locals@[cpu.0 as int].current).pid,
            ),
    {
        let current = self.locals[cpu.0].current_thread();
        proof {
            assert(self@.wf_local(cpu.0 as int));
        }
        let mut done: Vec<Task> = Vec::new();
        let ghost mut emptied: Option<Executor> = self.threads.record(current).executor;
        match self.threads.find(current) {
            Some(k) => {
                let executor = self.threads.data[k].executor.take();
                match executor {
                    Some(mut e) => {
                        done = e.run();
                        proof {
                            emptied = Some(e);
                        }
                        self.threads.data[k].executor = Some(e);
                    },
                    None => {},
                }
                proof {
                    assert(self@ =~= old(self)@.with_executor(current, emptied));
                    SchedulerView::lemma_with_executor_wf(old(self)@, current, emptied);
                    SchedulerView::lemma_update_consistent(
                            old(self)@,
                            self@,
                            pool_index(old(self)@.threads, current),
                            None,
                        );
                }
            },
            None => {
                proof {
                    assert(false);
                }
            },
        }
        let ghost drained = self@;
        let report = self.exit(cpu, now);
        proof {
            assert(SchedulerView::is_exit_after_tasks(
                old(self)@,
                self@,
                cpu.0 as int,
                now,
                emptied,
                report.switch,
            ));
        }
        (done, report)
    }

    /// The personality of the thread that runs on processor `cpu`.
    pub fn current_personality(&self, cpu: ProcessorIndex) -> (r: Option<PersonalityContext>)
        requires
            self.wf(),
            cpu.0 < self.locals@.len(),
        ensures
            r == self.threads.record(self.locals@[cpu.0 as int].current).personality,
    {
        proof {
            assert(self@.wf_local(cpu.0 as int));
        }
        match self.threads.get(self.locals[cpu.0].current_thread()) {
            Some(t) => t.personality,
            None => None,
        }
    }

    /// Stops all threads: from now on every processor that reschedules
    /// switches to its idle thread. Does nothing while the scheduler is
    /// disabled. Returns whether the caller is to interrupt the other
    /// processors so that they reschedule at once, which is so when `force`
    /// is set and the scheduler is enabled.
    pub fn freeze(&mut self, force: bool) -> (broadcast: bool)
        requires
            old(self).wf(),
        ensures
            final(self).wf(),
            final(self)@ == (SchedulerView {
                is_frozen: old(self).is_frozen || old(self).state != SchedulerState::Disabled,
                ..old(self)@
            }),
            broadcast == (force && old(self).state != SchedulerState::Disabled),
    {
        if self.is_enabled() {
            self.is_frozen = true;
            proof {
                SchedulerView::lemma_same_but_flags(old(self)@, self@);
            }
            force
        } else {
            false
        }
    }
}

impl SchedulerView {
    /// `post` and `switch` are the state and the switch after the thread on
    /// processor `cpu` ran its tasks and exited at `now`, where `e` is the
    /// executor it is left with: none if it had none, else one without
    /// tasks.
    pub open spec fn is_exit_after_tasks(
        pre: SchedulerView,
        post: SchedulerView,
        cpu: int,
        now: TimeSpec,
        e: Option<Executor>,
        switch: Option<ContextSwitch>,
    ) -> bool {
        let current = pre.locals[cpu].current;
        &&& e.is_some() == pool_record(pre.threads, current).executor.is_some()
        &&& (e matches Some(x) ==> x@.len() == 0)
        &&& post == pre.with_executor(current, e).exit(cpu, now).0
        &&& switch == pre.with_executor(current, e).exit(cpu, now).1
    }
}

impl ThreadHandle {
    /// The name of the thread, if it is registered.
    pub fn name(&self, scheduler: &Scheduler) -> (r: Option<String>)
        requires
            scheduler.threads.wf(),
        ensures
            r.is_some() == scheduler.threads.contains(*self),
            r matches Some(n) ==> n@ == scheduler.threads.record(*self).name@,
    {
        match scheduler.threads.get(*self) {
            Some(t) => Some(t.name()),
            None => None,
        }
    }

    /// Tries to join the thread. The join succeeds at once if the thread is
    /// not registered any more; else it succeeds when it can take a permit
    /// of the thread's semaphore, which the thread signals when it exits.
    /// On `false` the caller waits and asks again.
    pub fn join(&self, scheduler: &mut Scheduler) -> (joined: bool)
        requires
            old(scheduler).wf(),
        ensures
            final(scheduler).wf(),
            joined == (!old(scheduler).threads.contains(*self) || old(scheduler).threads.record(
                *self,
            ).sem.value > 0),
            !old(scheduler).threads.contains(*self) || !joined ==> final(scheduler)@ == old(
                scheduler,
            )@,
            old(scheduler).threads.contains(*self) && joined ==> final(scheduler)@ == old(
                scheduler,
            )@.with_thread(
                *self,
                ThreadContextData {
                    sem: crate::sync::Semaphore {
                        value: (old(scheduler).threads.record(*self).sem.value - 1) as usize,
                    },
                    ..old(scheduler).threads.record(*self)
                },
            ),
    {
        let k = match scheduler.threads.find(*self) {
            Some(k) => k,
            None => {
                return true;
            },
        };
        let joined = scheduler.threads.data[k].sem.try_wait();
        proof {
            if joined {
                assert(scheduler@ =~= old(scheduler)@.with_thread(
                    *self,
                    ThreadContextData {
                        sem: crate::sync::Semaphore {
                            value: (old(scheduler).threads.record(*self).sem.value - 1) as usize,
                        },
                        ..old(scheduler).threads.record(*self)
                    },
                ));
            } else {
                assert(scheduler@ =~= old(scheduler)@);
            }
            SchedulerView::lemma_update_inert(old(scheduler)@, scheduler@, k as int);
        }
        joined
    }
}

impl SpawnOption {
    /// Options that ask for nothing.
    pub fn new() -> (r: Self)
        ensures
            r == (SpawnOption { priority: None, new_process: false, personality: None }),
    {
        SpawnOption { priority: None, new_process: false, personality: None }
    }

    /// Options that ask for the given priority.
    pub fn with_priority(priority: Priority) -> (r: Self)
        ensures
            r == (SpawnOption { priority: Some(priority), new_process: false, personality: None }),
    {
        SpawnOption { priority: Some(priority), new_process: false, personality: None }
    }

    /// The same options with the given personality.
    pub fn personality(self, personality: PersonalityContext) -> (r: Self)
        ensures
            r == (SpawnOption { personality: Some(personality), ..self }),
    {
        SpawnOption { priority: self.priority, new_process: self.new_process, personality: Some(personality) }
    }

    /// Starts a thread with these options at `start`, from the thread that
    /// runs on processor `cpu`.
    pub fn start(
        self,
        scheduler: &mut Scheduler,
        cpu: ProcessorIndex,
        start: ThreadStart,
        name: &str,
        now: TimeSpec,
    ) -> (r: Option<ThreadHandle>)
        requires
            old(scheduler).wf(),
        ensures
            final(scheduler).wf(),
            SchedulerView::spawned(
                old(scheduler)@,
                final(scheduler)@,
                cpu,
                start,
                name@,
                self,
                now,
                r,
            ),
    {
        scheduler.spawn_thread(cpu, start, name, self, now)
    }

    /// Starts a thread with these options at `start` in a process of its
    /// own, from the thread that runs on processor `cpu`. Returns the
    /// identifier of the new process.
    pub fn start_process(
        self,
        scheduler: &mut Scheduler,
        cpu: ProcessorIndex,
        start: ThreadStart,
        name: &str,
        now: TimeSpec,
    ) -> (r: Option<ProcessId>)
        requires
            old(scheduler).wf(),
        ensures
            final(scheduler).wf(),
            SchedulerView::spawned(
                old(scheduler)@,
                final(scheduler)@,
                cpu,
                start,
                name@,
                SpawnOption { new_process: true, ..self },
                now,
                if r.is_some() {
                    Some(ThreadHandle(old(scheduler).next_thread_id))
                } else {
                    None
                },
            ),
            r.is_some() ==> r == Some(ProcessId(old(scheduler).next_pid)),
    {
        let options = SpawnOption {
            priority: self.priority,
            new_process: true,
            personality: self.personality,
        };
        match scheduler.spawn_thread(cpu, start, name, options, now) {
            Some(thread) => match scheduler.threads.get(thread) {
                Some(t) => Some(t.pid),
                None => None,
            },
            None => None,
        }
    }
}

/// The joiner's end of a thread started from a closure: the thread, and the
/// cell that takes the closure's result.
pub struct JoinHandle<T> {
    pub thread: ThreadHandle,
    pub result: Option<T>,
}

/// Why a join gave no result.
pub enum JoinError<T> {
    /// The thread has not exited yet: wait, and join again with the handle.
    Pending(JoinHandle<T>),
    /// The thread has exited and left no result in the cell.
    Lost,
}

/// The thread's end of a thread started from a closure: the closure to run.
pub struct FnSpawner<F> {
    pub start: F,
}

impl<T> JoinHandle<T> {
    /// Whether the thread of this handle can be joined in the given state:
    /// it has left the registry, or its semaphore holds a permit.
    pub open spec fn can_join(&self, scheduler: SchedulerView) -> bool {
        !pool_contains(scheduler.threads, self.thread) || pool_record(
            scheduler.threads,
            self.thread,
        ).sem.value > 0
    }

    /// Joins the thread and takes the result of its closure out of the cell.
    /// While the thread cannot be joined the handle comes back unchanged.
    pub fn join(self, scheduler: &mut Scheduler) -> (r: Result<T, JoinError<T>>)
        requires
            old(scheduler).wf(),
        ensures
            final(scheduler).wf(),
            !self.can_join(old(scheduler)@) ==> (r matches Err(JoinError::Pending(h)) && h == self)
                && final(scheduler)@ == old(scheduler)@,
            self.can_join(old(scheduler)@) ==> match self.result {
                Some(v) => (r matches Ok(w) && w == v),
                None => (r matches Err(JoinError::Lost)),
            },
            self.can_join(old(scheduler)@) && !old(scheduler).threads.contains(self.thread)
                ==> final(scheduler)@ == old(scheduler)@,
            self.can_join(old(scheduler)@) && old(scheduler).threads.contains(self.thread)
                ==> final(scheduler)@ == old(scheduler)@.with_thread(
                self.thread,
                ThreadContextData {
                    sem: crate::sync::Semaphore {
                        value: (old(scheduler).threads.record(self.thread).sem.value - 1) as usize,
                    },
                    ..old(scheduler).threads.record(self.thread)
                },
            ),
    {
        if self.thread.join(scheduler) {
            match self.result {
                Some(v) => Ok(v),
                None => Err(JoinError::Lost),
            }
        } else {
            Err(JoinError::Pending(self))
        }
    }
}

impl<F> FnSpawner<F> {
    /// Spawns a thread that is to run the closure `start`. The thread begins
    /// at `entry`, where the caller runs `_start_thread` and then lets the
    /// thread exit.
    pub fn spawn<T>(
        start: F,
        entry: ThreadStart,
        name: &str,
        options: SpawnOption,
        scheduler: &mut Scheduler,
        cpu: ProcessorIndex,
        now: TimeSpec,
    ) -> (r: Option<(FnSpawner<F>, JoinHandle<T>)>) where F: FnOnce() -> T
        requires
            old(scheduler).wf(),
        ensures
            final(scheduler).wf(),
            SchedulerView::spawned(
                old(scheduler)@,
                final(scheduler)@,
                cpu,
                entry,
                name@,
                options,
                now,
                match r {
                    Some(pair) => Some(pair.1.thread),
                    None => None,
                },
            ),
            r matches Some(pair) ==> (pair.0.start == start && pair.1.result.is_none()),
    {
        match scheduler.spawn_thread(cpu, entry, name, options, now) {
            Some(thread) => Some((FnSpawner { start }, JoinHandle { thread, result: None })),
            None => None,
        }
    }

    /// Runs the closure and leaves its result in the cell of the handle.
    pub fn _start_thread<T>(self, handle: &mut JoinHandle<T>) where F: FnOnce() -> T
        requires
            self.start.requires(()),
        ensures
            final(handle).thread == old(handle).thread,
            (final(handle).result matches Some(v) && self.start.ensures((), v)),
    {
        let r = (self.start)();
        handle.result = Some(r);
    }
}

impl SpawnOption {
    /// Starts a thread with these options that is to run the closure
    /// `start`.
    pub fn spawn<F, T>(
        self,
        scheduler: &mut Scheduler,
        cpu: ProcessorIndex,
        start: F,
        entry: ThreadStart,
        name: &str,
        now: TimeSpec,
    ) -> (r: Option<(FnSpawner<F>, JoinHandle<T>)>) where F: FnOnce() -> T
        requires
            old(scheduler).wf(),
        ensures
            final(scheduler).wf(),
            SchedulerView::spawned(
                old(scheduler)@,
                final(scheduler)@,
                cpu,
                entry,
                name@,
                self,
                now,
                match r {
                    Some(pair) => Some(pair.1.thread),
                    None => None,
                },
            ),
            r matches Some(pair) ==> (pair.0.start == start && pair.1.result.is_none()),
    {
        FnSpawner::spawn(start, entry, name, self, scheduler, cpu, now)
    }
}

} // verus!
