//! Thread handles, thread records and the registry that owns the records.

use vstd::prelude::*;
use crate::sync::Semaphore;
use crate::task::executor::{Executor, PersonalityContext};
use crate::task::priority::{Priority, Quantum};
use crate::task::process::ProcessId;

verus! {

/// Key of a thread record in the registry. Handles are issued in increasing
/// order and never reused; zero is not a handle.
#[derive(Debug, Copy, Clone, PartialEq, Eq, Structural, PartialOrd, Ord, Hash)]
pub struct ThreadHandle(pub usize);

impl ThreadHandle {
    /// The handle with the given value; zero is no handle.
    pub fn new(val: usize) -> (r: Option<Self>)
        ensures
            r == if val == 0 { None } else { Some(ThreadHandle(val)) },
    {
        if val == 0 {
            None
        } else {
            Some(ThreadHandle(val))
        }
    }

    pub fn as_usize(&self) -> (r: usize)
        ensures
            r == self.0,
    {
        self.0
    }
}

/// The attribute set of a thread.
#[derive(Debug, Copy, Clone, PartialEq, Eq, Structural)]
pub struct ThreadAttribute {
    /// The thread waits in a run queue.
    pub queued: bool,
    /// The thread has exited and waits to be destroyed.
    pub zombie: bool,
}

impl ThreadAttribute {
    pub fn empty() -> (r: Self)
        ensures
            !r.queued,
            !r.zombie,
    {
        ThreadAttribute { queued: false, zombie: false }
    }

    pub open spec fn spec_bits(self) -> int {
        (if self.queued { 1int } else { 0int }) + (if self.zombie { 8int } else { 0int })
    }

    /// The set as a bit mask: QUEUED is bit 0, ZOMBIE is bit 3.
    pub fn bits(&self) -> (r: usize)
        ensures
            r as int == self.spec_bits(),
    {
        let q: usize = if self.queued { 1 } else { 0 };
        let z: usize = if self.zombie { 8 } else { 0 };
        q + z
    }

    pub open spec fn spec_to_char(self) -> char {
        if self.zombie {
            'z'
        } else if self.queued {
            'R'
        } else {
            '-'
        }
    }

    /// One-letter state: `z` for a zombie, `R` for a queued thread, `-`
    /// otherwise.
    pub fn to_char(&self) -> (r: char)
        ensures
            r == self.spec_to_char(),
    {
        if self.zombie {
            'z'
        } else if self.queued {
            'R'
        } else {
            '-'
        }
    }
}

/// Where a thread starts: the address of its entry function and the argument
/// passed to it.
#[derive(Debug, Copy, Clone, PartialEq, Eq, Structural)]
pub struct ThreadStart {
    pub entry: usize,
    pub arg: usize,
}

/// A thread record.
pub struct ThreadContextData {
    /// Entry point of a thread that was given a stack; `None` for the threads
    /// that adopt the stack a processor booted on.
    pub start: Option<ThreadStart>,
    /// Size of the owned stack in bytes, zero without one.
    pub stack_size: usize,
    pub pid: ProcessId,
    pub handle: ThreadHandle,
    /// Signalled once when the thread exits.
    pub sem: Semaphore,
    pub personality: Option<PersonalityContext>,
    pub attribute: ThreadAttribute,
    /// Greater than zero while the thread sleeps.
    pub sleep_counter: isize,
    pub priority: Priority,
    pub quantum: Quantum,
    /// Clock sample taken when the thread was last accounted.
    pub measure: usize,
    /// Accumulated processor time, in clock ticks.
    pub cpu_time: usize,
    /// Busy ticks since the last statistics pass.
    pub load0: u32,
    /// Load in per mille, as of the last statistics pass.
    pub load: u32,
    pub executor: Option<Executor>,
    pub name: String,
}

/// Size of the stack given to a started thread.
pub const SIZE_OF_STACK: usize = 0x10000;

impl ThreadContextData {
    /// What a fresh record holds: nothing accounted, not queued, awake, a
    /// stack if it has an entry point.
    pub open spec fn is_fresh(
        self,
        handle: ThreadHandle,
        pid: ProcessId,
        priority: Priority,
        name: Seq<char>,
        start: Option<ThreadStart>,
        personality: Option<PersonalityContext>,
    ) -> bool {
        &&& self.handle == handle
        &&& self.pid == pid
        &&& self.priority == priority
        &&& self.name@ == name
        &&& self.start == start
        &&& self.stack_size == (if start.is_some() { SIZE_OF_STACK } else { 0 })
        &&& self.personality == personality
        &&& self.sem.value == 0
        &&& self.attribute == (ThreadAttribute { queued: false, zombie: false })
        &&& self.sleep_counter == 0
        &&& self.quantum == (Quantum {
            current: Quantum::default_for(priority),
            default: Quantum::default_for(priority),
        })
        &&& self.measure == 0
        &&& self.cpu_time == 0
        &&& self.load0 == 0
        &&& self.load == 0
        &&& self.executor.is_none()
    }

    /// A fresh record.
    pub fn new(
        handle: ThreadHandle,
        pid: ProcessId,
        priority: Priority,
        name: &str,
        start: Option<ThreadStart>,
        personality: Option<PersonalityContext>,
    ) -> (r: Self)
        ensures
            r.is_fresh(handle, pid, priority, name@, start, personality),
    {
        let stack_size: usize = if start.is_some() { SIZE_OF_STACK } else { 0 };
        ThreadContextData {
            start,
            stack_size,
            pid,
            handle,
            sem: Semaphore::new(0),
            personality,
            attribute: ThreadAttribute::empty(),
            sleep_counter: 0,
            priority,
            quantum: Quantum::from_priority(priority),
            measure: 0,
            cpu_time: 0,
            load0: 0,
            load: 0,
            executor: None,
            name: name.to_owned(),
        }
    }

    /// The record with its queued mark set to `queued`.
    pub open spec fn with_queued(self, queued: bool) -> ThreadContextData {
        ThreadContextData {
            attribute: ThreadAttribute { queued, zombie: self.attribute.zombie },
            ..self
        }
    }

    /// The record after the time since the last accounting was charged to
    /// the thread at the clock sample `now`.
    pub open spec fn accounted(self, now: usize) -> ThreadContextData {
        let diff = now.wrapping_sub(self.measure);
        ThreadContextData {
            measure: now,
            cpu_time: self.cpu_time.wrapping_add(diff),
            load0: self.load0.wrapping_add(diff as u32),
            ..self
        }
    }

    /// Charges the time since the last accounting to the thread. The
    /// counters wrap around.
    pub fn account(&mut self, now: usize)
        ensures
            *final(self) == old(self).accounted(now),
    {
        let diff = now.wrapping_sub(self.measure);
        self.measure = now;
        self.cpu_time = self.cpu_time.wrapping_add(diff);
        self.load0 = self.load0.wrapping_add(
            #[verifier::truncate]
            (diff as u32),
        );
    }

    pub open spec fn spec_is_asleep(&self) -> bool {
        self.sleep_counter > 0
    }

    pub fn is_asleep(&self) -> (r: bool)
        ensures
            r == self.spec_is_asleep(),
    {
        self.sleep_counter > 0
    }

    pub fn name(&self) -> (r: String)
        ensures
            r@ == self.name@,
    {
        self.name.clone()
    }
}

/// Handles are nonzero and strictly increasing.
pub open spec fn pool_wf(data: Seq<ThreadContextData>) -> bool {
    &&& forall|i: int| 0 <= i < data.len() ==> (#[trigger] data[i]).handle.0 != 0
    &&& forall|i: int, j: int|
        0 <= i < j < data.len() ==> (#[trigger] data[i]).handle.0 < (#[trigger] data[j]).handle.0
}

/// Some record has the given handle.
pub open spec fn pool_contains(data: Seq<ThreadContextData>, key: ThreadHandle) -> bool {
    exists|i: int| 0 <= i < data.len() && (#[trigger] data[i]).handle == key
}

/// Position of the record with the given handle.
pub open spec fn pool_index(data: Seq<ThreadContextData>, key: ThreadHandle) -> int {
    choose|i: int| 0 <= i < data.len() && (#[trigger] data[i]).handle == key
}

/// The record with the given handle.
pub open spec fn pool_record(data: Seq<ThreadContextData>, key: ThreadHandle) -> ThreadContextData {
    data[pool_index(data, key)]
}

/// In a well-formed registry a handle names one position.
pub proof fn lemma_index_unique(data: Seq<ThreadContextData>, key: ThreadHandle, i: int)
    requires
        pool_wf(data),
        0 <= i < data.len(),
        data[i].handle == key,
    ensures
        pool_contains(data, key),
        pool_index(data, key) == i,
        pool_record(data, key) == data[i],
{
    let j = pool_index(data, key);
    if j < i {
        assert(data[j].handle.0 < data[i].handle.0);
    } else if i < j {
        assert(data[i].handle.0 < data[j].handle.0);
    }
}

/// Replacing a record by one with the same handle leaves every handle where
/// it was.
pub proof fn lemma_update_same_handle(
    pre: Seq<ThreadContextData>,
    post: Seq<ThreadContextData>,
    k: int,
)
    requires
        pool_wf(pre),
        0 <= k < pre.len(),
        post.len() == pre.len(),
        post[k].handle == pre[k].handle,
        forall|i: int| 0 <= i < pre.len() && i != k ==> post[i] == pre[i],
    ensures
        pool_wf(post),
        forall|h: ThreadHandle| #[trigger] pool_contains(post, h) == pool_contains(pre, h),
        forall|h: ThreadHandle|
            pool_contains(pre, h) ==> #[trigger] pool_index(post, h) == pool_index(pre, h),
        forall|h: ThreadHandle|
            pool_contains(pre, h) && h != pre[k].handle ==> #[trigger] pool_record(post, h)
                == pool_record(pre, h),
        pool_record(post, pre[k].handle) == post[k],
        pool_record(pre, pre[k].handle) == pre[k],
        pool_index(pre, pre[k].handle) == k,
        pool_contains(pre, pre[k].handle),
{
    assert forall|i: int| 0 <= i < post.len() implies (#[trigger] post[i]).handle
        == pre[i].handle by {}
    assert(pool_wf(post)) by {
        assert forall|i: int, j: int| 0 <= i < j < post.len() implies (#[trigger] post[i]).handle.0
            < (#[trigger] post[j]).handle.0 by {
            assert(pre[i].handle.0 < pre[j].handle.0);
        }
        assert forall|i: int| 0 <= i < post.len() implies (#[trigger] post[i]).handle.0 != 0 by {
            assert(pre[i].handle.0 != 0);
        }
    }
    assert forall|h: ThreadHandle| #[trigger] pool_contains(post, h) == pool_contains(pre, h) by {
        if pool_contains(pre, h) {
            let i = pool_index(pre, h);
            assert(post[i].handle == h);
        }
        if pool_contains(post, h) {
            let i = pool_index(post, h);
            assert(pre[i].handle == h);
        }
    }
    assert forall|h: ThreadHandle| pool_contains(pre, h) implies #[trigger] pool_index(post, h)
        == pool_index(pre, h) by {
        let i = pool_index(pre, h);
        assert(post[i].handle == h);
        lemma_index_unique(post, h, i);
    }
    lemma_index_unique(pre, pre[k].handle, k);
    lemma_index_unique(post, pre[k].handle, k);
    assert forall|h: ThreadHandle|
        pool_contains(pre, h) && h != pre[k].handle implies #[trigger] pool_record(post, h)
        == pool_record(pre, h) by {
        assert(pool_index(post, h) == pool_index(pre, h));
    }
}

/// The thread registry: the records in increasing order of their handles.
pub struct ThreadPool {
    pub data: Vec<ThreadContextData>,
}

impl View for ThreadPool {
    type V = Seq<ThreadContextData>;

    open spec fn view(&self) -> Seq<ThreadContextData> {
        self.data@
    }
}

impl ThreadPool {
    pub open spec fn wf(&self) -> bool {
        pool_wf(self@)
    }

    pub open spec fn contains(&self, key: ThreadHandle) -> bool {
        pool_contains(self@, key)
    }

    pub open spec fn index_of(&self, key: ThreadHandle) -> int {
        pool_index(self@, key)
    }

    pub open spec fn record(&self, key: ThreadHandle) -> ThreadContextData {
        pool_record(self@, key)
    }

    pub fn new() -> (r: Self)
        ensures
            r.data@.len() == 0,
            r.wf(),
    {
        ThreadPool { data: Vec::new() }
    }

    /// Position of the record with the given handle, if it is registered.
    pub fn find(&self, key: ThreadHandle) -> (r: Option<usize>)
        requires
            self.wf(),
        ensures
            r.is_some() == self.contains(key),
            r.is_some() ==> r.unwrap() as int == self.index_of(key) && r.unwrap() < self.data@.len()
                && self.data@[r.unwrap() as int].handle == key,
    {
        let mut i: usize = 0;
        while i < self.data.len()
            invariant
                self.wf(),
                i <= self.data@.len(),
                forall|j: int| 0 <= j < i ==> (#[trigger] self.data@[j]).handle != key,
            decreases self.data@.len() - i,
        {
            if self.data[i].handle.0 == key.0 {
                proof {
                    lemma_index_unique(self@, key, i as int);
                }
                return Some(i);
            }
            i = i + 1;
        }
        None
    }

    /// The record with the given handle, if it is registered.
    pub fn get(&self, key: ThreadHandle) -> (r: Option<&ThreadContextData>)
        requires
            self.wf(),
        ensures
            r.is_some() == self.contains(key),
            r.is_some() ==> *r.unwrap() == self.record(key),
    {
        match self.find(key) {
            Some(i) => Some(&self.data[i]),
            None => None,
        }
    }

    /// Registers a record whose handle is larger than every registered one.
    pub fn add(&mut self, thread: ThreadContextData)
        requires
            old(self).wf(),
            thread.handle.0 != 0,
            forall|i: int|
                0 <= i < old(self).data@.len() ==> (#[trigger] old(self).data@[i]).handle.0
                    < thread.handle.0,
        ensures
            final(self).wf(),
            final(self).data@ == old(self).data@.push(thread),
    {
        self.data.push(thread);
    }

    /// Drops the record with the given handle; does nothing if there is none.
    pub fn remove(&mut self, handle: ThreadHandle)
        requires
            old(self).wf(),
        ensures
            final(self).wf(),
            !old(self).contains(handle) ==> final(self).data@ == old(self).data@,
            old(self).contains(handle) ==> final(self).data@ == old(self).data@.remove(
                old(self).index_of(handle),
            ),
            !final(self).contains(handle),
    {
        match self.find(handle) {
            Some(i) => {
                let _ = self.data.remove(i);
                assert forall|k: int| 0 <= k < self.data@.len() implies (
                #[trigger] self.data@[k]).handle != handle by {
                    if k < i {
                        assert(old(self).data@[k].handle.0 < old(self).data@[i as int].handle.0);
                    } else {
                        assert(old(self).data@[i as int].handle.0 < old(self).data@[k + 1].handle.0);
                    }
                }
            },
            None => {},
        }
    }
}

} // verus!
