//! Process identifiers, process records and the registry that owns them.

use vstd::prelude::*;
use crate::sync::Semaphore;
use crate::task::priority::Priority;
use crate::task::timer::TimeSpec;

verus! {

/// Key of a process record in the registry. Process 0 is the idle process.
#[derive(Debug, Default, Copy, Clone, PartialEq, Eq, Structural, PartialOrd, Ord, Hash)]
pub struct ProcessId(pub usize);

/// A process record.
pub struct ProcessContextData {
    pub name: String,
    pub parent: ProcessId,
    pub pid: ProcessId,
    /// Number of live threads.
    pub n_threads: usize,
    /// Priority its threads get unless they ask for another.
    pub priority: Priority,
    /// Signalled once when the last thread exits.
    pub sem: Semaphore,
    pub start_time: TimeSpec,
    pub cpu_time: usize,
    /// Load gathered during the statistics pass under way.
    pub load0: u32,
    /// Load in per mille, as of the last statistics pass.
    pub load: u32,
    /// Current working directory.
    pub cwd: String,
}

impl ProcessContextData {
    /// What a fresh record holds: no threads, nothing accounted.
    pub open spec fn is_fresh(
        self,
        pid: ProcessId,
        parent: ProcessId,
        priority: Priority,
        name: Seq<char>,
        cwd: Seq<char>,
        start_time: TimeSpec,
    ) -> bool {
        &&& self.pid == pid
        &&& self.parent == parent
        &&& self.priority == priority
        &&& self.name@ == name
        &&& self.cwd@ == cwd
        &&& self.start_time == start_time
        &&& self.n_threads == 0
        &&& self.sem.value == 0
        &&& self.cpu_time == 0
        &&& self.load0 == 0
        &&& self.load == 0
    }

    /// A fresh record.
    pub fn new(
        pid: ProcessId,
        parent: ProcessId,
        priority: Priority,
        name: &str,
        cwd: &str,
        start_time: TimeSpec,
    ) -> (r: Self)
        ensures
            r.is_fresh(pid, parent, priority, name@, cwd@, start_time),
    {
        ProcessContextData {
            name: name.to_owned(),
            parent,
            pid,
            n_threads: 0,
            priority,
            sem: Semaphore::new(0),
            start_time,
            cpu_time: 0,
            load0: 0,
            load: 0,
            cwd: cwd.to_owned(),
        }
    }

    pub fn name(&self) -> (r: &str)
        ensures
            r@ == self.name@,
    {
        self.name.as_str()
    }
}

/// Identifiers are strictly increasing.
pub open spec fn process_pool_wf(data: Seq<ProcessContextData>) -> bool {
    forall|i: int, j: int|
        0 <= i < j < data.len() ==> (#[trigger] data[i]).pid.0 < (#[trigger] data[j]).pid.0
}

/// Some record has the given identifier.
pub open spec fn process_pool_contains(data: Seq<ProcessContextData>, key: ProcessId) -> bool {
    exists|i: int| 0 <= i < data.len() && (#[trigger] data[i]).pid == key
}

/// Position of the record with the given identifier.
pub open spec fn process_pool_index(data: Seq<ProcessContextData>, key: ProcessId) -> int {
    choose|i: int| 0 <= i < data.len() && (#[trigger] data[i]).pid == key
}

/// The record with the given identifier.
pub open spec fn process_pool_record(
    data: Seq<ProcessContextData>,
    key: ProcessId,
) -> ProcessContextData {
    data[process_pool_index(data, key)]
}

/// In a well-formed registry an identifier names one position.
pub proof fn lemma_process_index_unique(data: Seq<ProcessContextData>, key: ProcessId, i: int)
    requires
        process_pool_wf(data),
        0 <= i < data.len(),
        data[i].pid == key,
    ensures
        process_pool_contains(data, key),
        process_pool_index(data, key) == i,
        process_pool_record(data, key) == data[i],
{
    let j = process_pool_index(data, key);
    if j < i {
        assert(data[j].pid.0 < data[i].pid.0);
    } else if i < j {
        assert(data[i].pid.0 < data[j].pid.0);
    }
}

/// The process registry: the records in increasing order of their
/// identifiers.
pub struct ProcessPool {
    pub data: Vec<ProcessContextData>,
}

impl View for ProcessPool {
    type V = Seq<ProcessContextData>;

    open spec fn view(&self) -> Seq<ProcessContextData> {
        self.data@
    }
}

impl ProcessPool {
    pub open spec fn wf(&self) -> bool {
        process_pool_wf(self@)
    }

    pub open spec fn contains(&self, key: ProcessId) -> bool {
        process_pool_contains(self@, key)
    }

    pub open spec fn index_of(&self, key: ProcessId) -> int {
        process_pool_index(self@, key)
    }

    pub open spec fn record(&self, key: ProcessId) -> ProcessContextData {
        process_pool_record(self@, key)
    }

    pub fn new() -> (r: Self)
        ensures
            r.data@.len() == 0,
            r.wf(),
    {
        ProcessPool { data: Vec::new() }
    }

    /// Position of the record with the given identifier, if it is registered.
    pub fn find(&self, key: ProcessId) -> (r: Option<usize>)
        requires
            self.wf(),
        ensures
            r.is_some() == self.contains(key),
            r.is_some() ==> r.unwrap() as int == self.index_of(key) && r.unwrap() < self.data@.len()
                && self.data@[r.unwrap() as int].pid == key,
    {
        let mut i: usize = 0;
        while i < self.data.len()
            invariant
                self.wf(),
                i <= self.data@.len(),
                forall|j: int| 0 <= j < i ==> (#[trigger] self.data@[j]).pid != key,
            decreases self.data@.len() - i,
        {
            if self.data[i].pid.0 == key.0 {
                proof {
                    lemma_process_index_unique(self@, key, i as int);
                }
                return Some(i);
            }
            i = i + 1;
        }
        None
    }

    /// The record with the given identifier, if it is registered.
    pub fn get(&self, key: ProcessId) -> (r: Option<&ProcessContextData>)
        requires
            self.wf(),
        ensures
            r.is_some() == self.contains(key),
            r.is_some() ==> *r.unwrap() == self.record(key),
    {
        match self.find(key) {
            Some(i) => Some(&self.data[i]),
            None => None,
        }
    }

    /// All registered records, in increasing order of their identifiers.
    pub fn read(&self) -> (r: &Vec<ProcessContextData>)
        ensures
            r@ == self.data@,
    {
        &self.data
    }

    /// Registers a record whose identifier is larger than every registered
    /// one.
    pub fn add(&mut self, process: ProcessContextData)
        requires
            old(self).wf(),
            forall|i: int|
                0 <= i < old(self).data@.len() ==> (#[trigger] old(self).data@[i]).pid.0
                    < process.pid.0,
        ensures
            final(self).wf(),
            final(self).data@ == old(self).data@.push(process),
    {
        self.data.push(process);
    }

    /// Drops the record with the given identifier and hands it back; does
    /// nothing if there is none.
    pub fn remove(&mut self, handle: ProcessId) -> (r: Option<ProcessContextData>)
        requires
            old(self).wf(),
        ensures
            final(self).wf(),
            r.is_some() == old(self).contains(handle),
            !old(self).contains(handle) ==> final(self).data@ == old(self).data@,
            old(self).contains(handle) ==> r.unwrap() == old(self).record(handle)
                && final(self).data@ == old(self).data@.remove(old(self).index_of(handle)),
            !final(self).contains(handle),
    {
        match self.find(handle) {
            Some(i) => {
                let p = self.data.remove(i);
                assert forall|k: int| 0 <= k < self.data@.len() implies (
                #[trigger] self.data@[k]).pid != handle by {
                    if k < i {
                        assert(old(self).data@[k].pid.0 < old(self).data@[i as int].pid.0);
                    } else {
                        assert(old(self).data@[i as int].pid.0 < old(self).data@[k + 1].pid.0);
                    }
                }
                Some(p)
            },
            None => None,
        }
    }
}

} // verus!
