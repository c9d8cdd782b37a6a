//! Interrupt request levels and the per-processor part of the scheduler.

use vstd::prelude::*;
use crate::task::thread::ThreadHandle;

verus! {

/// Interrupt request level, ordered
/// `Passive < Apc < Dispatch < Device < IPI < High`.
#[derive(Debug, Clone, Copy, PartialEq, Eq, Structural, PartialOrd, Ord)]
pub enum Irql {
    Passive,
    Apc,
    Dispatch,
    Device,
    IPI,
    High,
}

impl Irql {
    /// Position of the level in the total order.
    pub open spec fn level(self) -> int {
        match self {
            Irql::Passive => 0,
            Irql::Apc => 1,
            Irql::Dispatch => 2,
            Irql::Device => 3,
            Irql::IPI => 4,
            Irql::High => 5,
        }
    }

    pub fn as_usize(self) -> (r: usize)
        ensures
            r as int == self.level(),
    {
        match self {
            Irql::Passive => 0,
            Irql::Apc => 1,
            Irql::Dispatch => 2,
            Irql::Device => 3,
            Irql::IPI => 4,
            Irql::High => 5,
        }
    }
}

/// A broken rule of the scheduler's protocol. None of them can be recovered
/// from: the operations leave such calls out, and a caller that cannot rule
/// one out asks first and halts.
#[derive(Debug, Clone, Copy, PartialEq, Eq, Structural)]
pub enum Fault {
    /// A level was raised to one below the current level.
    IrqlNotGreaterOrEqual,
    /// A level was lowered to one above the current level.
    IrqlNotLessOrEqual,
    /// A thread was to retire while another retirement was in flight.
    DoubleRetirement,
}

/// Index of a processor.
#[derive(Debug, Clone, Copy, PartialEq, Eq, Structural, PartialOrd, Ord)]
pub struct ProcessorIndex(pub usize);

/// Kind of a processor core.
#[derive(Debug, Clone, Copy, PartialEq, Eq, Structural)]
pub enum ProcessorCoreType {
    /// A performance core.
    Main,
    /// An efficiency core.
    Sub,
}

/// What the caller has to do after the scheduler chose another thread: save
/// the registers of `from`, restore those of `to`, and, once `from` runs
/// again, finish the switch at the level `irql`.
#[derive(Debug, Clone, Copy, PartialEq, Eq, Structural)]
pub struct ContextSwitch {
    pub from: ThreadHandle,
    pub to: ThreadHandle,
    /// The level the processor had when the switch began.
    pub irql: Irql,
}

/// The part of the scheduler that belongs to one processor.
#[derive(Debug, Clone, Copy, PartialEq, Eq, Structural)]
pub struct LocalScheduler {
    pub index: ProcessorIndex,
    pub core_type: ProcessorCoreType,
    /// The thread that runs when nothing else can.
    pub idle: ThreadHandle,
    /// The thread that runs now.
    pub current: ThreadHandle,
    /// The thread that was switched away from and is not yet disposed of.
    pub retired: Option<ThreadHandle>,
    pub irql: Irql,
}

impl LocalScheduler {
    /// The scheduler of a processor that runs its idle thread at the lowest
    /// level.
    pub fn new(index: ProcessorIndex, core_type: ProcessorCoreType, idle: ThreadHandle) -> (r:
        Self)
        ensures
            r == (LocalScheduler {
                index,
                core_type,
                idle,
                current: idle,
                retired: None,
                irql: Irql::Passive,
            }),
    {
        LocalScheduler { index, core_type, idle, current: idle, retired: None, irql: Irql::Passive }
    }

    /// Empties the retirement slot and returns what was in it.
    pub fn take_retired(&mut self) -> (r: Option<ThreadHandle>)
        ensures
            r == old(self).retired,
            *final(self) == (LocalScheduler { retired: None, ..*old(self) }),
    {
        self._swap_retired(None)
    }

    /// The fault that it would be to let a thread retire now, if any: a
    /// second retirement while one is in flight.
    pub fn retire_fault(&self) -> (r: Option<Fault>)
        ensures
            r == if self.retired.is_some() {
                Some(Fault::DoubleRetirement)
            } else {
                None
            },
    {
        if self.retired.is_some() {
            Some(Fault::DoubleRetirement)
        } else {
            None
        }
    }

    /// Records `val` as the retiring thread. The slot must be empty: two
    /// retirements are never in flight on one processor.
    pub fn set_retired(&mut self, val: ThreadHandle)
        requires
            old(self).retired.is_none(),
        ensures
            *final(self) == (LocalScheduler { retired: Some(val), ..*old(self) }),
    {
        let _ = self._swap_retired(Some(val));
    }

    pub fn _swap_retired(&mut self, val: Option<ThreadHandle>) -> (r: Option<ThreadHandle>)
        ensures
            r == old(self).retired,
            *final(self) == (LocalScheduler { retired: val, ..*old(self) }),
    {
        let previous = self.retired;
        self.retired = val;
        previous
    }

    pub fn current_thread(&self) -> (r: ThreadHandle)
        ensures
            r == self.current,
    {
        self.current
    }

    pub fn current_irql(&self) -> (r: Irql)
        ensures
            r == self.irql,
    {
        self.irql
    }

    /// The fault that it would be to raise the level to `new_irql`, if any:
    /// a level is never raised to one below it.
    pub fn raise_fault(&self, new_irql: Irql) -> (r: Option<Fault>)
        ensures
            r == if self.irql.level() > new_irql.level() {
                Some(Fault::IrqlNotGreaterOrEqual)
            } else {
                None
            },
    {
        if self.irql.as_usize() > new_irql.as_usize() {
            Some(Fault::IrqlNotGreaterOrEqual)
        } else {
            None
        }
    }

    /// The fault that it would be to lower the level to `new_irql`, if any:
    /// a level is never lowered to one above it.
    pub fn lower_fault(&self, new_irql: Irql) -> (r: Option<Fault>)
        ensures
            r == if self.irql.level() < new_irql.level() {
                Some(Fault::IrqlNotLessOrEqual)
            } else {
                None
            },
    {
        if self.irql.as_usize() < new_irql.as_usize() {
            Some(Fault::IrqlNotLessOrEqual)
        } else {
            None
        }
    }

    /// Raises the level to `new_irql`, which is not below the level the
    /// processor has, and returns the level it had.
    pub fn raise_irql(&mut self, new_irql: Irql) -> (r: Irql)
        requires
            old(self).irql.level() <= new_irql.level(),
        ensures
            r == old(self).irql,
            *final(self) == (LocalScheduler { irql: new_irql, ..*old(self) }),
    {
        let old_irql = self.irql;
        self.irql = new_irql;
        old_irql
    }

    /// Lowers the level to `new_irql`, which is not above the level the
    /// processor has.
    pub fn lower_irql(&mut self, new_irql: Irql)
        requires
            new_irql.level() <= old(self).irql.level(),
        ensures
            *final(self) == (LocalScheduler { irql: new_irql, ..*old(self) }),
    {
        self.irql = new_irql;
    }
}

} // verus!
