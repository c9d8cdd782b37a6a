//! Thread priorities, the per-thread round-robin budget and the global
//! scheduler state.

use vstd::prelude::*;
use vstd::std_specs::convert::FromSpecImpl;

verus! {

/// Thread priority, ordered `Idle < Low < Normal < High < Realtime`.
#[derive(Debug, Copy, Clone, PartialEq, Eq, Structural, PartialOrd, Ord)]
pub enum Priority {
    /// Runs only when nothing else can; never placed on a run queue.
    Idle,
    /// Lower than normal priority.
    Low,
    /// Scheduled round-robin; preempted when its quantum is used up.
    Normal,
    /// Higher than normal priority.
    High,
    /// Never preempted by the scheduler.
    Realtime,
}

impl Priority {
    /// Position of the priority in the total order.
    pub open spec fn level(self) -> int {
        match self {
            Priority::Idle => 0,
            Priority::Low => 1,
            Priority::Normal => 2,
            Priority::High => 3,
            Priority::Realtime => 4,
        }
    }

    /// The priority as a small integer, `Idle` being 0.
    pub fn as_usize(self) -> (r: usize)
        ensures
            r as int == self.level(),
    {
        match self {
            Priority::Idle => 0,
            Priority::Low => 1,
            Priority::Normal => 2,
            Priority::High => 3,
            Priority::Realtime => 4,
        }
    }

    /// Whether `self` is strictly below `other`.
    pub fn is_below(self, other: Priority) -> (r: bool)
        ensures
            r == (self.level() < other.level()),
    {
        self.as_usize() < other.as_usize()
    }

    /// Every priority but `Idle` does useful work.
    pub fn is_useful(self) -> (r: bool)
        ensures
            r == (self != Priority::Idle),
    {
        match self {
            Priority::Idle => false,
            _ => true,
        }
    }
}

impl Default for Priority {
    fn default() -> (r: Self)
        ensures
            r == Priority::Normal,
    {
        Priority::Normal
    }
}

/// Round-robin budget of a thread, in scheduler ticks.
#[derive(Debug, Copy, Clone, PartialEq, Eq, Structural)]
pub struct Quantum {
    pub current: u8,
    pub default: u8,
}

impl Quantum {
    /// A full budget of `value` ticks.
    pub fn new(value: u8) -> (r: Self)
        ensures
            r.current == value,
            r.default == value,
    {
        Quantum { current: value, default: value }
    }

    /// The budget a thread of the given priority starts with.
    pub open spec fn default_for(priority: Priority) -> u8 {
        match priority {
            Priority::High => 25,
            Priority::Normal => 10,
            Priority::Low => 5,
            _ => 1,
        }
    }

    /// The quantum granted to a thread of the given priority.
    pub fn from_priority(priority: Priority) -> (r: Self)
        ensures
            r.current == Self::default_for(priority),
            r.default == Self::default_for(priority),
    {
        match priority {
            Priority::High => Quantum::new(25),
            Priority::Normal => Quantum::new(10),
            Priority::Low => Quantum::new(5),
            _ => Quantum::new(1),
        }
    }

    /// Refills the budget.
    pub fn reset(&mut self)
        ensures
            final(self).current == old(self).default,
            final(self).default == old(self).default,
    {
        self.current = self.default;
    }

    /// What `consume` leaves behind.
    pub open spec fn consumed(self) -> Quantum {
        if self.current > 1 {
            Quantum { current: (self.current - 1) as u8, default: self.default }
        } else {
            Quantum { current: self.default, default: self.default }
        }
    }

    /// Whether the next tick uses up the budget.
    pub open spec fn is_last_tick(self) -> bool {
        self.current <= 1
    }

    /// Spends one tick. Returns `true`, and refills the budget, when the
    /// tick spent was the last one.
    pub fn consume(&mut self) -> (exhausted: bool)
        ensures
            exhausted == old(self).is_last_tick(),
            *final(self) == old(self).consumed(),
    {
        if self.current > 1 {
            self.current = self.current - 1;
            false
        } else {
            self.current = self.default;
            true
        }
    }
}

impl From<Priority> for Quantum {
    fn from(priority: Priority) -> (r: Quantum) {
        Quantum::from_priority(priority)
    }
}

impl FromSpecImpl<Priority> for Quantum {
    open spec fn obeys_from_spec() -> bool {
        true
    }

    open spec fn from_spec(priority: Priority) -> Quantum {
        Quantum { current: Quantum::default_for(priority), default: Quantum::default_for(priority) }
    }
}

/// Global state of the scheduler.
#[derive(Debug, Copy, Clone, PartialEq, Eq, Structural, PartialOrd, Ord)]
pub enum SchedulerState {
    /// The scheduler has not started yet.
    Disabled,
    /// The scheduler is running.
    Normal,
    /// The scheduler is running at full throttle: efficiency cores may run
    /// anything.
    FullThrottle,
}

impl SchedulerState {
    pub open spec fn raw(self) -> int {
        match self {
            SchedulerState::Disabled => 0,
            SchedulerState::Normal => 1,
            SchedulerState::FullThrottle => 2,
        }
    }

    pub fn as_raw(self) -> (r: usize)
        ensures
            r as int == self.raw(),
    {
        match self {
            SchedulerState::Disabled => 0,
            SchedulerState::Normal => 1,
            SchedulerState::FullThrottle => 2,
        }
    }

    /// The state with the given raw value, which must be the raw value of
    /// a state.
    pub fn from_raw(val: usize) -> (r: Self)
        requires
            val <= 2,
        ensures
            r.raw() == val as int,
    {
        if val == 0 {
            SchedulerState::Disabled
        } else if val == 1 {
            SchedulerState::Normal
        } else {
            SchedulerState::FullThrottle
        }
    }
}

} // verus!
