//! Deadlines over a monotonic clock and the events that fire when a deadline
//! has passed.

use vstd::prelude::*;
use vstd::std_specs::ops::AddSpecImpl;
use core::time::Duration;
use crate::task::thread::ThreadHandle;

verus! {

/// A sample of the monotonic clock, or a span between two samples, in clock
/// ticks.
#[derive(Debug, Clone, Copy, Default, PartialEq, Eq, Structural, PartialOrd, Ord)]
pub struct TimeSpec(pub isize);

impl core::ops::Add<TimeSpec> for TimeSpec {
    type Output = TimeSpec;

    fn add(self, rhs: TimeSpec) -> (r: TimeSpec) {
        TimeSpec(self.0 + rhs.0)
    }
}

impl AddSpecImpl<TimeSpec> for TimeSpec {
    open spec fn obeys_add_spec() -> bool {
        true
    }

    open spec fn add_req(self, rhs: TimeSpec) -> bool {
        isize::MIN <= self.0 + rhs.0 <= isize::MAX
    }

    open spec fn add_spec(self, rhs: TimeSpec) -> TimeSpec {
        TimeSpec((self.0 + rhs.0) as isize)
    }
}

/// The clock of the machine. One implementation is installed at boot; the
/// library reads the clock through it and promises nothing about what it
/// answers.
pub trait TimerSource {
    /// Monotonic time in milliseconds.
    fn monotonic(&self) -> u64;

    /// A sample of the clock.
    fn measure(&self) -> TimeSpec;

    /// The span `val` in clock ticks.
    fn from_duration(&self, val: Duration) -> TimeSpec;

    /// The span of `val` clock ticks.
    fn into_duration(&self, val: TimeSpec) -> Duration;
}

impl TimeSpec {
    /// The sample as an unsigned number of ticks, as the accounting of
    /// processor time takes it.
    pub open spec fn spec_ticks(self) -> usize {
        self.0 as usize
    }

    pub fn ticks(self) -> (r: usize)
        ensures
            r == self.spec_ticks(),
    {
        #[verifier::truncate]
        (self.0 as usize)
    }

    /// The shortest span that is not zero.
    pub fn epsilon() -> (r: TimeSpec)
        ensures
            r == TimeSpec(1),
    {
        TimeSpec(1)
    }

    /// The sum of a sample and a span, held at the ends of the clock's range.
    pub open spec fn saturating_sum(self, rhs: TimeSpec) -> TimeSpec {
        if self.0 + rhs.0 > isize::MAX {
            TimeSpec(isize::MAX)
        } else if self.0 + rhs.0 < isize::MIN {
            TimeSpec(isize::MIN)
        } else {
            TimeSpec((self.0 + rhs.0) as isize)
        }
    }

    /// Adds a span to a sample without leaving the clock's range.
    pub fn saturating_add(self, rhs: TimeSpec) -> (r: TimeSpec)
        ensures
            r == self.saturating_sum(rhs),
    {
        match self.0.checked_add(rhs.0) {
            Some(v) => TimeSpec(v),
            None => {
                if rhs.0 > 0 {
                    TimeSpec(isize::MAX)
                } else {
                    TimeSpec(isize::MIN)
                }
            },
        }
    }

    /// The span `self` as the installed clock converts it.
    pub fn into_duration<S: TimerSource>(self, source: &S) -> Duration {
        source.into_duration(self)
    }

    /// The span `val` in ticks of the installed clock.
    pub fn from_duration<S: TimerSource>(source: &S, val: Duration) -> TimeSpec {
        source.from_duration(val)
    }
}

/// Makes a `Duration` of whole milliseconds with `Duration::from_millis`.
/// Nothing is claimed of the result.
#[verifier::external_body]
fn duration_from_millis(ms: u64) -> Duration {
    Duration::from_millis(ms)
}

/// A deadline. The deadline zero is special: it has always passed.
#[derive(Debug, Copy, Clone, Default, PartialEq, Eq, Structural)]
pub struct Timer {
    pub deadline: TimeSpec,
}

impl Timer {
    /// The timer that has always expired.
    pub fn just() -> (r: Self)
        ensures
            r.deadline.0 == 0,
    {
        Timer { deadline: TimeSpec(0) }
    }

    pub fn from_isize(val: isize) -> (r: Self)
        ensures
            r.deadline.0 == val,
    {
        Timer { deadline: TimeSpec(val) }
    }

    pub fn into_isize(self) -> (r: isize)
        ensures
            r == self.deadline.0,
    {
        self.deadline.0
    }

    /// The timer that expires `delta` after `now`.
    pub fn after(now: TimeSpec, delta: TimeSpec) -> (r: Self)
        ensures
            r.deadline == now.saturating_sum(delta),
    {
        Timer { deadline: now.saturating_add(delta) }
    }

    /// The timer that expires `duration` from now, by the given clock: it is
    /// `after` applied to the clock's sample and to the span the clock makes
    /// of `duration`. Both are the clock's to say, and every deadline is the
    /// sum of some sample and some span: `after` says which deadline comes
    /// of which two.
    pub fn new<S: TimerSource>(source: &S, duration: Duration) -> Self {
        let now = source.measure();
        let delta = source.from_duration(duration);
        Timer::after(now, delta)
    }

    /// The timer that expires one tick from now, by the given clock: its
    /// deadline lies one tick after a sample of the clock, and is held at
    /// the end of the clock's range.
    pub fn epsilon<S: TimerSource>(source: &S) -> (r: Self)
        ensures
            exists|now: TimeSpec| r.deadline == #[trigger] now.saturating_sum(TimeSpec(1)),
    {
        let now = source.measure();
        Timer::after(now, TimeSpec::epsilon())
    }

    pub open spec fn spec_is_just(&self) -> bool {
        self.deadline.0 == 0
    }

    pub fn is_just(&self) -> (r: bool)
        ensures
            r == self.spec_is_just(),
    {
        self.deadline.0 == 0
    }

    /// A timer is alive at `now` when its deadline is not zero and lies
    /// after `now`.
    pub open spec fn alive_at(&self, now: TimeSpec) -> bool {
        !self.spec_is_just() && self.deadline.0 > now.0
    }

    pub fn is_alive_at(&self, now: TimeSpec) -> (r: bool)
        ensures
            r == self.alive_at(now),
    {
        if self.is_just() {
            false
        } else {
            self.deadline.0 > now.0
        }
    }

    pub fn is_expired_at(&self, now: TimeSpec) -> (r: bool)
        ensures
            r == !self.alive_at(now),
    {
        !self.is_alive_at(now)
    }

    /// Whether the deadline is still ahead, by the given clock: the answer
    /// of `is_alive_at` for a sample of the clock. The timer that has always
    /// expired never is, whatever the clock says, and the clock is not asked
    /// about it.
    pub fn is_alive<S: TimerSource>(&self, source: &S) -> (r: bool)
        ensures
            self.spec_is_just() ==> !r,
            exists|now: TimeSpec| r == #[trigger] self.alive_at(now),
    {
        if self.is_just() {
            assert(!self.alive_at(TimeSpec(0)));
            false
        } else {
            let now = source.measure();
            self.is_alive_at(now)
        }
    }

    /// Whether the deadline has passed, by the given clock: the answer of
    /// `is_expired_at` for a sample of the clock.
    pub fn is_expired<S: TimerSource>(&self, source: &S) -> (r: bool)
        ensures
            self.spec_is_just() ==> r,
            exists|now: TimeSpec| r == !#[trigger] self.alive_at(now),
    {
        !self.is_alive(source)
    }

    /// A sample of the given clock.
    pub fn measure_deprecated<S: TimerSource>(source: &S) -> TimeSpec {
        source.measure()
    }

    /// The monotonic time of the given clock.
    pub fn monotonic<S: TimerSource>(source: &S) -> Duration {
        duration_from_millis(source.monotonic())
    }
}

/// Names the counting primitive a cooperative task waits on.
#[derive(Debug, Copy, Clone, PartialEq, Eq, Structural)]
pub struct AsyncSemaphore(pub usize);

/// Names a window.
#[derive(Debug, Copy, Clone, PartialEq, Eq, Structural)]
pub struct WindowHandle(pub usize);

/// What a timer event does when it fires.
#[derive(Debug, Copy, Clone, PartialEq, Eq, Structural)]
pub enum TimerType {
    /// Signal the waiter of a cooperative task.
    Async(AsyncSemaphore),
    /// Wake a sleeping thread.
    OneShot(ThreadHandle),
    /// Post a timer message with the given id to a window.
    Window(WindowHandle, usize),
}

/// A deadline with what is to happen when it has passed.
#[derive(Debug, Copy, Clone, PartialEq, Eq, Structural)]
pub struct TimerEvent {
    pub timer: Timer,
    pub timer_type: TimerType,
}

impl TimerEvent {
    /// The event that wakes `thread` when `timer` expires.
    pub fn one_shot(timer: Timer, thread: ThreadHandle) -> (r: Self)
        ensures
            r.timer == timer,
            r.timer_type == TimerType::OneShot(thread),
    {
        TimerEvent { timer, timer_type: TimerType::OneShot(thread) }
    }

    /// The event that signals `sem` when `timer` expires.
    pub fn async_timer(timer: Timer, sem: AsyncSemaphore) -> (r: Self)
        ensures
            r.timer == timer,
            r.timer_type == TimerType::Async(sem),
    {
        TimerEvent { timer, timer_type: TimerType::Async(sem) }
    }

    /// The event that posts timer message `timer_id` to `window` when `timer`
    /// expires.
    pub fn window(window: WindowHandle, timer_id: usize, timer: Timer) -> (r: Self)
        ensures
            r.timer == timer,
            r.timer_type == TimerType::Window(window, timer_id),
    {
        TimerEvent { timer, timer_type: TimerType::Window(window, timer_id) }
    }

    pub open spec fn alive_at(&self, now: TimeSpec) -> bool {
        self.timer.alive_at(now)
    }

    pub fn is_alive_at(&self, now: TimeSpec) -> (r: bool)
        ensures
            r == self.alive_at(now),
    {
        self.timer.is_alive_at(now)
    }

    /// Whether the event's deadline is still ahead, by the given clock: the
    /// answer of `is_alive_at` for a sample of the clock.
    pub fn is_alive<S: TimerSource>(&self, source: &S) -> (r: bool)
        ensures
            self.timer.spec_is_just() ==> !r,
            exists|now: TimeSpec| r == #[trigger] self.alive_at(now),
    {
        let r = self.timer.is_alive(source);
        proof {
            let now = choose|now: TimeSpec| r == #[trigger] self.timer.alive_at(now);
            assert(r == self.alive_at(now));
        }
        r
    }
}

} // verus!
