//! The timer facility of the scheduler: registering timer events, sorting
//! them by deadline and firing those whose deadline has passed.

use vstd::prelude::*;
use crate::task::irql::{ContextSwitch, ProcessorIndex};
use crate::task::model::SchedulerView;
use crate::task::priority::SchedulerState;
use crate::task::scheduler::Scheduler;
use crate::task::thread::ThreadHandle;
use crate::task::timer::{AsyncSemaphore, TimeSpec, Timer, TimerEvent, TimerType};

verus! {

/// The events are in order of their deadlines.
pub open spec fn sorted_by_deadline(events: Seq<TimerEvent>) -> bool {
    forall|i: int, j: int|
        0 <= i < j < events.len() ==> (#[trigger] events[i]).timer.deadline.0 <= (
        #[trigger] events[j]).timer.deadline.0
}

/// Where a new event goes into a list of events: behind the leading events
/// whose deadline is not later than its own. In a sorted list that is behind
/// every event that is due no later, so events that are due together fire in
/// the order in which they were registered.
pub open spec fn insert_position(events: Seq<TimerEvent>, e: TimerEvent) -> int
    decreases events.len(),
{
    if events.len() == 0 || events[0].timer.deadline.0 > e.timer.deadline.0 {
        0
    } else {
        1 + insert_position(events.drop_first(), e)
    }
}

/// The list with the new event sorted in.
pub open spec fn insert_sorted(events: Seq<TimerEvent>, e: TimerEvent) -> Seq<TimerEvent> {
    events.insert(insert_position(events, e), e)
}

/// The list with the pending events sorted in, oldest first.
pub open spec fn merge_pending(events: Seq<TimerEvent>, pending: Seq<TimerEvent>) -> Seq<
    TimerEvent,
>
    decreases pending.len(),
{
    if pending.len() == 0 {
        events
    } else {
        merge_pending(insert_sorted(events, pending[0]), pending.drop_first())
    }
}

/// The number of leading events that have expired at `now`.
pub open spec fn expired_prefix(events: Seq<TimerEvent>, now: TimeSpec) -> int
    decreases events.len(),
{
    if events.len() == 0 || events[0].alive_at(now) {
        0
    } else {
        1 + expired_prefix(events.drop_first(), now)
    }
}

/// The insert position lies within the list, behind events that are due no
/// later and, in a sorted list, before events that are due later.
pub proof fn lemma_insert_position(events: Seq<TimerEvent>, e: TimerEvent)
    ensures
        0 <= insert_position(events, e) <= events.len(),
        forall|i: int|
            0 <= i < insert_position(events, e) ==> (#[trigger] events[i]).timer.deadline.0
                <= e.timer.deadline.0,
        insert_position(events, e) < events.len() ==> events[insert_position(
            events,
            e,
        )].timer.deadline.0 > e.timer.deadline.0,
    decreases events.len(),
{
    if events.len() == 0 || events[0].timer.deadline.0 > e.timer.deadline.0 {
    } else {
        let rest = events.drop_first();
        lemma_insert_position(rest, e);
        assert forall|i: int| 0 <= i < insert_position(events, e) implies (
        #[trigger] events[i]).timer.deadline.0 <= e.timer.deadline.0 by {
            if i > 0 {
                assert(events[i] == rest[i - 1]);
            }
        }
        if insert_position(events, e) < events.len() {
            assert(events[insert_position(events, e)] == rest[insert_position(rest, e)]);
        }
    }
}

/// Sorting an event into a sorted list gives a sorted list.
pub proof fn lemma_insert_sorted(events: Seq<TimerEvent>, e: TimerEvent)
    requires
        sorted_by_deadline(events),
    ensures
        sorted_by_deadline(insert_sorted(events, e)),
        insert_sorted(events, e).len() == events.len() + 1,
{
    lemma_insert_position(events, e);
    let p = insert_position(events, e);
    let out = insert_sorted(events, e);
    assert forall|i: int, j: int| 0 <= i < j < out.len() implies (
    #[trigger] out[i]).timer.deadline.0 <= (#[trigger] out[j]).timer.deadline.0 by {
        if i < p && j < p {
            assert(out[i] == events[i] && out[j] == events[j]);
        } else if i < p && j == p {
            assert(out[i] == events[i]);
        } else if i < p && j > p {
            assert(out[i] == events[i] && out[j] == events[j - 1]);
            if i != j - 1 {
                assert(events[i].timer.deadline.0 <= events[j - 1].timer.deadline.0);
            }
        } else if i == p {
            assert(out[j] == events[j - 1]);
            if p != j - 1 {
                assert(events[p].timer.deadline.0 <= events[j - 1].timer.deadline.0);
            }
        } else {
            assert(out[i] == events[i - 1] && out[j] == events[j - 1]);
            assert(events[i - 1].timer.deadline.0 <= events[j - 1].timer.deadline.0);
        }
    }
}

/// Sorting pending events into a sorted list gives a sorted list that holds
/// them all.
pub proof fn lemma_merge_pending(events: Seq<TimerEvent>, pending: Seq<TimerEvent>)
    requires
        sorted_by_deadline(events),
    ensures
        sorted_by_deadline(merge_pending(events, pending)),
        merge_pending(events, pending).len() == events.len() + pending.len(),
    decreases pending.len(),
{
    if pending.len() > 0 {
        lemma_insert_sorted(events, pending[0]);
        lemma_merge_pending(insert_sorted(events, pending[0]), pending.drop_first());
    }
}

/// The expired prefix lies within the list; every event in it has expired,
/// and the event behind it is alive.
pub proof fn lemma_expired_prefix(events: Seq<TimerEvent>, now: TimeSpec)
    ensures
        0 <= expired_prefix(events, now) <= events.len(),
        forall|i: int| 0 <= i < expired_prefix(events, now) ==> !(#[trigger] events[i]).alive_at(now),
        expired_prefix(events, now) < events.len() ==> events[expired_prefix(events, now)].alive_at(
            now,
        ),
    decreases events.len(),
{
    if events.len() == 0 || events[0].alive_at(now) {
    } else {
        let rest = events.drop_first();
        lemma_expired_prefix(rest, now);
        assert forall|i: int| 0 <= i < expired_prefix(events, now) implies !(
        #[trigger] events[i]).alive_at(now) by {
            if i > 0 {
                assert(events[i] == rest[i - 1]);
            }
        }
        if expired_prefix(events, now) < events.len() {
            assert(events[expired_prefix(events, now)] == rest[expired_prefix(rest, now)]);
        }
    }
}

/// Timer events fire in the order of their deadlines: of the events of a
/// sorted list that fire in one pass, an earlier one is due no later than a
/// later one, and none is due later than an event that stays behind. Every
/// event that fires has expired, and the first that stays behind is alive.
pub proof fn lemma_fire_order(events: Seq<TimerEvent>, now: TimeSpec)
    requires
        sorted_by_deadline(events),
    ensures
        ({
            let k = expired_prefix(events, now);
            let due = events.take(k);
            let rest = events.skip(k);
            &&& sorted_by_deadline(due)
            &&& sorted_by_deadline(rest)
            &&& due + rest == events
            &&& forall|i: int| 0 <= i < due.len() ==> !(#[trigger] due[i]).alive_at(now)
            &&& forall|i: int, j: int|
                0 <= i < due.len() && 0 <= j < rest.len() ==> (#[trigger] due[i]).timer.deadline.0
                    <= (#[trigger] rest[j]).timer.deadline.0
            &&& rest.len() > 0 ==> rest[0].alive_at(now)
        }),
{
    lemma_expired_prefix(events, now);
    let k = expired_prefix(events, now);
    let due = events.take(k);
    let rest = events.skip(k);
    assert(due + rest =~= events);
    assert forall|i: int, j: int| 0 <= i < j < due.len() implies (
    #[trigger] due[i]).timer.deadline.0 <= (#[trigger] due[j]).timer.deadline.0 by {
        assert(events[i].timer.deadline.0 <= events[j].timer.deadline.0);
    }
    assert forall|i: int, j: int| 0 <= i < j < rest.len() implies (
    #[trigger] rest[i]).timer.deadline.0 <= (#[trigger] rest[j]).timer.deadline.0 by {
        assert(events[i + k].timer.deadline.0 <= events[j + k].timer.deadline.0);
    }
    assert forall|i: int, j: int| 0 <= i < due.len() && 0 <= j < rest.len() implies (
    #[trigger] due[i]).timer.deadline.0 <= (#[trigger] rest[j]).timer.deadline.0 by {
        assert(events[i].timer.deadline.0 <= events[j + k].timer.deadline.0);
    }
}

impl SchedulerView {
    /// The events that fire in a pass of the timer thread fire in the order
    /// of their deadlines, whatever the order in which they were
    /// registered.
    pub proof fn lemma_due_events_in_order(self, now: TimeSpec)
        requires
            self.wf(),
        ensures
            sorted_by_deadline(self.due_events(now)),
            forall|i: int|
                0 <= i < self.due_events(now).len() ==> !(#[trigger] self.due_events(now)[i]).alive_at(
                    now,
                ),
    {
        lemma_merge_pending(self.events, self.timer_queue);
        lemma_fire_order(self.merged_events(), now);
    }

    /// The state after a timer event was offered: it waits to be sorted in
    /// and the timer thread is signalled, unless no room is left for it.
    pub open spec fn schedule_timer(self, event: TimerEvent) -> SchedulerView {
        if self.timer_queue.len() >= self.cap_timer {
            self
        } else {
            SchedulerView {
                timer_queue: self.timer_queue.push(event),
                sem_timer: self.sem_timer.signaled(),
                ..self
            }
        }
    }

    /// The state after a timer event fired: a one-shot event wakes its
    /// thread; the other kinds change nothing here and are delivered by the
    /// caller.
    pub open spec fn fire(self, event: TimerEvent) -> SchedulerView {
        match event.timer_type {
            TimerType::OneShot(thread) => self.wake(thread),
            _ => self,
        }
    }

    /// The state after the given events fired, first to last.
    pub open spec fn fire_all(self, fired: Seq<TimerEvent>) -> SchedulerView
        decreases fired.len(),
    {
        if fired.len() == 0 {
            self
        } else {
            self.fire_all(fired.drop_last()).fire(fired.last())
        }
    }

    /// The sorted list of timer events once the pending events are sorted
    /// in.
    pub open spec fn merged_events(self) -> Seq<TimerEvent> {
        merge_pending(self.events, self.timer_queue)
    }

    /// The events that fire in a pass of the timer thread at `now`: the
    /// leading events of the sorted list that have expired, in the order of
    /// the list.
    pub open spec fn due_events(self, now: TimeSpec) -> Seq<TimerEvent> {
        self.merged_events().take(expired_prefix(self.merged_events(), now))
    }

    /// The deadline published after a pass of the timer thread at `now`:
    /// that of the earliest event left, or what it was if none is left.
    pub open spec fn published_deadline(self, now: TimeSpec) -> isize {
        let k = expired_prefix(self.merged_events(), now);
        if k < self.merged_events().len() {
            self.merged_events()[k].timer.deadline.0
        } else {
            self.next_timer
        }
    }

    /// The state after a pass of the timer thread at `now`: the pending
    /// events are sorted in, the events that are due fire and leave the
    /// list, and the deadline of the earliest event left is published.
    pub open spec fn scheduler_thread(self, now: TimeSpec) -> SchedulerView {
        let k = expired_prefix(self.merged_events(), now);
        SchedulerView {
            events: self.merged_events().skip(k),
            timer_queue: Seq::empty(),
            next_timer: self.published_deadline(now),
            ..self.fire_all(self.due_events(now))
        }
    }

    /// The structural invariant asks of the timer events only that the sorted list is
    /// sorted and the pending queue within its capacity.
    pub proof fn lemma_events_changed(pre: SchedulerView, post: SchedulerView)
        requires
            pre.wf_core(),
            post == (SchedulerView {
                events: post.events,
                timer_queue: post.timer_queue,
                next_timer: post.next_timer,
                sem_timer: post.sem_timer,
                ..pre
            }),
            sorted_by_deadline(post.events),
            post.timer_queue.len() <= post.cap_timer,
        ensures
            post.wf_core(),
    {
        let mid = SchedulerView { next_timer: post.next_timer, sem_timer: post.sem_timer, ..pre };
        Self::lemma_same_but_flags(pre, mid);
        assert forall|x: ThreadHandle| #[trigger] post.held(x) == mid.held(x) by {
            if mid.held(x) {
                let c = choose|c: int|
                    0 <= c < mid.locals.len() && ((#[trigger] mid.locals[c]).current == x
                        || mid.locals[c].retired == Some(x));
                assert(post.locals[c].current == x || post.locals[c].retired == Some(x));
            }
            if post.held(x) {
                let c = choose|c: int|
                    0 <= c < post.locals.len() && ((#[trigger] post.locals[c]).current == x
                        || post.locals[c].retired == Some(x));
                assert(mid.locals[c].current == x || mid.locals[c].retired == Some(x));
            }
        }
        assert forall|x: ThreadHandle, r: bool| #[trigger]
            post.queue_entry_ok(x, r) == mid.queue_entry_ok(x, r) by {}
        assert(post.band_handles(true) =~= mid.band_handles(true));
        assert(post.band_handles(false) =~= mid.band_handles(false));
        assert(mid.wf_queue(mid.queue_realtime, true));
        assert(mid.wf_queue(mid.queue_normal, false));
        assert(post.wf_locals()) by {
            assert forall|c: int| 0 <= c < post.locals.len() implies #[trigger] post.wf_local(
                c,
            ) by {
                assert(mid.wf_local(c));
            }
        }
    }

    /// Firing an event keeps the structural invariant and does not touch the timer
    /// lists.
    pub proof fn lemma_fire_wf(pre: SchedulerView, event: TimerEvent)
        requires
            pre.wf_core(),
        ensures
            pre.fire(event).wf_core(),
            pre.fire(event).events == pre.events,
            pre.fire(event).timer_queue == pre.timer_queue,
            pre.fire(event).cap_timer == pre.cap_timer,
            pre.fire(event).next_timer == pre.next_timer,
            pre.fire(event).sem_timer == pre.sem_timer,
    {
        match event.timer_type {
            TimerType::OneShot(thread) => {
                Self::lemma_wake_wf(pre, thread);
            },
            _ => {},
        }
    }

    /// Firing events keeps the structural invariant and does not touch the timer lists.
    pub proof fn lemma_fire_all_wf(pre: SchedulerView, fired: Seq<TimerEvent>)
        requires
            pre.wf_core(),
        ensures
            pre.fire_all(fired).wf_core(),
            pre.fire_all(fired).events == pre.events,
            pre.fire_all(fired).timer_queue == pre.timer_queue,
            pre.fire_all(fired).cap_timer == pre.cap_timer,
            pre.fire_all(fired).next_timer == pre.next_timer,
            pre.fire_all(fired).sem_timer == pre.sem_timer,
        decreases fired.len(),
    {
        if fired.len() > 0 {
            Self::lemma_fire_all_wf(pre, fired.drop_last());
            Self::lemma_fire_wf(pre.fire_all(fired.drop_last()), fired.last());
        }
    }

    /// Firing an event does the same to a state whatever its timer lists
    /// hold.
    pub proof fn lemma_fire_frame(
        a: SchedulerView,
        event: TimerEvent,
        events: Seq<TimerEvent>,
        queue: Seq<TimerEvent>,
    )
        ensures
            (SchedulerView { events, timer_queue: queue, ..a }).fire(event) == (SchedulerView {
                events,
                timer_queue: queue,
                ..a.fire(event)
            }),
    {
        let b = SchedulerView { events, timer_queue: queue, ..a };
        match event.timer_type {
            TimerType::OneShot(h) => {
                assert(b.threads == a.threads);
                assert(b.wake(h) =~= (SchedulerView { events, timer_queue: queue, ..a.wake(h) }));
            },
            _ => {},
        }
    }

    /// A pass of the timer thread keeps the structural invariant.
    pub proof fn lemma_scheduler_thread_wf(pre: SchedulerView, now: TimeSpec)
        requires
            pre.wf_core(),
        ensures
            pre.scheduler_thread(now).wf_core(),
    {
        lemma_merge_pending(pre.events, pre.timer_queue);
        let merged = pre.merged_events();
        lemma_expired_prefix(merged, now);
        let k = expired_prefix(merged, now);
        Self::lemma_fire_all_wf(pre, pre.due_events(now));
        let fired = pre.fire_all(pre.due_events(now));
        let post = pre.scheduler_thread(now);
        assert(sorted_by_deadline(post.events)) by {
            assert forall|i: int, j: int| 0 <= i < j < post.events.len() implies (
            #[trigger] post.events[i]).timer.deadline.0 <= (
            #[trigger] post.events[j]).timer.deadline.0 by {
                assert(merged[i + k].timer.deadline.0 <= merged[j + k].timer.deadline.0);
            }
        }
        Self::lemma_events_changed(fired, post);
    }
}

impl Scheduler {
    /// Registers a timer event and signals the timer thread. Hands the event
    /// back when no room is left; the caller tries again later.
    pub fn _schedule_timer(&mut self, event: TimerEvent) -> (r: Result<(), TimerEvent>)
        requires
            old(self).wf(),
        ensures
            final(self).wf(),
            final(self)@ == old(self)@.schedule_timer(event),
            r == if old(self)@.timer_queue.len() >= old(self)@.cap_timer {
                Err::<(), TimerEvent>(event)
            } else {
                Ok::<(), TimerEvent>(())
            },
    {
        match self.timer_queue.enqueue(event) {
            Ok(()) => {
                self.sem_timer.signal();
                proof {
                    assert(self@ =~= old(self)@.schedule_timer(event));
                    SchedulerView::lemma_events_changed(old(self)@, self@);
                }
                Ok(())
            },
            Err(e) => {
                assert(self@ =~= old(self)@);
                Err(e)
            },
        }
    }

    /// Sorts an event into the list of timer events, behind the events that
    /// are due no later.
    fn insert_event(&mut self, event: TimerEvent)
        ensures
            final(self).events@ == insert_sorted(old(self).events@, event),
            final(self)@ == (SchedulerView { events: final(self).events@, ..old(self)@ }),
    {
        let mut i: usize = 0;
        assert(self.events@.skip(0) =~= self.events@);
        while i < self.events.len() && self.events[i].timer.deadline.0 <= event.timer.deadline.0
            invariant
                i <= self.events@.len(),
                self.events@ == old(self).events@,
                *self == *old(self),
                insert_position(self.events@, event) == i + insert_position(
                    self.events@.skip(i as int),
                    event,
                ),
            decreases self.events@.len() - i,
        {
            proof {
                let rest = self.events@.skip(i as int);
                assert(rest[0] == self.events@[i as int]);
                assert(rest.drop_first() =~= self.events@.skip(i + 1));
            }
            i = i + 1;
        }
        proof {
            let rest = self.events@.skip(i as int);
            if i < self.events@.len() {
                assert(rest[0] == self.events@[i as int]);
            }
            assert(insert_position(rest, event) == 0);
        }
        self.events.insert(i, event);
    }

    /// One pass of the timer thread at `now`: sorts the registered events
    /// into the list by deadline, fires the leading events whose deadline
    /// has passed, in the order of the list, and publishes the deadline of
    /// the earliest event left. Returns the events that fired; those that
    /// wake a thread have done so, the others are for the caller to deliver.
    /// Afterwards the caller waits for the timer semaphore.
    pub fn _scheduler_thread(&mut self, now: TimeSpec) -> (fired: Vec<TimerEvent>)
        requires
            old(self).wf(),
        ensures
            final(self).wf(),
            final(self)@ == old(self)@.scheduler_thread(now),
            fired@ == old(self)@.due_events(now),
    {
        proof {
            SchedulerView::lemma_scheduler_thread_consistent(self@, now);
        }
        let ghost merged = self@.merged_events();
        proof {
            lemma_merge_pending(self.events@, self.timer_queue@);
        }
        while self.timer_queue.len() > 0
            invariant
                self.timer_queue.wf(),
                sorted_by_deadline(self.events@),
                merge_pending(self.events@, self.timer_queue@) == merged,
                self@ == (SchedulerView {
                    events: self.events@,
                    timer_queue: self.timer_queue@,
                    ..old(self)@
                }),
            decreases self.timer_queue@.len(),
        {
            let ghost before = self.events@;
            match self.timer_queue.dequeue() {
                Some(event) => {
                    proof {
                        lemma_insert_sorted(before, event);
                    }
                    self.insert_event(event);
                },
                None => {},
            }
        }
        let ghost base = SchedulerView {
            events: merged,
            timer_queue: Seq::empty(),
            ..old(self)@
        };
        assert(self@ =~= base);
        let ghost k = expired_prefix(merged, now);
        proof {
            lemma_expired_prefix(merged, now);
            SchedulerView::lemma_events_changed(old(self)@, base);
        }
        let mut fired: Vec<TimerEvent> = Vec::new();
        while self.events.len() > 0 && !self.events[0].is_alive_at(now)
            invariant
                old(self).wf(),
                self.wf(),
                merged == old(self)@.merged_events(),
                sorted_by_deadline(merged),
                k == expired_prefix(merged, now),
                0 <= k <= merged.len(),
                forall|i: int| 0 <= i < k ==> !(#[trigger] merged[i]).alive_at(now),
                k < merged.len() ==> merged[k].alive_at(now),
                fired@.len() <= k,
                fired@ == merged.take(fired@.len() as int),
                self@ == (SchedulerView {
                    events: merged.skip(fired@.len() as int),
                    timer_queue: Seq::empty(),
                    ..old(self)@.fire_all(fired@)
                }),
            decreases self.events@.len(),
        {
            let ghost j = fired@.len() as int;
            let ghost done = old(self)@.fire_all(fired@);
            assert(self.events@[0] == merged[j]);
            let event = self.events.remove(0);
            let ghost shorter = SchedulerView {
                events: merged.skip(j + 1),
                timer_queue: Seq::empty(),
                ..done
            };
            proof {
                assert(self.events@ =~= merged.skip(j + 1));
                assert(self@ =~= shorter);
                SchedulerView::lemma_fire_all_wf(old(self)@, fired@);
                assert(sorted_by_deadline(merged.skip(j + 1))) by {
                    assert forall|a: int, b: int| 0 <= a < b < merged.skip(j + 1).len() implies (
                    #[trigger] merged.skip(j + 1)[a]).timer.deadline.0 <= (
                    #[trigger] merged.skip(j + 1)[b]).timer.deadline.0 by {
                        assert(merged[a + j + 1].timer.deadline.0 <= merged[b + j + 1].timer.deadline.0);
                    }
                }
                SchedulerView::lemma_events_changed(done, shorter);
                SchedulerView::lemma_fire_frame(done, event, merged.skip(j + 1), Seq::empty());
            }
            event.fire(self);
            fired.push(event);
            proof {
                assert(fired@.drop_last() =~= merged.take(j));
                assert(fired@ =~= merged.take(j + 1));
                assert(old(self)@.fire_all(fired@) == done.fire(event));
            }
        }
        proof {
            assert(fired@.len() == k);
            SchedulerView::lemma_fire_all_wf(old(self)@, fired@);
        }
        if self.events.len() > 0 {
            self.next_timer = self.events[0].timer.into_isize();
        }
        proof {
            assert(self@ =~= old(self)@.scheduler_thread(now));
            SchedulerView::lemma_scheduler_thread_wf(old(self)@, now);
        }
        fired
    }
}

impl TimerEvent {
    /// Registers the event with the scheduler. Hands it back when no room
    /// is left.
    pub fn schedule(self, scheduler: &mut Scheduler) -> (r: Result<(), TimerEvent>)
        requires
            old(scheduler).wf(),
        ensures
            final(scheduler).wf(),
            final(scheduler)@ == old(scheduler)@.schedule_timer(self),
            r == if old(scheduler)@.timer_queue.len() >= old(scheduler)@.cap_timer {
                Err::<(), TimerEvent>(self)
            } else {
                Ok::<(), TimerEvent>(())
            },
    {
        scheduler._schedule_timer(self)
    }

    /// Fires the event: a one-shot event wakes its thread. What the other
    /// kinds ask for, a signal or a window message, is for the caller to
    /// deliver.
    pub fn fire(self, scheduler: &mut Scheduler)
        requires
            old(scheduler).wf(),
        ensures
            final(scheduler).wf(),
            final(scheduler)@ == old(scheduler)@.fire(self),
    {
        match self.timer_type {
            TimerType::OneShot(thread) => thread.wake(scheduler),
            TimerType::Async(_) => {},
            TimerType::Window(_, _) => {},
        }
    }
}

/// How an attempt to sleep until a deadline ended.
#[derive(Debug, Clone, Copy, PartialEq, Eq, Structural)]
pub enum SleepStep {
    /// The deadline had passed already; nothing was done.
    Expired,
    /// The wake-up is registered and the thread sleeps. The sleep is over
    /// when the thread runs again.
    Asleep(Option<ContextSwitch>),
    /// No room was left for the wake-up; the thread gave up the processor
    /// and is to try again when it runs again.
    Retry(Option<ContextSwitch>),
}

impl SchedulerView {
    /// The state after the thread on processor `cpu` tried, at `now`, to
    /// sleep until `timer` expires, and how the attempt ended.
    pub open spec fn timer_sleep(self, cpu: int, timer: Timer, now: TimeSpec) -> (
        SchedulerView,
        SleepStep,
    ) {
        let event = TimerEvent {
            timer,
            timer_type: TimerType::OneShot(self.locals[cpu].current),
        };
        if !timer.alive_at(now) {
            (self, SleepStep::Expired)
        } else if self.timer_queue.len() >= self.cap_timer {
            (self.yield_thread(cpu, now).0, SleepStep::Retry(self.yield_thread(cpu, now).1))
        } else {
            (
                self.schedule_timer(event).sleep(cpu, now).0,
                SleepStep::Asleep(self.schedule_timer(event).sleep(cpu, now).1),
            )
        }
    }
}

impl Timer {
    /// One attempt of the thread on processor `cpu` to sleep until `timer`
    /// expires. If the deadline is still ahead at `now`, a one-shot event
    /// for the thread is registered and the thread goes to sleep; if no room
    /// is left for the event, the thread gives up the processor instead and
    /// tries again when it next runs. The thread never sleeps past a
    /// wake-up that was not registered.
    pub fn sleep(scheduler: &mut Scheduler, cpu: ProcessorIndex, timer: Timer, now: TimeSpec) -> (r:
        SleepStep)
        requires
            old(scheduler).wf(),
            old(scheduler)@.can_switch(cpu.0 as int),
            old(scheduler).state != SchedulerState::Disabled,
        ensures
            final(scheduler).wf(),
            final(scheduler)@ == old(scheduler)@.timer_sleep(cpu.0 as int, timer, now).0,
            r == old(scheduler)@.timer_sleep(cpu.0 as int, timer, now).1,
    {
        proof {
            SchedulerView::lemma_timer_sleep_consistent(scheduler@, cpu.0 as int, timer, now);
        }
        if !timer.is_alive_at(now) {
            return SleepStep::Expired;
        }
        let current = scheduler.locals[cpu.0].current_thread();
        let event = TimerEvent::one_shot(timer, current);
        match event.schedule(scheduler) {
            Ok(()) => SleepStep::Asleep(scheduler.sleep(cpu, now)),
            Err(_) => SleepStep::Retry(scheduler.yield_thread(cpu, now)),
        }
    }

    /// One attempt of a cooperative task to wait until `timer` expires:
    /// registers an event that signals `sem`. Returns `None` if the
    /// deadline had passed at `now`, else whether the event was registered;
    /// if it was not, the task tries again.
    pub fn sleep_async(scheduler: &mut Scheduler, timer: Timer, sem: AsyncSemaphore, now: TimeSpec) -> (r:
        Option<bool>)
        requires
            old(scheduler).wf(),
        ensures
            final(scheduler).wf(),
            !timer.alive_at(now) ==> r.is_none() && final(scheduler)@ == old(scheduler)@,
            timer.alive_at(now) ==> final(scheduler)@ == old(scheduler)@.schedule_timer(
                TimerEvent { timer, timer_type: TimerType::Async(sem) },
            ) && r == Some(old(scheduler)@.timer_queue.len() < old(scheduler)@.cap_timer),
    {
        if !timer.is_alive_at(now) {
            return None;
        }
        let event = TimerEvent::async_timer(timer, sem);
        match event.schedule(scheduler) {
            Ok(()) => Some(true),
            Err(_) => Some(false),
        }
    }
}

} // verus!
