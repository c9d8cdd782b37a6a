use megos::sync::{ConcurrentFifo, Semaphore};
use megos::task::executor::{PersonalityContext, Task};
use megos::task::irql::{
    ContextSwitch, Fault, Irql, LocalScheduler, ProcessorCoreType, ProcessorIndex,
};
use megos::task::lifecycle::{JoinError, SpawnOption};
use megos::task::priority::{Priority, Quantum, SchedulerState};
use megos::task::process::ProcessId;
use megos::task::scheduler::Scheduler;
use megos::task::thread::{ThreadAttribute, ThreadHandle, ThreadStart};
use megos::task::timer::{
    AsyncSemaphore, TimeSpec, Timer, TimerEvent, TimerType, WindowHandle,
};
use megos::task::timer_thread::SleepStep;

const CPU0: ProcessorIndex = ProcessorIndex(0);
const CPU1: ProcessorIndex = ProcessorIndex(1);
const ENTRY: ThreadStart = ThreadStart { entry: 0x1000, arg: 7 };

fn boot(cores: usize) -> Scheduler {
    let cpus = vec![ProcessorCoreType::Main; cores];
    Scheduler::start(&cpus, cores, ENTRY, TimeSpec(0))
}

fn finish(s: &mut Scheduler, cpu: ProcessorIndex, switch: Option<ContextSwitch>, now: isize) {
    if let Some(sw) = switch {
        s.switch_context_after(cpu, sw.irql, TimeSpec(now));
    }
}

fn handles(s: &Scheduler) -> Vec<usize> {
    s.threads.data.iter().map(|t| t.handle.0).collect()
}

fn thread<'a>(s: &'a Scheduler, h: usize) -> &'a megos::task::thread::ThreadContextData {
    s.threads.get(ThreadHandle(h)).unwrap()
}

#[test]
fn start_sets_up_idle_threads_and_system_process() {
    let s = boot(2);
    assert_eq!(s.current_state(), SchedulerState::Normal);
    assert!(s.is_enabled());
    assert_eq!(s.locals.len(), 2);
    assert_eq!(handles(&s), vec![1, 2, 3]);
    assert_eq!(s.threads.data[0].name, "Idle_#0");
    assert_eq!(s.threads.data[1].name, "Idle_#1");
    assert_eq!(s.threads.data[0].priority, Priority::Idle);
    assert_eq!(s.threads.data[2].name, "System");
    assert_eq!(s.threads.data[2].priority, Priority::High);
    assert_eq!(s.threads.data[2].start, Some(ENTRY));
    assert_eq!(s.threads.data[2].stack_size, 0x10000);
    assert_eq!(s.threads.data[0].stack_size, 0);
    assert!(s.threads.data[2].attribute.queued);
    assert_eq!(s.queue_normal.0.items, vec![ThreadHandle(3)]);
    assert!(s.queue_realtime.0.items.is_empty());
    assert_eq!(s.queue_realtime.0.capacity, 63);
    assert_eq!(s.queue_normal.0.capacity, 255);
    assert_eq!(s.processes.data.len(), 2);
    assert_eq!(s.processes.data[0].name, "idle");
    assert_eq!(s.processes.data[0].cwd, "/");
    assert_eq!(s.processes.data[1].name, "System");
    assert_eq!(s.processes.data[1].cwd, "/");
    assert_eq!(s.processes.data[1].parent, ProcessId(0));
    assert_eq!(s.processes.data[1].n_threads, 1);
    assert_eq!(s.current_thread(CPU0), Some(ThreadHandle(1)));
    assert_eq!(s.current_thread(CPU1), Some(ThreadHandle(2)));
    assert_eq!(s.current_thread(ProcessorIndex(2)), None);
    assert_eq!(s.current_pid(CPU0), ProcessId(0));
}

#[test]
fn irql_nesting() {
    let mut local = LocalScheduler::new(CPU0, ProcessorCoreType::Main, ThreadHandle(1));
    assert_eq!(local.raise_fault(Irql::Dispatch), None);
    assert_eq!(local.raise_irql(Irql::Dispatch), Irql::Passive);
    assert_eq!(local.raise_fault(Irql::Passive), Some(Fault::IrqlNotGreaterOrEqual));
    assert_eq!(local.raise_fault(Irql::Apc), Some(Fault::IrqlNotGreaterOrEqual));
    assert_eq!(local.raise_fault(Irql::Dispatch), None);
    assert_eq!(local.raise_fault(Irql::High), None);
    assert_eq!(local.current_irql(), Irql::Dispatch);
    assert_eq!(local.lower_fault(Irql::Dispatch), None);
    local.lower_irql(Irql::Dispatch);
    assert_eq!(local.current_irql(), Irql::Dispatch);
    assert_eq!(local.lower_fault(Irql::Passive), None);
    local.lower_irql(Irql::Passive);
    assert_eq!(local.current_irql(), Irql::Passive);
    assert_eq!(local.lower_fault(Irql::Apc), Some(Fault::IrqlNotLessOrEqual));
    assert_eq!(local.lower_fault(Irql::Passive), None);
    assert_eq!(local.current_irql(), Irql::Passive);
    assert_eq!(local.raise_irql(Irql::Passive), Irql::Passive);
    assert_eq!(local.raise_irql(Irql::Device), Irql::Passive);
    assert_eq!(local.raise_irql(Irql::High), Irql::Device);
    local.lower_irql(Irql::Apc);
    assert_eq!(local.current_irql(), Irql::Apc);
}

#[test]
fn irql_raise_runs_closure_and_restores_level() {
    let mut s = boot(1);
    let r = Irql::Dispatch.raise(&mut s, CPU0, || 41 + 1);
    assert_eq!(r, 42);
    assert_eq!(Irql::current(&s, CPU0), Irql::Passive);
    s.locals[0].irql = Irql::Apc;
    let r = Irql::Dispatch.raise(&mut s, CPU0, || 1);
    assert_eq!(r, 1);
    assert_eq!(Irql::current(&s, CPU0), Irql::Apc);
    s.locals[0].irql = Irql::High;
    assert_eq!(s.locals[0].raise_fault(Irql::Dispatch), Some(Fault::IrqlNotGreaterOrEqual));
    assert_eq!(Irql::High.raise(&mut s, CPU0, || 7), 7);
    assert_eq!(Irql::current(&s, CPU0), Irql::High);
    assert_eq!(Irql::current(&s, ProcessorIndex(9)), Irql::Passive);
    assert_eq!(Irql::Device.raise(&mut s, ProcessorIndex(9), || 5), 5);
}

#[test]
fn double_retirement_is_a_fault() {
    let mut local = LocalScheduler::new(CPU0, ProcessorCoreType::Main, ThreadHandle(1));
    assert_eq!(local.retire_fault(), None);
    local.set_retired(ThreadHandle(5));
    assert_eq!(local.retire_fault(), Some(Fault::DoubleRetirement));
    assert_eq!(local.take_retired(), Some(ThreadHandle(5)));
    assert_eq!(local.retire_fault(), None);
    assert_eq!(local.take_retired(), None);
}

#[test]
fn quantum_consume_counts_down_and_refills() {
    let mut q = Quantum::new(3);
    assert!(!q.consume());
    assert!(!q.consume());
    assert!(q.consume());
    assert_eq!(q.current, 3);
    let mut one = Quantum::new(1);
    assert!(one.consume());
    let mut zero = Quantum::new(0);
    assert!(zero.consume());
    assert_eq!(Quantum::from_priority(Priority::High), Quantum::new(25));
    assert_eq!(Quantum::from_priority(Priority::Normal), Quantum::new(10));
    assert_eq!(Quantum::from_priority(Priority::Low), Quantum::new(5));
    assert_eq!(Quantum::from_priority(Priority::Realtime), Quantum::new(1));
    assert_eq!(Quantum::from_priority(Priority::Idle), Quantum::new(1));
    q.current = 1;
    q.reset();
    assert_eq!(q.current, 3);
}

#[test]
fn priority_order_and_usefulness() {
    assert!(Priority::Idle.is_below(Priority::Low));
    assert!(Priority::Low.is_below(Priority::Normal));
    assert!(Priority::Normal.is_below(Priority::High));
    assert!(Priority::High.is_below(Priority::Realtime));
    assert!(!Priority::High.is_below(Priority::High));
    assert!(!Priority::Idle.is_useful());
    assert!(Priority::Low.is_useful());
    assert_eq!(Priority::default(), Priority::Normal);
    assert_eq!(SchedulerState::FullThrottle.as_raw(), 2);
    assert_eq!(SchedulerState::from_raw(1), SchedulerState::Normal);
}

#[test]
fn semaphore_and_fifo() {
    let mut sem = Semaphore::new(0);
    assert!(!sem.try_wait());
    sem.signal();
    assert!(sem.try_wait());
    assert!(!sem.try_wait());
    let mut q: ConcurrentFifo<u32> = ConcurrentFifo::with_capacity(2);
    assert_eq!(q.dequeue(), None);
    assert_eq!(q.enqueue(1), Ok(()));
    assert_eq!(q.enqueue(2), Ok(()));
    assert_eq!(q.enqueue(3), Err(3));
    assert_eq!(q.dequeue(), Some(1));
    assert_eq!(q.dequeue(), Some(2));
    assert_eq!(q.dequeue(), None);
}

#[test]
fn thread_handle_zero_is_no_handle() {
    assert_eq!(ThreadHandle::new(0), None);
    assert_eq!(ThreadHandle::new(5).map(|h| h.as_usize()), Some(5));
}

#[test]
fn realtime_thread_is_dispatched_before_others() {
    let mut s = boot(1);
    let normal = SpawnOption::new().start(&mut s, CPU0, ENTRY, "n", TimeSpec(0)).unwrap();
    let rt = SpawnOption::with_priority(Priority::Realtime)
        .start(&mut s, CPU0, ENTRY, "rt", TimeSpec(0))
        .unwrap();
    assert_eq!(thread(&s, normal.0).priority, Priority::Idle);
    assert_eq!(s.queue_realtime.0.items, vec![rt]);
    let sw = s.reschedule(CPU0, TimeSpec(1));
    assert_eq!(sw, Some(ContextSwitch { from: ThreadHandle(1), to: rt, irql: Irql::Passive }));
    assert_eq!(s.current_thread(CPU0), Some(rt));
    assert_eq!(s.locals[0].irql, Irql::Dispatch);
    assert_eq!(s.locals[0].retired, Some(ThreadHandle(1)));
    finish(&mut s, CPU0, sw, 1);
    assert_eq!(s.locals[0].irql, Irql::Passive);
    assert_eq!(s.locals[0].retired, None);
    // A realtime thread is never preempted, not even by another one.
    let rt2 = SpawnOption::with_priority(Priority::Realtime)
        .start(&mut s, CPU0, ENTRY, "rt2", TimeSpec(0))
        .unwrap();
    assert_eq!(s.reschedule(CPU0, TimeSpec(2)), None);
    assert_eq!(s.current_thread(CPU0), Some(rt));
    // When it yields, the next realtime thread goes first.
    let sw = s.yield_thread(CPU0, TimeSpec(3));
    assert_eq!(sw.map(|x| x.to), Some(rt2));
    finish(&mut s, CPU0, sw, 3);
    assert_eq!(s.queue_realtime.0.items, vec![rt]);
}

#[test]
fn idle_priority_is_never_queued() {
    let mut s = boot(1);
    let before = s.queue_normal.0.items.clone();
    let h = SpawnOption::with_priority(Priority::Idle)
        .start(&mut s, CPU0, ENTRY, "lazy", TimeSpec(0))
        .unwrap();
    assert_eq!(thread(&s, h.0).priority, Priority::Idle);
    assert!(!thread(&s, h.0).attribute.queued);
    assert_eq!(s.queue_normal.0.items, before);
    h.wake(&mut s);
    assert_eq!(s.queue_normal.0.items, before);
    // Drain the queues: only threads that are not idle come out, then nothing.
    assert_eq!(s._next_thread(CPU0), Some(ThreadHandle(2)));
    assert_eq!(s._next_thread(CPU0), None);
}

#[test]
fn round_robin_serves_every_normal_thread_within_n_turns() {
    let mut s = boot(1);
    // Threads 3, 4 and 5 at normal priority, spawned by the idle process.
    let opts = SpawnOption::with_priority(Priority::Normal);
    let a = opts.start(&mut s, CPU0, ENTRY, "a", TimeSpec(0)).unwrap();
    let b = opts.start(&mut s, CPU0, ENTRY, "b", TimeSpec(0)).unwrap();
    let c = opts.start(&mut s, CPU0, ENTRY, "c", TimeSpec(0)).unwrap();
    // Get rid of the system thread: run it and let it exit.
    let sw = s.reschedule(CPU0, TimeSpec(0));
    finish(&mut s, CPU0, sw, 0);
    assert_eq!(s.current_thread(CPU0), Some(ThreadHandle(2)));
    let report = s.exit(CPU0, TimeSpec(0));
    finish(&mut s, CPU0, report.switch, 0);
    assert_eq!(s.current_thread(CPU0), Some(a));
    assert_eq!(s.queue_normal.0.items, vec![b, c]);
    let mut order = Vec::new();
    let mut now = 1;
    while order.len() < 6 {
        let sw = s.reschedule(CPU0, TimeSpec(now));
        if let Some(x) = sw {
            order.push(x.to);
        }
        finish(&mut s, CPU0, sw, now);
        now += 1;
    }
    assert_eq!(order, vec![b, c, a, b, c, a]);
    // A normal thread runs for its whole quantum of ten ticks.
    assert_eq!(now, 61);
}

#[test]
fn waking_twice_queues_once() {
    let mut s = boot(1);
    let h = SpawnOption::new().start(&mut s, CPU0, ENTRY, "w", TimeSpec(0)).unwrap();
    let h = {
        // `start` without a priority takes the priority of the idle process.
        assert_eq!(thread(&s, h.0).priority, Priority::Idle);
        SpawnOption::with_priority(Priority::Low).start(&mut s, CPU0, ENTRY, "w", TimeSpec(0)).unwrap()
    };
    assert_eq!(s.queue_normal.0.items, vec![ThreadHandle(2), h]);
    h.wake(&mut s);
    h.wake(&mut s);
    assert_eq!(s.queue_normal.0.items, vec![ThreadHandle(2), h]);
    assert_eq!(thread(&s, h.0).sleep_counter, 0);
    // Waking a thread that does not exist does nothing.
    ThreadHandle(99).wake(&mut s);
    assert_eq!(handles(&s), vec![1, 2, 3, 4]);
}

#[test]
fn sleeping_thread_leaves_the_queues_until_woken() {
    let mut s = boot(1);
    let sw = s.reschedule(CPU0, TimeSpec(0));
    finish(&mut s, CPU0, sw, 0);
    let system = ThreadHandle(2);
    assert_eq!(s.current_thread(CPU0), Some(system));
    let sw = s.sleep(CPU0, TimeSpec(5));
    assert_eq!(sw, Some(ContextSwitch { from: system, to: ThreadHandle(1), irql: Irql::Passive }));
    assert_eq!(thread(&s, 2).sleep_counter, 1);
    assert_eq!(thread(&s, 2).cpu_time, 5);
    finish(&mut s, CPU0, sw, 5);
    assert!(s.queue_normal.0.items.is_empty());
    assert!(!thread(&s, 2).attribute.queued);
    assert_eq!(s.reschedule(CPU0, TimeSpec(6)), None);
    system.wake(&mut s);
    assert_eq!(thread(&s, 2).sleep_counter, 0);
    assert_eq!(s.queue_normal.0.items, vec![system]);
    let sw = s.reschedule(CPU0, TimeSpec(7));
    assert_eq!(sw.map(|x| x.to), Some(system));
}

#[test]
fn process_is_reaped_when_its_last_thread_exits() {
    let mut s = boot(1);
    let pid = SpawnOption::new()
        .start_process(&mut s, CPU0, ENTRY, "child", TimeSpec(3))
        .unwrap();
    assert_eq!(pid, ProcessId(2));
    let child = ThreadHandle(3);
    assert_eq!(thread(&s, 3).pid, pid);
    assert_eq!(thread(&s, 3).priority, Priority::Normal);
    assert_eq!(s.processes.get(pid).unwrap().n_threads, 1);
    assert_eq!(s.processes.get(pid).unwrap().parent, ProcessId(0));
    assert_eq!(s.processes.get(pid).unwrap().cwd, "/");
    assert!(!pid.join(&mut s));
    // Run the system thread, let it yield to the child.
    let sw = s.reschedule(CPU0, TimeSpec(4));
    finish(&mut s, CPU0, sw, 4);
    let sw = s.yield_thread(CPU0, TimeSpec(5));
    assert_eq!(sw.map(|x| x.to), Some(child));
    finish(&mut s, CPU0, sw, 5);
    assert_eq!(s.current_pid(CPU0), pid);
    let report = s.exit(CPU0, TimeSpec(6));
    let gone = report.process.unwrap();
    assert_eq!(gone.pid, pid);
    assert_eq!(gone.sem.value, 1);
    assert_eq!(gone.n_threads, 0);
    assert!(s.processes.get(pid).is_none());
    assert!(pid.join(&mut s));
    // The thread is a zombie until the switch away from it is finished.
    assert!(thread(&s, 3).attribute.zombie);
    assert_eq!(thread(&s, 3).sem.value, 1);
    assert_eq!(report.switch.map(|x| x.to), Some(ThreadHandle(2)));
    finish(&mut s, CPU0, report.switch, 6);
    assert!(s.threads.get(child).is_none());
    assert_eq!(handles(&s), vec![1, 2]);
    assert!(child.join(&mut s));
}

#[test]
fn process_with_two_threads_outlives_the_first_exit() {
    let mut s = boot(1);
    let sw = s.reschedule(CPU0, TimeSpec(0));
    finish(&mut s, CPU0, sw, 0);
    // The system thread starts a second thread in its process.
    let second = SpawnOption::new().start(&mut s, CPU0, ENTRY, "second", TimeSpec(0)).unwrap();
    assert_eq!(thread(&s, second.0).priority, Priority::High);
    assert_eq!(thread(&s, second.0).pid, ProcessId(1));
    assert_eq!(s.processes.get(ProcessId(1)).unwrap().n_threads, 2);
    let report = s.exit(CPU0, TimeSpec(1));
    assert!(report.process.is_none());
    assert_eq!(s.processes.get(ProcessId(1)).unwrap().n_threads, 1);
    assert_eq!(s.processes.get(ProcessId(1)).unwrap().sem.value, 0);
}

#[test]
fn exit_hands_back_the_personality() {
    let mut s = boot(1);
    let h = SpawnOption::with_priority(Priority::Normal)
        .personality(PersonalityContext { id: 77 })
        .start(&mut s, CPU0, ENTRY, "p", TimeSpec(0))
        .unwrap();
    let sw = s.reschedule(CPU0, TimeSpec(0));
    finish(&mut s, CPU0, sw, 0);
    let sw = s.yield_thread(CPU0, TimeSpec(0));
    finish(&mut s, CPU0, sw, 0);
    assert_eq!(s.current_thread(CPU0), Some(h));
    assert_eq!(s.current_personality(CPU0), Some(PersonalityContext { id: 77 }));
    let report = s.exit(CPU0, TimeSpec(0));
    assert_eq!(report.personality, Some(PersonalityContext { id: 77 }));
    assert_eq!(thread(&s, h.0).personality, None);
}

#[test]
fn join_returns_after_the_closure_ran_once() {
    let mut s = boot(1);
    let counter = std::cell::Cell::new(0);
    let (spawner, handle) = SpawnOption::with_priority(Priority::Normal)
        .spawn(
            &mut s,
            CPU0,
            || {
                counter.set(counter.get() + 1);
                counter.get() * 10
            },
            ENTRY,
            "worker",
            TimeSpec(0),
        )
        .unwrap();
    let worker = handle.thread;
    // Not yet run: the join is pending and gives the handle back.
    let mut handle = match handle.join(&mut s) {
        Err(JoinError::Pending(h)) => h,
        _ => panic!("join must wait for the thread"),
    };
    assert_eq!(counter.get(), 0);
    let sw = s.reschedule(CPU0, TimeSpec(1));
    finish(&mut s, CPU0, sw, 1);
    let sw = s.yield_thread(CPU0, TimeSpec(2));
    finish(&mut s, CPU0, sw, 2);
    assert_eq!(s.current_thread(CPU0), Some(worker));
    spawner._start_thread(&mut handle);
    let report = s.exit(CPU0, TimeSpec(3));
    finish(&mut s, CPU0, report.switch, 3);
    match handle.join(&mut s) {
        Ok(v) => assert_eq!(v, 10),
        _ => panic!("join must succeed"),
    }
    assert_eq!(counter.get(), 1);
}

#[test]
fn join_without_result_is_lost() {
    let mut s = boot(1);
    let (_spawner, handle) = SpawnOption::with_priority(Priority::Normal)
        .spawn(&mut s, CPU0, || 5u8, ENTRY, "worker", TimeSpec(0))
        .unwrap();
    let sw = s.reschedule(CPU0, TimeSpec(1));
    finish(&mut s, CPU0, sw, 1);
    let sw = s.yield_thread(CPU0, TimeSpec(2));
    finish(&mut s, CPU0, sw, 2);
    let report = s.exit(CPU0, TimeSpec(3));
    finish(&mut s, CPU0, report.switch, 3);
    assert!(matches!(handle.join(&mut s), Err(JoinError::Lost)));
}

#[test]
fn timer_events_fire_in_order_of_deadline() {
    let mut s = boot(1);
    let t = 1000;
    let e100 = TimerEvent::window(WindowHandle(1), 100, Timer::from_isize(t + 100));
    let e10 = TimerEvent::window(WindowHandle(1), 10, Timer::from_isize(t + 10));
    let e50 = TimerEvent::async_timer(Timer::from_isize(t + 50), AsyncSemaphore(5));
    assert_eq!(e100.schedule(&mut s), Ok(()));
    assert_eq!(e10.schedule(&mut s), Ok(()));
    assert_eq!(e50.schedule(&mut s), Ok(()));
    assert_eq!(s.sem_timer.value, 3);
    // Nothing is due yet: the events are sorted and the earliest is published.
    assert_eq!(s._scheduler_thread(TimeSpec(t)), vec![]);
    assert_eq!(s.events, vec![e10, e50, e100]);
    assert_eq!(s.next_timer, t + 10);
    assert!(s.timer_queue.items.is_empty());
    // Half way: only the first two fire.
    assert_eq!(s._scheduler_thread(TimeSpec(t + 50)), vec![e10, e50]);
    assert_eq!(s.events, vec![e100]);
    assert_eq!(s.next_timer, t + 100);
    assert_eq!(s._scheduler_thread(TimeSpec(t + 101)), vec![e100]);
    assert!(s.events.is_empty());
    assert_eq!(s.next_timer, t + 100);
}

#[test]
fn timer_events_all_fire_in_one_pass_in_order() {
    let mut s = boot(1);
    let t = 1000;
    let e100 = TimerEvent::window(WindowHandle(1), 100, Timer::from_isize(t + 100));
    let e10 = TimerEvent::window(WindowHandle(1), 10, Timer::from_isize(t + 10));
    let e50 = TimerEvent::window(WindowHandle(1), 50, Timer::from_isize(t + 50));
    let e50b = TimerEvent::window(WindowHandle(2), 51, Timer::from_isize(t + 50));
    for e in [e100, e10, e50, e50b] {
        assert_eq!(e.schedule(&mut s), Ok(()));
    }
    assert_eq!(s._scheduler_thread(TimeSpec(t + 101)), vec![e10, e50, e50b, e100]);
}

#[test]
fn timer_queue_hands_back_the_event_when_full() {
    let mut s = boot(1);
    let e = TimerEvent::window(WindowHandle(1), 1, Timer::from_isize(10));
    for _ in 0..100 {
        assert_eq!(e.schedule(&mut s), Ok(()));
    }
    assert_eq!(e.schedule(&mut s), Err(e));
    assert_eq!(s.sem_timer.value, 100);
}

#[test]
fn one_shot_timer_wakes_the_sleeper() {
    let mut s = boot(1);
    let sw = s.reschedule(CPU0, TimeSpec(0));
    finish(&mut s, CPU0, sw, 0);
    let system = ThreadHandle(2);
    // The deadline has passed: nothing happens.
    assert_eq!(Timer::sleep(&mut s, CPU0, Timer::from_isize(5), TimeSpec(5)), SleepStep::Expired);
    assert_eq!(Timer::sleep(&mut s, CPU0, Timer::just(), TimeSpec(-5)), SleepStep::Expired);
    let step = Timer::sleep(&mut s, CPU0, Timer::from_isize(20), TimeSpec(5));
    let sw = match step {
        SleepStep::Asleep(sw) => sw,
        _ => panic!("the thread must sleep"),
    };
    finish(&mut s, CPU0, sw, 5);
    assert_eq!(thread(&s, 2).sleep_counter, 1);
    assert!(s._scheduler_thread(TimeSpec(19)).is_empty());
    assert_eq!(thread(&s, 2).sleep_counter, 1);
    let fired = s._scheduler_thread(TimeSpec(20));
    assert_eq!(fired.len(), 1);
    assert_eq!(fired[0].timer_type, TimerType::OneShot(system));
    assert_eq!(thread(&s, 2).sleep_counter, 0);
    assert_eq!(s.queue_normal.0.items, vec![system]);
}

#[test]
fn sleep_retries_when_the_timer_queue_is_full() {
    let mut s = boot(1);
    let sw = s.reschedule(CPU0, TimeSpec(0));
    finish(&mut s, CPU0, sw, 0);
    let e = TimerEvent::window(WindowHandle(1), 1, Timer::from_isize(10));
    for _ in 0..100 {
        assert_eq!(e.schedule(&mut s), Ok(()));
    }
    let step = Timer::sleep(&mut s, CPU0, Timer::from_isize(20), TimeSpec(5));
    assert!(matches!(step, SleepStep::Retry(_)));
    assert_eq!(thread(&s, 2).sleep_counter, 0);
    assert_eq!(Timer::sleep_async(&mut s, Timer::from_isize(20), AsyncSemaphore(1), TimeSpec(5)), Some(false));
    assert_eq!(Timer::sleep_async(&mut s, Timer::from_isize(20), AsyncSemaphore(1), TimeSpec(20)), None);
}

#[test]
fn reschedule_signals_the_timer_thread_when_a_deadline_passed() {
    let mut s = boot(1);
    s.next_timer = 50;
    let _ = s.reschedule(CPU0, TimeSpec(49));
    assert_eq!(s.sem_timer.value, 0);
    let _ = s.reschedule(CPU0, TimeSpec(50));
    assert_eq!(s.sem_timer.value, 1);
}

#[test]
fn timer_deadlines() {
    assert!(Timer::from_isize(10).is_alive_at(TimeSpec(9)));
    assert!(!Timer::from_isize(10).is_alive_at(TimeSpec(10)));
    assert!(Timer::from_isize(10).is_expired_at(TimeSpec(11)));
    assert!(!Timer::just().is_alive_at(TimeSpec(-1)));
    assert!(Timer::just().is_just());
    assert_eq!(Timer::after(TimeSpec(5), TimeSpec(7)).into_isize(), 12);
    assert_eq!(Timer::after(TimeSpec(isize::MAX), TimeSpec(1)).into_isize(), isize::MAX);
    assert_eq!(Timer::after(TimeSpec(isize::MIN), TimeSpec(-1)).into_isize(), isize::MIN);
    assert_eq!(TimeSpec(3) + TimeSpec(4), TimeSpec(7));
    assert_eq!(TimeSpec::epsilon(), TimeSpec(1));
    assert_eq!(TimeSpec(-1).ticks(), usize::MAX);
}

struct FixedClock {
    now: isize,
}

impl megos::task::timer::TimerSource for FixedClock {
    fn monotonic(&self) -> u64 {
        1234
    }

    fn measure(&self) -> TimeSpec {
        TimeSpec(self.now)
    }

    fn from_duration(&self, val: core::time::Duration) -> TimeSpec {
        TimeSpec(val.as_micros() as isize)
    }

    fn into_duration(&self, val: TimeSpec) -> core::time::Duration {
        core::time::Duration::from_micros(val.0 as u64)
    }
}

#[test]
fn timer_reads_the_installed_clock() {
    let clock = FixedClock { now: 100 };
    let timer = Timer::new(&clock, core::time::Duration::from_micros(50));
    assert_eq!(timer.into_isize(), 150);
    assert_eq!(Timer::epsilon(&clock).into_isize(), 101);
    assert!(timer.is_alive(&clock));
    assert!(!Timer::from_isize(100).is_alive(&clock));
    assert!(Timer::just().is_expired(&clock));
    assert_eq!(Timer::monotonic(&clock), core::time::Duration::from_millis(1234));
    assert_eq!(Timer::measure_deprecated(&clock), TimeSpec(100));
    assert_eq!(TimeSpec::from_duration(&clock, core::time::Duration::from_micros(9)), TimeSpec(9));
    assert_eq!(TimeSpec(9).into_duration(&clock), core::time::Duration::from_micros(9));
    assert!(TimerEvent::one_shot(timer, ThreadHandle(1)).is_alive(&clock));
}

#[test]
fn frozen_system_switches_to_idle() {
    let mut s = boot(1);
    let sw = s.reschedule(CPU0, TimeSpec(0));
    finish(&mut s, CPU0, sw, 0);
    assert_eq!(s.current_thread(CPU0), Some(ThreadHandle(2)));
    assert!(s.freeze(true));
    assert!(s.is_frozen);
    let sw = s.reschedule(CPU0, TimeSpec(1));
    assert_eq!(sw.map(|x| x.to), Some(ThreadHandle(1)));
    finish(&mut s, CPU0, sw, 1);
    // Frozen: the thread that retired waits, nothing is dispatched.
    assert_eq!(s.queue_normal.0.items, vec![ThreadHandle(2)]);
    assert_eq!(s.reschedule(CPU0, TimeSpec(2)), None);
    assert!(!s.freeze(false));
}

#[test]
fn disabled_scheduler_does_nothing() {
    let mut s = boot(1);
    s.set_current_state(SchedulerState::Disabled);
    assert!(!s.is_enabled());
    assert_eq!(s.current_pid(CPU0), ProcessId(0));
    assert_eq!(s.reschedule(CPU0, TimeSpec(1)), None);
    assert_eq!(s.current_thread(CPU0), Some(ThreadHandle(1)));
    assert!(!s.freeze(true));
    assert!(!s.is_frozen);
}

#[test]
fn efficiency_core_runs_only_idle_until_full_throttle() {
    let cpus = vec![ProcessorCoreType::Main, ProcessorCoreType::Sub];
    let mut s = Scheduler::start(&cpus, 1, ENTRY, TimeSpec(0));
    assert!(!s.is_stalled_processor(CPU0));
    assert!(s.is_stalled_processor(CPU1));
    assert_eq!(s.reschedule(CPU1, TimeSpec(1)), None);
    assert_eq!(s._next_thread(CPU1), Some(ThreadHandle(2)));
    assert_eq!(s.queue_normal.0.items, vec![ThreadHandle(3)]);
    s.set_current_state(SchedulerState::FullThrottle);
    assert!(!s.is_stalled_processor(CPU1));
    let sw = s.reschedule(CPU1, TimeSpec(2));
    assert_eq!(sw.map(|x| x.to), Some(ThreadHandle(3)));
}

#[test]
fn hysteresis_between_normal_and_full_throttle() {
    // Two performance cores: enter above 1950, leave below 1332.
    let mut s = boot(2);
    let opts = SpawnOption::with_priority(Priority::Normal);
    let a = opts.start(&mut s, CPU0, ENTRY, "a", TimeSpec(0)).unwrap();
    let b = opts.start(&mut s, CPU0, ENTRY, "b", TimeSpec(0)).unwrap();
    let set = |s: &mut Scheduler, la: u32, lb: u32| {
        let ia = s.threads.find(a).unwrap();
        s.threads.data[ia].load0 = la;
        let ib = s.threads.find(b).unwrap();
        s.threads.data[ib].load0 = lb;
    };
    // Over an interval of 1000 ticks a thread's load is its busy ticks.
    set(&mut s, 1000, 950);
    s._statistics_thread(1000);
    assert_eq!(s.usage_total(), 1950);
    assert_eq!(s.usage_per_cpu(), 975);
    assert_eq!(s.current_state(), SchedulerState::Normal);
    set(&mut s, 1000, 951);
    s._statistics_thread(1000);
    assert_eq!(s.usage_total(), 1951);
    assert_eq!(s.current_state(), SchedulerState::FullThrottle);
    // Between the thresholds nothing changes.
    set(&mut s, 700, 632);
    s._statistics_thread(1000);
    assert_eq!(s.usage_total(), 1332);
    assert_eq!(s.current_state(), SchedulerState::FullThrottle);
    set(&mut s, 700, 631);
    s._statistics_thread(1000);
    assert_eq!(s.usage_total(), 1331);
    assert_eq!(s.current_state(), SchedulerState::Normal);
    set(&mut s, 900, 900);
    s._statistics_thread(1000);
    assert_eq!(s.current_state(), SchedulerState::Normal);
}

#[test]
fn statistics_pass_sets_loads_and_charges_processes() {
    let mut s = boot(1);
    let i = s.threads.find(ThreadHandle(2)).unwrap();
    s.threads.data[i].load0 = 250_000;
    s.threads.data[0].load0 = 3_000_000;
    // One second of a million ticks: 250000 busy ticks are 250 per mille.
    s._statistics_thread(1_000_000);
    assert_eq!(thread(&s, 2).load, 250);
    assert_eq!(thread(&s, 2).load0, 0);
    // The load of a thread is held at 1000; the idle thread does not count.
    assert_eq!(thread(&s, 1).load, 1000);
    assert_eq!(s.usage_total(), 250);
    assert_eq!(s.usage_per_cpu(), 250);
    let system = s.processes.get(ProcessId(1)).unwrap();
    assert_eq!(system.load, 250);
    assert_eq!(system.load0, 0);
    assert_eq!(system.cpu_time, 250_000);
    let idle = s.processes.get(ProcessId(0)).unwrap();
    assert_eq!(idle.load, 1000);
    assert_eq!(idle.cpu_time, 3_000_000);
    // Half the interval doubles the load.
    let i = s.threads.find(ThreadHandle(2)).unwrap();
    s.threads.data[i].load0 = 250_000;
    s._statistics_thread(500_000);
    assert_eq!(thread(&s, 2).load, 500);
    let mut loads = vec![9];
    s.get_idle_statistics(&mut loads);
    assert_eq!(loads, vec![0]);
}

#[test]
fn machine_load_is_held_at_all_processors() {
    let mut s = boot(1);
    let opts = SpawnOption::with_priority(Priority::Normal);
    let a = opts.start(&mut s, CPU0, ENTRY, "a", TimeSpec(0)).unwrap();
    for h in [ThreadHandle(2), a] {
        let i = s.threads.find(h).unwrap();
        s.threads.data[i].load0 = 900;
    }
    s._statistics_thread(1000);
    assert_eq!(s.usage_total(), 1000);
    assert_eq!(s.usage_per_cpu(), 1000);
}

#[test]
fn process_table_text() {
    let mut s = boot(1);
    {
        let p = &mut s.processes.data[1];
        p.load = 123;
        p.cpu_time = 10_000 * (61 * 100 + 5);
    }
    let pid = SpawnOption::with_priority(Priority::Low)
        .start_process(&mut s, CPU0, ENTRY, "busy", TimeSpec(0))
        .unwrap();
    {
        let i = s.processes.find(pid).unwrap();
        let p = &mut s.processes.data[i];
        p.load = 5000;
        p.cpu_time = 10_000 * 100 * (3600 * 2 + 60 * 3 + 4);
    }
    let mut text = String::from(">");
    s.print_statistics(&mut text);
    assert_eq!(
        text,
        ">PID P #TH %CPU TIME     NAME\n  1 3   1 12.3 01:01.05 System\n  2 1   1  100 02:03:04 busy\n"
    );
}

#[test]
fn thread_table_text() {
    let mut s = boot(1);
    let h = SpawnOption::with_priority(Priority::Normal)
        .start_process(&mut s, CPU0, ENTRY, "app", TimeSpec(0))
        .unwrap();
    assert_eq!(h, ProcessId(2));
    {
        let t = &mut s.threads.data[1];
        t.load = 7;
        t.cpu_time = 10_000 * 42;
    }
    {
        let t = &mut s.threads.data[2];
        t.load = 1000;
        t.sleep_counter = 1;
        t.attribute = ThreadAttribute { queued: false, zombie: true };
    }
    let mut text = String::new();
    s.get_thread_statistics(&mut text);
    assert_eq!(
        text,
        " ID PID P ST %CPU TIME     NAME\n  2   1 3 R  0.7 00:00.42 System\n  3   2 2 S  100 00:00.00 app\n"
    );
    assert_eq!(ThreadAttribute { queued: true, zombie: true }.to_char(), 'z');
    assert_eq!(ThreadAttribute { queued: true, zombie: true }.bits(), 9);
    assert_eq!(ThreadAttribute::empty().to_char(), '-');
}

#[test]
fn spawn_fails_when_the_band_is_full_or_the_parent_is_gone() {
    let mut s = boot(1);
    let rt = SpawnOption::with_priority(Priority::Realtime);
    for _ in 0..63 {
        assert!(rt.start(&mut s, CPU0, ENTRY, "rt", TimeSpec(0)).is_some());
    }
    let before = handles(&s);
    assert_eq!(rt.start(&mut s, CPU0, ENTRY, "rt", TimeSpec(0)), None);
    assert_eq!(handles(&s), before);
    assert_eq!(s.queue_realtime.0.items.len(), 63);
    // Run the system thread and remove its process behind its back.
    let mut s = boot(1);
    s.locals[0].core_type = ProcessorCoreType::Main;
    let sw = s.yield_thread(CPU0, TimeSpec(0));
    finish(&mut s, CPU0, sw, 0);
    s.processes.remove(ProcessId(1));
    assert_eq!(SpawnOption::new().start(&mut s, CPU0, ENTRY, "x", TimeSpec(0)), None);
    assert!(SpawnOption::new().start_process(&mut s, CPU0, ENTRY, "x", TimeSpec(0)).is_some());
}

#[test]
fn late_init_starts_the_two_system_threads() {
    let mut s = boot(1);
    let (timer, stats) = s.late_init(
        CPU0,
        ThreadStart { entry: 1, arg: 0 },
        ThreadStart { entry: 2, arg: 0 },
        TimeSpec(0),
    );
    assert_eq!(timer, Some(ThreadHandle(3)));
    assert_eq!(stats, Some(ThreadHandle(4)));
    assert_eq!(thread(&s, 3).name, "scheduler");
    assert_eq!(thread(&s, 4).name, "statistics");
    assert_eq!(thread(&s, 3).priority, Priority::Realtime);
    assert_eq!(s.queue_realtime.0.items, vec![ThreadHandle(3), ThreadHandle(4)]);
}

#[test]
fn tasks_run_in_order_before_the_thread_exits() {
    let mut s = boot(1);
    let sw = s.reschedule(CPU0, TimeSpec(0));
    finish(&mut s, CPU0, sw, 0);
    assert!(thread(&s, 2).executor.is_none());
    s.spawn_task(CPU0, Task::new(1));
    s.spawn_async(CPU0, 2);
    assert_eq!(thread(&s, 2).executor.as_ref().unwrap().tasks, vec![Task::new(1), Task::new(2)]);
    let (done, report) = s.perform_tasks(CPU0, TimeSpec(1));
    assert_eq!(done, vec![Task::new(1), Task::new(2)]);
    assert!(thread(&s, 2).attribute.zombie);
    assert_eq!(report.switch.map(|x| x.to), Some(ThreadHandle(1)));
}

#[test]
fn names_and_working_directories() {
    let mut s = boot(1);
    assert_eq!(ThreadHandle(2).name(&s), Some(String::from("System")));
    assert_eq!(ThreadHandle(9).name(&s), None);
    assert_eq!(ProcessId(1).cwd(&s), "/");
    assert_eq!(ProcessId(9).cwd(&s), "");
    ProcessId(1).set_cwd(&mut s, "/home");
    assert_eq!(ProcessId(1).cwd(&s), "/home");
    ProcessId(9).set_cwd(&mut s, "/nowhere");
    assert_eq!(s.processes.data.len(), 2);
}

fn assert_invariants(s: &Scheduler) {
    let mut queued: Vec<ThreadHandle> = Vec::new();
    for q in [&s.queue_realtime, &s.queue_urgent, &s.queue_normal] {
        assert!(q.0.items.len() <= q.0.capacity);
        for h in &q.0.items {
            assert!(!queued.contains(h), "a thread waits in two places");
            queued.push(*h);
        }
    }
    let mut held: Vec<ThreadHandle> = Vec::new();
    for local in &s.locals {
        for h in [Some(local.current), local.retired].into_iter().flatten() {
            assert!(!held.contains(&h), "a thread is on two processors");
            held.push(h);
        }
    }
    for h in &queued {
        let t = s.threads.get(*h).expect("a queued thread is registered");
        assert!(t.attribute.queued);
        assert!(!t.attribute.zombie);
        assert_eq!(t.sleep_counter, 0);
        assert_ne!(t.priority, Priority::Idle);
        assert!(!held.contains(h));
        let realtime = s.queue_realtime.0.items.contains(h);
        assert_eq!(realtime, t.priority == Priority::Realtime);
    }
    for t in &s.threads.data {
        assert!(t.sleep_counter >= 0);
        assert_eq!(t.attribute.queued, queued.contains(&t.handle), "a mark without a place");
        if held.contains(&t.handle) {
            assert!(!t.attribute.queued);
        }
    }
    assert!(s.queue_urgent.0.items.is_empty());
}

#[test]
fn invariants_hold_along_a_busy_run() {
    let cpus = vec![ProcessorCoreType::Main, ProcessorCoreType::Sub];
    let mut s = Scheduler::start(&cpus, 1, ENTRY, TimeSpec(0));
    let _ = s.late_init(CPU0, ENTRY, ENTRY, TimeSpec(0));
    assert_invariants(&s);
    let mut seed: u64 = 0x2545_F491_4F6C_DD1D;
    let mut now: isize = 0;
    let priorities = [Priority::Low, Priority::Normal, Priority::High, Priority::Realtime, Priority::Idle];
    for step in 0..4000 {
        seed = seed.wrapping_mul(6364136223846793005).wrapping_add(1442695040888963407);
        let choice = (seed >> 33) % 16;
        let cpu = ProcessorIndex(((seed >> 40) % 2) as usize);
        now += ((seed >> 48) % 7) as isize;
        let switch = match choice {
            0..=5 => s.reschedule(cpu, TimeSpec(now)),
            6 => s.yield_thread(cpu, TimeSpec(now)),
            7 => s.sleep(cpu, TimeSpec(now)),
            8 => {
                let p = priorities[((seed >> 20) % 5) as usize];
                let _ = SpawnOption::with_priority(p).start(&mut s, cpu, ENTRY, "t", TimeSpec(now));
                None
            }
            9 => {
                let _ = SpawnOption::new().start_process(&mut s, cpu, ENTRY, "p", TimeSpec(now));
                None
            }
            10 => {
                if s.current_pid(cpu) != ProcessId(0) {
                    s.exit(cpu, TimeSpec(now)).switch
                } else {
                    None
                }
            }
            11 => {
                let n = s.threads.data.len() as u64;
                let h = s.threads.data[((seed >> 10) % n) as usize].handle;
                h.wake(&mut s);
                None
            }
            12 => match Timer::sleep(&mut s, cpu, Timer::from_isize(now + 20), TimeSpec(now)) {
                SleepStep::Asleep(sw) | SleepStep::Retry(sw) => sw,
                SleepStep::Expired => None,
            },
            13 => {
                let _ = s._scheduler_thread(TimeSpec(now));
                None
            }
            14 => {
                s._statistics_thread(1000 + step);
                None
            }
            _ => {
                s.set_current_state(if step % 2 == 0 {
                    SchedulerState::FullThrottle
                } else {
                    SchedulerState::Normal
                });
                None
            }
        };
        assert_invariants(&s);
        finish(&mut s, cpu, switch, now);
        assert_invariants(&s);
        assert_eq!(s.locals[cpu.0].retired, None);
        assert_eq!(s.locals[cpu.0].irql, Irql::Passive);
    }
    assert!(s.threads.data.len() > 3);
}

#[test]
fn one_tick_from_the_end_of_the_range() {
    let late = FixedClock { now: isize::MAX };
    assert_eq!(Timer::epsilon(&late).into_isize(), isize::MAX);
    let early = FixedClock { now: isize::MIN };
    assert_eq!(Timer::epsilon(&early).into_isize(), isize::MIN + 1);
    assert!(!Timer::from_isize(isize::MIN).is_alive(&early));
    assert!(Timer::from_isize(isize::MIN).is_expired(&early));
    assert!(Timer::from_isize(isize::MIN + 1).is_alive(&early));
    assert!(!Timer::just().is_alive(&FixedClock { now: -5 }));
    assert!(!TimerEvent::one_shot(Timer::just(), ThreadHandle(1)).is_alive(&FixedClock { now: -5 }));
}

#[test]
fn dequeue_clears_the_queued_mark() {
    let mut s = boot(1);
    let system = ThreadHandle(2);
    assert!(thread(&s, 2).attribute.queued);
    assert_eq!(s.queue_normal.0.items, vec![system]);
    assert_eq!(s._next_thread(CPU0), Some(system));
    assert!(!thread(&s, 2).attribute.queued);
    assert!(s.queue_normal.0.items.is_empty());
    assert_invariants(&s);
    s.add(system);
    assert!(thread(&s, 2).attribute.queued);
    assert_eq!(s.queue_normal.0.items, vec![system]);
    s.add(system);
    assert_eq!(s.queue_normal.0.items, vec![system]);
    assert_invariants(&s);
}

#[test]
fn running_thread_bears_no_mark_and_is_not_queued_by_a_wake() {
    let mut s = boot(1);
    let system = ThreadHandle(2);
    let sw = s.reschedule(CPU0, TimeSpec(1));
    assert_eq!(sw.map(|x| x.to), Some(system));
    // Between the two halves of the switch the idle thread retires.
    assert!(s.is_held(ThreadHandle(1)));
    assert!(s.is_held(system));
    assert!(!thread(&s, 2).attribute.queued);
    system.wake(&mut s);
    assert!(s.queue_normal.0.items.is_empty());
    finish(&mut s, CPU0, sw, 1);
    assert_eq!(s.current_thread(CPU0), Some(system));
    assert!(!s.is_held(ThreadHandle(1)));
    assert!(!s.is_held(ThreadHandle(9)));
    assert!(!thread(&s, 2).attribute.queued);
    system.wake(&mut s);
    s.add(system);
    assert!(s.queue_normal.0.items.is_empty());
    assert!(!thread(&s, 2).attribute.queued);
    assert_invariants(&s);
    let mut text = String::new();
    s.get_thread_statistics(&mut text);
    assert_eq!(text, " ID PID P ST %CPU TIME     NAME\n  2   1 3 -  0.0 00:00.00 System\n");
    // Once it yields it waits again, and shows it.
    let opts = SpawnOption::with_priority(Priority::Normal);
    let other = opts.start(&mut s, CPU0, ENTRY, "o", TimeSpec(1)).unwrap();
    let sw = s.yield_thread(CPU0, TimeSpec(1));
    assert_eq!(sw.map(|x| x.to), Some(other));
    finish(&mut s, CPU0, sw, 1);
    assert_eq!(s.queue_normal.0.items, vec![system]);
    assert!(thread(&s, 2).attribute.queued);
    assert!(!thread(&s, other.0).attribute.queued);
    assert_invariants(&s);
}

#[test]
fn waking_a_thread_that_sleeps_twice_keeps_it_asleep() {
    let mut s = boot(1);
    let system = ThreadHandle(2);
    let sw = s.reschedule(CPU0, TimeSpec(0));
    finish(&mut s, CPU0, sw, 0);
    let sw = s.sleep(CPU0, TimeSpec(1));
    finish(&mut s, CPU0, sw, 1);
    assert_eq!(thread(&s, 2).sleep_counter, 1);
    s.threads.data[1].sleep_counter = 3;
    system.wake(&mut s);
    assert_eq!(thread(&s, 2).sleep_counter, 2);
    assert!(s.queue_normal.0.items.is_empty());
    assert!(!thread(&s, 2).attribute.queued);
    s.add(system);
    assert!(s.queue_normal.0.items.is_empty());
    system.wake(&mut s);
    assert_eq!(thread(&s, 2).sleep_counter, 1);
    assert!(s.queue_normal.0.items.is_empty());
    assert_invariants(&s);
    system.wake(&mut s);
    assert_eq!(thread(&s, 2).sleep_counter, 0);
    assert_eq!(s.queue_normal.0.items, vec![system]);
    assert!(thread(&s, 2).attribute.queued);
    assert_invariants(&s);
}

#[test]
fn switching_to_the_running_thread_does_nothing() {
    let mut s = boot(1);
    let system = ThreadHandle(2);
    let sw = s.reschedule(CPU0, TimeSpec(0));
    finish(&mut s, CPU0, sw, 0);
    assert_eq!(s.current_thread(CPU0), Some(system));
    s.locals[0].irql = Irql::Apc;
    assert_eq!(s.switch_context(CPU0, system), None);
    assert_eq!(s.current_thread(CPU0), Some(system));
    assert_eq!(s.locals[0].retired, None);
    assert_eq!(s.locals[0].irql, Irql::Apc);
    assert!(s.queue_normal.0.items.is_empty());
    assert_invariants(&s);
    // To the idle thread it does switch.
    let sw = s.switch_context(CPU0, ThreadHandle(1));
    assert_eq!(sw, Some(ContextSwitch { from: system, to: ThreadHandle(1), irql: Irql::Apc }));
    assert_eq!(s.locals[0].irql, Irql::Dispatch);
    assert_eq!(s.locals[0].retired, Some(system));
}
