//! The tables of processes and threads as text.

use vstd::prelude::*;

use crate::task::process::{ProcessContextData, ProcessId};
use crate::task::scheduler::Scheduler;
use crate::task::thread::ThreadContextData;
use crate::text::{digits, padded, push_decimal};

verus! {

/// `s` followed by a load in per mille: a blank, then the percentage, with
/// one decimal below 100 percent (`NN.N`) and as a whole number of four
/// places from there on.
pub open spec fn with_load(s: Seq<char>, load: nat) -> Seq<char> {
    if load / 10 >= 100 {
        s.push(' ') + padded(digits(load / 10), 4, ' ')
    } else {
        (s.push(' ') + padded(digits(load / 10), 2, ' ')).push('.') + padded(
            digits(load % 10),
            1,
            ' ',
        )
    }
}

/// `s` followed by a processor time in clock ticks: a blank, then
/// `HH:MM:SS` from one hour on and `MM:SS.CC` below, where a hundredth of a
/// second is 10000 ticks.
pub open spec fn with_time(s: Seq<char>, cpu_time: nat) -> Seq<char> {
    let time = cpu_time / 10_000;
    let dsec = time % 100;
    let sec = time / 100 % 60;
    let min = time / 6000 % 60;
    let hour = time / 360000;
    if hour > 0 {
        ((s.push(' ') + padded(digits(hour), 2, '0')).push(':') + padded(digits(min), 2, '0')).push(
            ':',
        ) + padded(digits(sec), 2, '0')
    } else {
        ((s.push(' ') + padded(digits(min), 2, '0')).push(':') + padded(digits(sec), 2, '0')).push(
            '.',
        ) + padded(digits(dsec), 2, '0')
    }
}

/// `s` followed by the line of a process in the table of processes:
/// `PID PRIORITY #THREADS %CPU TIME NAME`. The load shown is at most
/// `max_load`.
pub open spec fn with_process_line(s: Seq<char>, p: ProcessContextData, max_load: u32) -> Seq<
    char,
> {
    let load = if p.load < max_load {
        p.load
    } else {
        max_load
    };
    let head = ((s + padded(digits(p.pid.0 as nat), 3, ' ')).push(' ') + padded(
        digits(p.priority.level() as nat),
        0,
        ' ',
    )).push(' ') + padded(digits(p.n_threads as nat), 3, ' ');
    (with_time(with_load(head, load as nat), p.cpu_time as nat).push(' ') + p.name@).push('\n')
}

/// `s` followed by the lines of the given processes. Process 0, the idle
/// process, has no line.
pub open spec fn with_process_lines(
    s: Seq<char>,
    processes: Seq<ProcessContextData>,
    max_load: u32,
) -> Seq<char>
    decreases processes.len(),
{
    if processes.len() == 0 {
        s
    } else if processes.last().pid == ProcessId(0) {
        with_process_lines(s, processes.drop_last(), max_load)
    } else {
        with_process_line(
            with_process_lines(s, processes.drop_last(), max_load),
            processes.last(),
            max_load,
        )
    }
}

/// The state of a thread as one letter: `S` asleep, `z` zombie, `R` waiting
/// in a run queue, `-` otherwise; a thread that runs shows `-`.
pub open spec fn status_char(t: ThreadContextData) -> char {
    if t.sleep_counter > 0 {
        'S'
    } else {
        t.attribute.spec_to_char()
    }
}

/// `s` followed by the line of a thread in the table of threads:
/// ` ID PID PRIORITY STATE %CPU TIME NAME`, the state as one letter.
pub open spec fn with_thread_line(s: Seq<char>, t: ThreadContextData) -> Seq<char> {
    let head = ((((s + padded(digits(t.handle.0 as nat), 3, ' ')).push(' ') + padded(
        digits(t.pid.0 as nat),
        3,
        ' ',
    )).push(' ') + padded(digits(t.priority.level() as nat), 0, ' ')).push(' ').push(
        status_char(t),
    ));
    (with_time(with_load(head, t.load as nat), t.cpu_time as nat).push(' ') + t.name@).push('\n')
}

/// `s` followed by the lines of the given threads. The threads of process
/// 0, the idle threads, have no line.
pub open spec fn with_thread_lines(s: Seq<char>, threads: Seq<ThreadContextData>) -> Seq<char>
    decreases threads.len(),
{
    if threads.len() == 0 {
        s
    } else if threads.last().pid == ProcessId(0) {
        with_thread_lines(s, threads.drop_last())
    } else {
        with_thread_line(with_thread_lines(s, threads.drop_last()), threads.last())
    }
}

/// Appends a load in per mille.
fn push_load(sb: &mut String, load: usize)
    ensures
        final(sb)@ == with_load(old(sb)@, load as nat),
{
    let load0 = load % 10;
    let load1 = load / 10;
    sb.push(' ');
    if load1 >= 100 {
        push_decimal(sb, load1, 4, ' ');
    } else {
        push_decimal(sb, load1, 2, ' ');
        sb.push('.');
        push_decimal(sb, load0, 1, ' ');
    }
}

/// Appends a processor time in clock ticks.
fn push_time(sb: &mut String, cpu_time: usize)
    ensures
        final(sb)@ == with_time(old(sb)@, cpu_time as nat),
{
    let time = cpu_time / 10_000;
    let dsec = time % 100;
    let sec = time / 100 % 60;
    let min = time / 6000 % 60;
    let hour = time / 360000;
    sb.push(' ');
    if hour > 0 {
        push_decimal(sb, hour, 2, '0');
        sb.push(':');
        push_decimal(sb, min, 2, '0');
        sb.push(':');
        push_decimal(sb, sec, 2, '0');
    } else {
        push_decimal(sb, min, 2, '0');
        sb.push(':');
        push_decimal(sb, sec, 2, '0');
        sb.push('.');
        push_decimal(sb, dsec, 2, '0');
    }
}

/// Appends the line of a process.
fn push_process_line(sb: &mut String, p: &ProcessContextData, max_load: u32)
    ensures
        final(sb)@ == with_process_line(old(sb)@, *p, max_load),
{
    push_decimal(sb, p.pid.0, 3, ' ');
    sb.push(' ');
    push_decimal(sb, p.priority.as_usize(), 0, ' ');
    sb.push(' ');
    push_decimal(sb, p.n_threads, 3, ' ');
    let load = if p.load < max_load {
        p.load
    } else {
        max_load
    };
    push_load(sb, load as usize);
    push_time(sb, p.cpu_time);
    sb.push(' ');
    sb.push_str(p.name());
    sb.push('\n');
}

/// Appends the line of a thread.
fn push_thread_line(sb: &mut String, t: &ThreadContextData)
    ensures
        final(sb)@ == with_thread_line(old(sb)@, *t),
{
    let status = if t.is_asleep() {
        'S'
    } else {
        t.attribute.to_char()
    };
    push_decimal(sb, t.handle.as_usize(), 3, ' ');
    sb.push(' ');
    push_decimal(sb, t.pid.0, 3, ' ');
    sb.push(' ');
    push_decimal(sb, t.priority.as_usize(), 0, ' ');
    sb.push(' ');
    sb.push(status);
    push_load(sb, t.load as usize);
    push_time(sb, t.cpu_time);
    sb.push(' ');
    sb.push_str(t.name.as_str());
    sb.push('\n');
}

impl Scheduler {
    /// `s` followed by the table of processes: a heading, then one line for
    /// each process but the idle process, in the order of their
    /// identifiers.
    pub open spec fn with_process_table(&self, s: Seq<char>) -> Seq<char> {
        with_process_lines(
            s + "PID P #TH %CPU TIME     NAME\n"@,
            self.processes@,
            (1000 * self.locals@.len()) as u32,
        )
    }

    /// `s` followed by the table of threads: a heading, then one line for
    /// each thread but the idle threads, in the order of their handles.
    pub open spec fn with_thread_table(&self, s: Seq<char>) -> Seq<char> {
        with_thread_lines(s + " ID PID P ST %CPU TIME     NAME\n"@, self.threads@)
    }

    /// Appends the table of processes to `sb`.
    pub fn print_statistics(&self, sb: &mut String)
        requires
            self.wf(),
        ensures
            final(sb)@ == self.with_process_table(old(sb)@),
    {
        proof {
            assert(self@.wf_locals());
        }
        let max_load: u32 = 1000 * self.locals.len() as u32;
        sb.push_str("PID P #TH %CPU TIME     NAME\n");
        let ghost head = sb@;
        let mut i: usize = 0;
        assert(self.processes@.take(0) =~= Seq::empty());
        while i < self.processes.data.len()
            invariant
                i <= self.processes@.len(),
                sb@ == with_process_lines(head, self.processes@.take(i as int), max_load),
            decreases self.processes@.len() - i,
        {
            proof {
                assert(self.processes@.take(i + 1).drop_last() =~= self.processes@.take(i as int));
                assert(self.processes@.take(i + 1).last() == self.processes@[i as int]);
            }
            if self.processes.data[i].pid != ProcessId(0) {
                push_process_line(sb, &self.processes.data[i], max_load);
            }
            i = i + 1;
        }
        assert(self.processes@.take(i as int) =~= self.processes@);
    }

    /// Appends the table of threads to `sb`.
    pub fn get_thread_statistics(&self, sb: &mut String)
        ensures
            final(sb)@ == self.with_thread_table(old(sb)@),
    {
        sb.push_str(" ID PID P ST %CPU TIME     NAME\n");
        let ghost head = sb@;
        let mut i: usize = 0;
        assert(self.threads@.take(0) =~= Seq::empty());
        while i < self.threads.data.len()
            invariant
                i <= self.threads@.len(),
                sb@ == with_thread_lines(head, self.threads@.take(i as int)),
            decreases self.threads@.len() - i,
        {
            proof {
                assert(self.threads@.take(i + 1).drop_last() =~= self.threads@.take(i as int));
                assert(self.threads@.take(i + 1).last() == self.threads@[i as int]);
            }
            if self.threads.data[i].pid != ProcessId(0) {
                push_thread_line(sb, &self.threads.data[i]);
            }
            i = i + 1;
        }
        assert(self.threads@.take(i as int) =~= self.threads@);
    }
}

} // verus!
