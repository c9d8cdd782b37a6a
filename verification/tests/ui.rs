use megos::gfx::coords::{EdgeInsets, Point, Rect, Size};
use megos::task::executor::Task;
use megos::task::irql::{ProcessorCoreType, ProcessorIndex};
use megos::task::scheduler::Scheduler;
use megos::task::thread::{ThreadHandle, ThreadStart};
use megos::task::timer::TimeSpec;
use megos::ui::format::format_bytes;
use megos::ui::terminal::{FontDescriptor, PutChar, Terminal, UserEnv, BG_ALPHA, DEFAULT_ATTRIBUTE};

fn bytes(val: usize) -> String {
    let mut s = String::new();
    format_bytes(&mut s, val);
    s
}

#[test]
fn sizes_in_five_characters() {
    assert_eq!(bytes(0), "    0");
    assert_eq!(bytes(9999), " 9999");
    assert_eq!(bytes(10 * 1024), "10.0K");
    assert_eq!(bytes(10 * 1024 + 512), "10.5K");
    assert_eq!(bytes(100 * 1024), " 100K");
    assert_eq!(bytes(1023 * 1024), "1023K");
    assert_eq!(bytes(1024 * 1024), "1.00M");
    assert_eq!(bytes(1024 * 1024 * 3 / 2), "1.50M");
    assert_eq!(bytes(10 * 1024 * 1024 + 512 * 1024), "10.5M");
    assert_eq!(bytes(512 * 1024 * 1024), " 512M");
    assert_eq!(bytes(1 << 30), "1.00G");
    assert_eq!(bytes((1 << 30) + (256 << 20)), "1.25G");
    assert_eq!(bytes(64 << 30), "  64G");
}

const FONT: FontDescriptor = FontDescriptor { em_width: 8, line_height: 16 };

#[test]
fn terminal_dimensions() {
    let t = Terminal::from_window(Size::new(648, 410), Some(EdgeInsets::new(4, 4, 4, 4)), FONT, 0, 0);
    assert_eq!(t.dims(), (80, 25));
    assert_eq!(t.alpha, BG_ALPHA);
    assert_eq!(t.attribute, DEFAULT_ATTRIBUTE);
    assert_eq!(t.cursor_position(), (0, 0));
    assert!(t.is_cursor_enabled());
    let u = Terminal::from_window(Size::new(640, 400), None, FONT, 0x80, 0x1F);
    assert_eq!(u.dims(), (80, 25));
    assert_eq!(u.alpha, 0x80);
    assert_eq!(u.attribute, 0x1F);
    let n = Terminal::new(40, 10, FONT);
    assert_eq!(n.dims(), (40, 10));
    assert_eq!(
        n.window_frame(2, EdgeInsets::new(24, 0, 0, 0)),
        Rect::new(64, 88, 320, 160)
    );
    assert_eq!(Terminal::split_attr(0x1F), (15, 1));
    assert_eq!(Terminal::split_attr(DEFAULT_ATTRIBUTE), (7, 0));
}

#[test]
fn terminal_cursor_moves_wraps_and_scrolls() {
    let mut t = Terminal::new(3, 2, FONT);
    assert_eq!(t.put_char('a'), PutChar { scrolls: 0, cell: Some(Rect::new(0, 0, 8, 16)) });
    assert_eq!(t.put_char('b').cell, Some(Rect::new(8, 0, 8, 16)));
    assert_eq!(t.put_char('c').cell, Some(Rect::new(16, 0, 8, 16)));
    assert_eq!(t.cursor_position(), (3, 0));
    assert_eq!(t.cursor_cell(), None);
    // The line is full: the next character goes to the next line.
    assert_eq!(t.put_char('d'), PutChar { scrolls: 0, cell: Some(Rect::new(0, 16, 8, 16)) });
    assert_eq!(t.cursor_position(), (1, 1));
    assert_eq!(t.cursor_cell(), Some(Rect::new(8, 16, 8, 16)));
    assert_eq!(t.put_char('\x08'), PutChar { scrolls: 0, cell: None });
    assert_eq!(t.put_char('\x08'), PutChar { scrolls: 0, cell: None });
    assert_eq!(t.cursor_position(), (0, 1));
    t.set_cursor_position(2, 1);
    assert_eq!(t.put_char('\r'), PutChar { scrolls: 0, cell: None });
    assert_eq!(t.cursor_position(), (0, 1));
    // A line feed in the last row scrolls.
    assert_eq!(t.put_char('\n'), PutChar { scrolls: 1, cell: None });
    assert_eq!(t.cursor_position(), (0, 1));
    t.set_cursor_position(3, 1);
    assert_eq!(t.put_char('e'), PutChar { scrolls: 1, cell: Some(Rect::new(0, 16, 8, 16)) });
    t.set_cursor_position(0, 0);
    assert_eq!(t.put_char('\n'), PutChar { scrolls: 0, cell: None });
    t.set_cursor_position(0, 5);
    assert_eq!(t.put_char('\n'), PutChar { scrolls: 5, cell: None });
    assert_eq!(t.cursor_position(), (0, 1));
    let mut wide = Terminal::new(40, 2, FONT);
    wide.set_cursor_position(3, 0);
    let cells = wide.put_tab();
    assert_eq!(cells.len(), 5);
    assert_eq!(cells[0].cell.map(|r| r.origin()), Some(Point::new(24, 0)));
    assert_eq!(wide.cursor_position(), (8, 0));
    assert_eq!(wide.put_tab().len(), 8);
    assert_eq!(wide.set_cursor_enabled(false), (true, true));
    assert_eq!(wide.set_cursor_enabled(false), (false, false));
    assert_eq!(wide.set_cursor_enabled(true), (false, true));
    wide.set_attribute(0);
    assert_eq!(wide.attribute, DEFAULT_ATTRIBUTE);
    wide.set_attribute(0x4E);
    assert_eq!(wide.attribute, 0x4E);
}

#[test]
fn terminal_puts_strings() {
    let mut t = Terminal::new(10, 3, FONT);
    let steps = t.put_str("ab\tc\r\nd\x08");
    assert_eq!(steps.len(), 2 + 6 + 1 + 1 + 1 + 1 + 1);
    assert_eq!(t.cursor_position(), (0, 1));
    assert_eq!(steps[8].cell, Some(Rect::new(64, 0, 8, 16)));
    assert_eq!(steps[11].cell, Some(Rect::new(0, 16, 8, 16)));
    assert_eq!(steps.iter().map(|s| s.scrolls).sum::<usize>(), 0);
    let more = t.put_str("\n\n\n0123456789x");
    assert_eq!(more.iter().map(|s| s.scrolls).sum::<usize>(), 3);
    assert_eq!(t.cursor_position(), (1, 2));
    assert!(t.put_str("").is_empty());
}

#[test]
fn user_environment_runs_its_task_and_exits() {
    let cpus = vec![ProcessorCoreType::Main];
    let mut s = Scheduler::start(&cpus, 1, ThreadStart { entry: 1, arg: 0 }, TimeSpec(0));
    let cpu = ProcessorIndex(0);
    let sw = s.reschedule(cpu, TimeSpec(1)).unwrap();
    s.switch_context_after(cpu, sw.irql, TimeSpec(1));
    let (tasks, report) = UserEnv::start(&mut s, cpu, 9, TimeSpec(2));
    assert_eq!(tasks, vec![Task::new(9)]);
    assert_eq!(report.switch.map(|x| x.to), Some(ThreadHandle(1)));
    assert!(report.process.is_some());
}

#[test]
fn window_frame_holds_cells_and_insets() {
    let mut t = Terminal::new(40, 10, FONT);
    assert_eq!(t.window_frame(0, EdgeInsets::new(0, 0, 0, 0)), Rect::new(16, 16, 320, 160));
    t.insets = EdgeInsets::new(1, 2, 3, 4);
    assert_eq!(t.window_frame(0, EdgeInsets::new(0, 0, 0, 0)), Rect::new(16, 16, 326, 164));
    assert_eq!(t.window_frame(3, EdgeInsets::new(10, 20, 30, 40)), Rect::new(108, 98, 326, 164));
    assert_eq!(
        t.window_frame(0x10_0000, EdgeInsets::new(0, 0, 0, 0)),
        Rect::new(16 + 24 * 0x10_0000, 16 + 24 * 0x10_0000, 326, 164)
    );
}
