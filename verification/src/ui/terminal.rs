//! The terminal: where the cursor stands, where the next character goes, and
//! when the text scrolls. Drawing is left to the caller.

use vstd::prelude::*;
use vstd::string::StrSliceExecFns;
use crate::gfx::coords::{fits, EdgeInsets, Rect, Size};
use crate::task::executor::Task;
use crate::task::irql::ProcessorIndex;
use crate::task::lifecycle::ExitReport;
use crate::task::scheduler::Scheduler;
use crate::task::timer::TimeSpec;

verus! {

/// The attribute of a terminal that asks for none: light gray on black.
pub const DEFAULT_ATTRIBUTE: u8 = 0x07;

/// The opacity of the background of a terminal that asks for none.
pub const BG_ALPHA: u8 = 0xE0;

/// The measures of a font of fixed width.
#[derive(Debug, Copy, Clone, PartialEq, Eq, Structural)]
pub struct FontDescriptor {
    pub em_width: isize,
    pub line_height: isize,
}

impl FontDescriptor {
    pub fn em_width(&self) -> (r: isize)
        ensures
            r == self.em_width,
    {
        self.em_width
    }

    pub fn line_height(&self) -> (r: isize)
        ensures
            r == self.line_height,
    {
        self.line_height
    }
}

/// What the caller has to draw after a character was put.
#[derive(Debug, Copy, Clone, PartialEq, Eq, Structural)]
pub struct PutChar {
    /// How many lines the text scrolls up before anything is drawn.
    pub scrolls: usize,
    /// The cell to draw the character in, if it is a character to draw.
    pub cell: Option<Rect>,
}

/// A terminal of `cols` by `rows` cells.
#[derive(Debug, Copy, Clone, PartialEq, Eq, Structural)]
pub struct Terminal {
    pub alpha: u8,
    pub font: FontDescriptor,
    pub cols: usize,
    pub rows: usize,
    pub insets: EdgeInsets,
    pub x: usize,
    pub y: usize,
    pub attribute: u8,
    pub is_cursor_enabled: bool,
}

impl Terminal {
    /// The terminal has a row, its font has a size, and every cell lies
    /// where `isize` can tell.
    pub open spec fn wf(&self) -> bool {
        &&& 0 < self.rows < isize::MAX
        &&& self.cols < isize::MAX
        &&& self.font.em_width > 0
        &&& self.font.line_height > 0
        &&& self.insets.left >= 0
        &&& self.insets.top >= 0
        &&& fits(self.insets.left + (self.cols + 1) * self.font.em_width)
        &&& fits(self.insets.top + (self.rows + 1) * self.font.line_height)
    }

    /// The attribute a terminal takes when it is asked for `attribute`: zero
    /// asks for the default.
    pub open spec fn spec_attribute(attribute: u8) -> u8 {
        if attribute > 0 {
            attribute
        } else {
            DEFAULT_ATTRIBUTE
        }
    }

    /// The terminal that fills the content of a window of the given size
    /// within the insets: as many columns and rows as whole cells of the
    /// font fit, the cursor at the top left and enabled.
    pub fn from_window(
        content_size: Size,
        insets: Option<EdgeInsets>,
        font: FontDescriptor,
        alpha: u8,
        attribute: u8,
    ) -> (r: Self)
        requires
            font.em_width > 0,
            font.line_height > 0,
            content_size.width >= 0,
            content_size.height >= 0,
            insets matches Some(i) ==> fits(i.left + i.right) && fits(i.top + i.bottom) && 0
                <= content_size.width - (i.left + i.right) <= isize::MAX && 0
                <= content_size.height - (i.top + i.bottom) <= isize::MAX,
        ensures
            r.cols == (content_size.width - (match insets {
                Some(i) => i.left + i.right,
                None => 0,
            })) / (font.em_width as int),
            r.rows == (content_size.height - (match insets {
                Some(i) => i.top + i.bottom,
                None => 0,
            })) / (font.line_height as int),
            r.insets == (match insets {
                Some(i) => i,
                None => EdgeInsets { top: 0, left: 0, bottom: 0, right: 0 },
            }),
            r.alpha == (if alpha > 0 {
                alpha
            } else {
                BG_ALPHA
            }),
            r.attribute == Self::spec_attribute(attribute),
            r.font == font,
            r.x == 0,
            r.y == 0,
            r.is_cursor_enabled,
    {
        let insets = match insets {
            Some(i) => i,
            None => EdgeInsets::new(0, 0, 0, 0),
        };
        let attribute = if attribute > 0 {
            attribute
        } else {
            DEFAULT_ATTRIBUTE
        };
        let alpha = if alpha > 0 {
            alpha
        } else {
            BG_ALPHA
        };
        let rect = content_size.bounds().insets_by(insets);
        let cols = (rect.width() / font.em_width()) as usize;
        let rows = (rect.height() / font.line_height()) as usize;
        Terminal {
            alpha,
            font,
            cols,
            rows,
            insets,
            x: 0,
            y: 0,
            attribute,
            is_cursor_enabled: true,
        }
    }

    /// The terminal of the given number of columns and rows, without
    /// insets, with the default attribute and opacity.
    pub fn new(cols: usize, rows: usize, font: FontDescriptor) -> (r: Self)
        ensures
            r == (Terminal {
                alpha: BG_ALPHA,
                font,
                cols,
                rows,
                insets: EdgeInsets { top: 0, left: 0, bottom: 0, right: 0 },
                x: 0,
                y: 0,
                attribute: DEFAULT_ATTRIBUTE,
                is_cursor_enabled: true,
            }),
    {
        Terminal {
            alpha: BG_ALPHA,
            font,
            cols,
            rows,
            insets: EdgeInsets::new(0, 0, 0, 0),
            x: 0,
            y: 0,
            attribute: DEFAULT_ATTRIBUTE,
            is_cursor_enabled: true,
        }
    }

    /// The width of the window of the terminal: its columns and its insets
    /// to the left and to the right.
    pub open spec fn frame_width(&self) -> int {
        self.font.em_width * self.cols + self.insets.left + self.insets.right
    }

    /// The height of the window of the terminal: its rows and its insets at
    /// the top and at the bottom.
    pub open spec fn frame_height(&self) -> int {
        self.font.line_height * self.rows + self.insets.top + self.insets.bottom
    }

    /// Where the `n_instances`-th window begins, on a screen with the given
    /// inset on that side.
    pub open spec fn frame_corner(n_instances: usize, screen_inset: isize) -> int {
        screen_inset + 16 + 24 * n_instances
    }

    /// The frame of the `n_instances`-th window can be computed without
    /// leaving the range of `isize`.
    pub open spec fn can_frame(&self, n_instances: usize, screen_insets: EdgeInsets) -> bool {
        &&& fits(24 * n_instances)
        &&& fits(screen_insets.left + 16)
        &&& fits(screen_insets.top + 16)
        &&& fits(Self::frame_corner(n_instances, screen_insets.left))
        &&& fits(Self::frame_corner(n_instances, screen_insets.top))
        &&& fits(self.font.em_width * self.cols + self.insets.left)
        &&& fits(self.font.line_height * self.rows + self.insets.top)
        &&& fits(self.frame_width())
        &&& fits(self.frame_height())
        &&& Rect::can_make(
            Self::frame_corner(n_instances, screen_insets.left) as isize,
            Self::frame_corner(n_instances, screen_insets.top) as isize,
            self.frame_width() as isize,
            self.frame_height() as isize,
        )
    }

    /// The frame of the window of the terminal that is the `n_instances`-th
    /// to be opened: each terminal opens 24 points further right and down
    /// than the one before, and its window holds its cells and its insets.
    pub fn window_frame(&self, n_instances: usize, screen_insets: EdgeInsets) -> (r: Rect)
        requires
            self.wf(),
            self.can_frame(n_instances, screen_insets),
        ensures
            r == Rect::spec_new(
                Self::frame_corner(n_instances, screen_insets.left) as isize,
                Self::frame_corner(n_instances, screen_insets.top) as isize,
                self.frame_width() as isize,
                self.frame_height() as isize,
            ),
    {
        assert(0 <= self.font.em_width * self.cols <= (self.cols + 1) * self.font.em_width && 0
            <= self.font.line_height * self.rows <= (self.rows + 1) * self.font.line_height)
            by (nonlinear_arith)
            requires
                self.font.em_width > 0,
                self.font.line_height > 0,
                self.cols >= 0,
                self.rows >= 0,
        ;
        let cells = Size {
            width: self.font.em_width() * (self.cols as isize),
            height: self.font.line_height() * (self.rows as isize),
        };
        let size = cells + self.insets;
        Rect::new(
            screen_insets.left + 16 + 24 * (n_instances as isize),
            screen_insets.top + 16 + 24 * (n_instances as isize),
            size.width,
            size.height,
        )
    }

    /// The colours an attribute asks for, as places in the palette: the
    /// foreground in the low four bits, the background in the high four.
    pub fn split_attr(val: u8) -> (r: (usize, usize))
        ensures
            r.0 == val & 0x0F,
            r.1 == val >> 4,
            r.0 < 16,
            r.1 < 16,
    {
        assert((val & 0x0F) < 16 && (val >> 4) < 16) by (bit_vector);
        ((val & 0x0F) as usize, (val >> 4) as usize)
    }

    /// The cell at column `x` and row `y`.
    pub open spec fn cell(&self, x: int, y: int) -> Rect {
        Rect {
            origin: crate::gfx::coords::Point {
                x: (self.insets.left + x * self.font.em_width) as isize,
                y: (self.insets.top + y * self.font.line_height) as isize,
            },
            size: Size { width: self.font.em_width, height: self.font.line_height },
        }
    }

    /// The terminal after a character to draw was put, and what is to be
    /// drawn: at the end of a line the cursor goes to the beginning of the
    /// next line first; below the last row the text scrolls up by one line
    /// and the cursor stays in the last row; then the character goes where
    /// the cursor is and the cursor moves right.
    pub open spec fn put_glyph(self) -> (Terminal, PutChar) {
        let wrapped = self.x >= self.cols;
        let x = if wrapped {
            0
        } else {
            self.x as int
        };
        let y0 = if wrapped {
            self.y + 1
        } else {
            self.y as int
        };
        let scrolls = y0 >= self.rows;
        let y = if scrolls {
            self.rows - 1
        } else {
            y0
        };
        (
            Terminal { x: (x + 1) as usize, y: y as usize, ..self },
            PutChar {
                scrolls: if scrolls {
                    1
                } else {
                    0
                },
                cell: Some(self.cell(x, y)),
            },
        )
    }

    /// The terminal after the cursor went to the beginning of the next line,
    /// and how far the text scrolls for that: as far as it takes to keep
    /// the cursor within the rows.
    pub open spec fn new_line(self) -> (Terminal, PutChar) {
        if self.y + 1 >= self.rows {
            (
                Terminal { x: 0, y: (self.rows - 1) as usize, ..self },
                PutChar { scrolls: (self.y + 2 - self.rows) as usize, cell: None },
            )
        } else {
            (Terminal { x: 0, y: (self.y + 1) as usize, ..self }, PutChar { scrolls: 0, cell: None })
        }
    }

    /// Puts a character to draw.
    fn put_glyph_exec(&mut self) -> (r: PutChar)
        requires
            old(self).wf(),
            old(self).y < usize::MAX,
        ensures
            final(self).wf(),
            *final(self) == old(self).put_glyph().0,
            r == old(self).put_glyph().1,
    {
        let w = self.font.em_width();
        let h = self.font.line_height();
        if self.x >= self.cols {
            self.x = 0;
            self.y = self.y + 1;
        }
        let mut scrolls: usize = 0;
        if self.y >= self.rows {
            scrolls = 1;
            self.y = self.rows - 1;
        }
        proof {
            let cols = self.cols as int;
            let rows = self.rows as int;
            let x = self.x as int;
            let y = self.y as int;
            let wi = w as int;
            let hi = h as int;
            assert(0 <= x * wi <= (cols + 1) * wi && (x + 1) * wi <= (cols + 1) * wi)
                by (nonlinear_arith)
                requires
                    0 <= x <= cols,
                    wi > 0,
            ;
            assert(0 <= y * hi <= (rows + 1) * hi && (y + 1) * hi <= (rows + 1) * hi)
                by (nonlinear_arith)
                requires
                    0 <= y < rows,
                    hi > 0,
            ;
            assert((x + 1) * wi == x * wi + wi && (y + 1) * hi == y * hi + hi) by (nonlinear_arith);
        }
        let rect = Rect::new(
            self.insets.left + (self.x as isize) * w,
            self.insets.top + (self.y as isize) * h,
            w,
            h,
        );
        self.x = self.x + 1;
        PutChar { scrolls, cell: Some(rect) }
    }

    /// Puts one character. A backspace moves the cursor left unless it is
    /// at the beginning of the line; a carriage return moves it to the
    /// beginning of the line; a line feed moves it to the beginning of the
    /// next line; any other character is drawn where the cursor is. A tab
    /// is not handled here: see `put_tab`.
    pub fn put_char(&mut self, c: char) -> (r: PutChar)
        requires
            old(self).wf(),
            old(self).y < usize::MAX,
            c != '\t',
        ensures
            final(self).wf(),
            c == '\x08' ==> *final(self) == (Terminal {
                x: if old(self).x > 0 {
                    (old(self).x - 1) as usize
                } else {
                    0
                },
                ..*old(self)
            }) && r == (PutChar { scrolls: 0, cell: None }),
            c == '\r' ==> *final(self) == (Terminal { x: 0, ..*old(self) }) && r == (PutChar {
                scrolls: 0,
                cell: None,
            }),
            c == '\n' ==> *final(self) == old(self).new_line().0 && r == old(self).new_line().1,
            c != '\x08' && c != '\r' && c != '\n' ==> *final(self) == old(self).put_glyph().0 && r
                == old(self).put_glyph().1,
    {
        if c == '\x08' {
            if self.x > 0 {
                self.x = self.x - 1;
            }
            PutChar { scrolls: 0, cell: None }
        } else if c == '\r' {
            self.x = 0;
            PutChar { scrolls: 0, cell: None }
        } else if c == '\n' {
            self.x = 0;
            if self.y + 1 >= self.rows {
                let scrolls = self.y + 1 - self.rows + 1;
                self.y = self.rows - 1;
                PutChar { scrolls, cell: None }
            } else {
                self.y = self.y + 1;
                PutChar { scrolls: 0, cell: None }
            }
        } else {
            self.put_glyph_exec()
        }
    }

    /// The number of blanks a tab puts: up to the next column that is a
    /// multiple of eight.
    pub open spec fn tab_width(x: usize) -> usize {
        (8 - (x & 7)) as usize
    }

    /// The terminal after `n` characters to draw were put, and what is to be
    /// drawn for each of them.
    pub open spec fn put_glyphs(self, n: nat) -> (Terminal, Seq<PutChar>)
        decreases n,
    {
        if n == 0 {
            (self, Seq::empty())
        } else {
            let before = self.put_glyphs((n - 1) as nat);
            (before.0.put_glyph().0, before.1.push(before.0.put_glyph().1))
        }
    }

    /// Puts a tab, as blanks. Returns what is to be drawn for each blank.
    pub fn put_tab(&mut self) -> (r: Vec<PutChar>)
        requires
            old(self).wf(),
            old(self).y < usize::MAX - 8,
        ensures
            final(self).wf(),
            r@.len() == Self::tab_width(old(self).x),
            *final(self) == old(self).put_glyphs(Self::tab_width(old(self).x) as nat).0,
            r@ == old(self).put_glyphs(Self::tab_width(old(self).x) as nat).1,
    {
        let x = self.x;
        assert((x & 7) <= 7) by (bit_vector);
        let count = 8 - (self.x & 7);
        let mut out: Vec<PutChar> = Vec::new();
        let mut i: usize = 0;
        while i < count
            invariant
                i <= count,
                count <= 8,
                out@.len() == i,
                self.wf(),
                self.y <= old(self).y + i,
                old(self).y < usize::MAX - 8,
                *self == old(self).put_glyphs(i as nat).0,
                out@ == old(self).put_glyphs(i as nat).1,
            decreases count - i,
        {
            let step = self.put_glyph_exec();
            out.push(step);
            i = i + 1;
        }
        out
    }

    /// The terminal after the character `c` was put, and what is to be drawn
    /// for it, one step for each cell it may touch.
    pub open spec fn put_one(self, c: char) -> (Terminal, Seq<PutChar>) {
        if c == '\t' {
            self.put_glyphs(Self::tab_width(self.x) as nat)
        } else if c == '\x08' {
            (
                Terminal {
                    x: if self.x > 0 {
                        (self.x - 1) as usize
                    } else {
                        0
                    },
                    ..self
                },
                seq![PutChar { scrolls: 0, cell: None }],
            )
        } else if c == '\r' {
            (Terminal { x: 0, ..self }, seq![PutChar { scrolls: 0, cell: None }])
        } else if c == '\n' {
            (self.new_line().0, seq![self.new_line().1])
        } else {
            (self.put_glyph().0, seq![self.put_glyph().1])
        }
    }

    /// The terminal after the characters of `text` were put, and what is to
    /// be drawn for them, in order.
    pub open spec fn put_all(self, text: Seq<char>) -> (Terminal, Seq<PutChar>)
        decreases text.len(),
    {
        if text.len() == 0 {
            (self, Seq::empty())
        } else {
            let before = self.put_all(text.drop_last());
            (before.0.put_one(text.last()).0, before.1 + before.0.put_one(text.last()).1)
        }
    }

    /// The row of the cursor stays within the rows once it was there, and
    /// never goes further down than it was.
    pub open spec fn settled(self, start: Terminal) -> bool {
        self.wf() && (self.y <= start.y || self.y < self.rows)
    }

    /// Puts the characters of a string, one after the other. Returns what is
    /// to be drawn, step by step.
    pub fn put_str(&mut self, s: &str) -> (r: Vec<PutChar>)
        requires
            old(self).wf(),
            old(self).y < usize::MAX - 8,
        ensures
            final(self).wf(),
            *final(self) == old(self).put_all(s@).0,
            r@ == old(self).put_all(s@).1,
    {
        let n = s.unicode_len();
        let mut out: Vec<PutChar> = Vec::new();
        let mut i: usize = 0;
        assert(s@.take(0) =~= Seq::empty());
        while i < n
            invariant
                n == s@.len(),
                i <= n,
                self.settled(*old(self)),
                old(self).y < usize::MAX - 8,
                *self == old(self).put_all(s@.take(i as int)).0,
                out@ == old(self).put_all(s@.take(i as int)).1,
            decreases n - i,
        {
            let c = s.get_char(i);
            proof {
                assert(s@.take(i + 1).drop_last() =~= s@.take(i as int));
                assert(s@.take(i + 1).last() == c);
            }
            let ghost before = out@;
            if c == '\t' {
                let mut steps = self.put_tab();
                proof {
                    Self::lemma_put_glyphs_settled(
                        old(self).put_all(s@.take(i as int)).0,
                        *old(self),
                        steps@.len(),
                    );
                }
                out.append(&mut steps);
            } else {
                let step = self.put_char(c);
                out.push(step);
                assert(out@ =~= before + seq![step]);
            }
            i = i + 1;
        }
        assert(s@.take(n as int) =~= s@);
        out
    }

    /// Putting characters to draw keeps the row of the cursor settled.
    pub proof fn lemma_put_glyphs_settled(self, start: Terminal, n: nat)
        requires
            self.settled(start),
        ensures
            self.put_glyphs(n).0.settled(start),
        decreases n,
    {
        if n > 0 {
            self.lemma_put_glyphs_settled(start, (n - 1) as nat);
        }
    }

    pub fn dims(&self) -> (r: (usize, usize))
        ensures
            r == (self.cols, self.rows),
    {
        (self.cols, self.rows)
    }

    pub fn cursor_position(&self) -> (r: (usize, usize))
        ensures
            r == (self.x, self.y),
    {
        (self.x, self.y)
    }

    pub fn set_cursor_position(&mut self, x: usize, y: usize)
        ensures
            *final(self) == (Terminal { x, y, ..*old(self) }),
    {
        self.x = x;
        self.y = y;
    }

    pub fn is_cursor_enabled(&self) -> (r: bool)
        ensures
            r == self.is_cursor_enabled,
    {
        self.is_cursor_enabled
    }

    /// Shows or hides the cursor. Returns whether it was shown before, and
    /// whether the cell of the cursor is to be drawn again, which is so when
    /// the cursor is or was shown.
    pub fn set_cursor_enabled(&mut self, enabled: bool) -> (r: (bool, bool))
        ensures
            *final(self) == (Terminal { is_cursor_enabled: enabled, ..*old(self) }),
            r.0 == old(self).is_cursor_enabled,
            r.1 == (enabled || old(self).is_cursor_enabled),
    {
        let was = self.is_cursor_enabled;
        self.is_cursor_enabled = enabled;
        (was, enabled || was)
    }

    /// The cell of the cursor, if the cursor stands within the terminal.
    pub fn cursor_cell(&self) -> (r: Option<Rect>)
        requires
            self.wf(),
        ensures
            r == if self.x >= self.cols || self.y >= self.rows {
                None
            } else {
                Some(self.cell(self.x as int, self.y as int))
            },
    {
        if self.x >= self.cols || self.y >= self.rows {
            return None;
        }
        let w = self.font.em_width();
        let h = self.font.line_height();
        proof {
            let cols = self.cols as int;
            let rows = self.rows as int;
            let x = self.x as int;
            let y = self.y as int;
            let wi = w as int;
            let hi = h as int;
            assert(0 <= x * wi && (x + 1) * wi <= (cols + 1) * wi) by (nonlinear_arith)
                requires
                    0 <= x < cols,
                    wi > 0,
            ;
            assert(0 <= y * hi && (y + 1) * hi <= (rows + 1) * hi) by (nonlinear_arith)
                requires
                    0 <= y < rows,
                    hi > 0,
            ;
            assert((x + 1) * wi == x * wi + wi && (y + 1) * hi == y * hi + hi) by (nonlinear_arith);
        }
        Some(
            Rect::new(
                self.insets.left + (self.x as isize) * w,
                self.insets.top + (self.y as isize) * h,
                w,
                h,
            ),
        )
    }

    /// Sets the attribute; zero asks for the default.
    pub fn set_attribute(&mut self, attribute: u8)
        ensures
            *final(self) == (Terminal {
                attribute: Self::spec_attribute(attribute),
                ..*old(self)
            }),
    {
        let attribute = if attribute > 0 {
            attribute
        } else {
            DEFAULT_ATTRIBUTE
        };
        self.attribute = attribute;
    }
}

/// The environment the first program of a user runs in.
pub struct UserEnv;

impl UserEnv {
    /// Starts the user's environment on the thread that runs on processor
    /// `cpu`: hands the task with the id `task` to the thread's executor,
    /// lets the executor run to exhaustion and the thread exit. Returns the
    /// tasks to run, and what is left to do after the exit.
    pub fn start(scheduler: &mut Scheduler, cpu: ProcessorIndex, task: usize, now: TimeSpec) -> (r:
        (Vec<Task>, ExitReport))
        requires
            old(scheduler).wf(),
            old(scheduler)@.can_switch(cpu.0 as int),
        ensures
            final(scheduler).wf(),
            r.0@ == old(scheduler)@.tasks_of(old(scheduler).locals@[cpu.0 as int].current).push(
                Task { id: task },
            ),
    {
        scheduler.spawn_async(cpu, task);
        proof {
            assert(scheduler@.can_switch(cpu.0 as int)) by {
                assert(scheduler@.locals == old(scheduler)@.locals);
            }
        }
        scheduler.perform_tasks(cpu, now)
    }
}

} // verus!
