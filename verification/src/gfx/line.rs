//! Straight lines on the integer plane.

use vstd::prelude::*;
use crate::gfx::coords::{spec_abs, Point};

verus! {

/// The direction of a step along an axis towards `to`: 1 if `to` lies
/// further on, else -1.
pub open spec fn direction(from: isize, to: isize) -> int {
    if to > from {
        1
    } else {
        -1
    }
}

/// The point that follows (`x`, `y`) on the line, and the error that goes
/// with it. The error `e` tells how far the line has strayed from the ideal
/// line; a step along an axis is taken when twice the error allows it.
pub open spec fn next_on_line(x: int, y: int, e: int, dx: int, dy: int, sx: int, sy: int) -> (
    int,
    int,
    int,
) {
    let step_x = e + e > -dy;
    let step_y = e + e < dx;
    (
        if step_x {
            x + sx
        } else {
            x
        },
        if step_y {
            y + sy
        } else {
            y
        },
        e - (if step_x {
            dy
        } else {
            0
        }) + (if step_y {
            dx
        } else {
            0
        }),
    )
}

/// The points of the line from (`x`, `y`) to (`x1`, `y1`), at most `fuel`
/// steps long.
pub open spec fn walk(
    x: int,
    y: int,
    e: int,
    dx: int,
    dy: int,
    sx: int,
    sy: int,
    x1: int,
    y1: int,
    fuel: nat,
) -> Seq<Point>
    decreases fuel,
{
    if (x == x1 && y == y1) || fuel == 0 {
        seq![Point { x: x as isize, y: y as isize }]
    } else {
        let n = next_on_line(x, y, e, dx, dy, sx, sy);
        seq![Point { x: x as isize, y: y as isize }] + walk(
            n.0,
            n.1,
            n.2,
            dx,
            dy,
            sx,
            sy,
            x1,
            y1,
            (fuel - 1) as nat,
        )
    }
}

/// The points of the line from `from` to `to`, both included: the line
/// drawing of Bresenham, which moves one step along one axis or both at a
/// time and stays as close to the ideal line as it can.
pub open spec fn line(from: Point, to: Point) -> Seq<Point> {
    let dx = spec_abs(to.x - from.x);
    let dy = spec_abs(to.y - from.y);
    walk(
        from.x as int,
        from.y as int,
        dx - dy,
        dx,
        dy,
        direction(from.x, to.x),
        direction(from.y, to.y),
        to.x as int,
        to.y as int,
        (dx + dy) as nat,
    )
}

/// Whether the line from `from` to `to` can be computed in `isize`.
pub open spec fn can_draw(from: Point, to: Point) -> bool {
    4 * (spec_abs(to.x - from.x) + spec_abs(to.y - from.y)) <= isize::MAX
}

/// Tells whether the line from `from` to `to` can be computed in `isize`.
pub fn can_draw_exec(from: Point, to: Point) -> (r: bool)
    ensures
        r == can_draw(from, to),
{
    let dx: i128 = if to.x > from.x {
        to.x as i128 - from.x as i128
    } else {
        from.x as i128 - to.x as i128
    };
    let dy: i128 = if to.y > from.y {
        to.y as i128 - from.y as i128
    } else {
        from.y as i128 - to.y as i128
    };
    4 * (dx + dy) <= isize::MAX as i128
}

/// What holds of the walk after `nx` steps along the first and `ny` steps
/// along the second axis: it has not overshot, and the error is what the
/// steps made it.
pub open spec fn on_course(nx: int, ny: int, e: int, dx: int, dy: int) -> bool {
    &&& 0 <= nx <= dx
    &&& 0 <= ny <= dy
    &&& e == dx - dy - nx * dy + ny * dx
    &&& -2 * (dx + dy) <= e <= 2 * (dx + dy)
}

/// A step of the walk that has not arrived stays on course and comes at
/// least one step nearer.
pub proof fn lemma_step(nx: int, ny: int, e: int, dx: int, dy: int)
    requires
        dx >= 0,
        dy >= 0,
        on_course(nx, ny, e, dx, dy),
        !(nx == dx && ny == dy),
    ensures
        ({
            let step_x = e + e > -dy;
            let step_y = e + e < dx;
            let nx2 = if step_x {
                nx + 1
            } else {
                nx
            };
            let ny2 = if step_y {
                ny + 1
            } else {
                ny
            };
            let e2 = e - (if step_x {
                dy
            } else {
                0
            }) + (if step_y {
                dx
            } else {
                0
            });
            &&& on_course(nx2, ny2, e2, dx, dy)
            &&& (step_x || step_y)
        }),
{
    let step_x = e + e > -dy;
    let step_y = e + e < dx;
    assert((nx + 1) * dy == nx * dy + dy) by (nonlinear_arith);
    assert((ny + 1) * dx == ny * dx + dx) by (nonlinear_arith);
    if nx == dx {
        // The first axis is done: the error forbids another step along it.
        assert(ny < dy);
        assert(dx * dy - ny * dx == dx * (dy - ny)) by (nonlinear_arith);
        assert(dx * (dy - ny) >= dx) by (nonlinear_arith)
            requires
                dx >= 0,
                dy - ny >= 1,
        ;
        assert(!step_x);
    }
    if ny == dy {
        // The second axis is done: the error forbids another step along it.
        assert(nx < dx);
        assert(dy * dx - nx * dy == dy * (dx - nx)) by (nonlinear_arith);
        assert(dy * (dx - nx) >= dy) by (nonlinear_arith)
            requires
                dy >= 0,
                dx - nx >= 1,
        ;
        assert(!step_y);
    }
}

impl Point {
    /// The points of the line from this point to `other`, in order, both
    /// ends included.
    pub fn line_to(&self, other: Point) -> (r: Vec<Point>)
        requires
            can_draw(*self, other),
        ensures
            r@ == line(*self, other),
            r@.len() >= 1,
            r@[0] == *self,
            r@.last() == other,
            r@.len() <= spec_abs(other.x - self.x) + spec_abs(other.y - self.y) + 1,
    {
        let c1 = other;
        let dx: isize = if c1.x > self.x {
            c1.x - self.x
        } else {
            self.x - c1.x
        };
        let dy: isize = if c1.y > self.y {
            c1.y - self.y
        } else {
            self.y - c1.y
        };
        let sx: isize = if c1.x > self.x {
            1
        } else {
            -1
        };
        let sy: isize = if c1.y > self.y {
            1
        } else {
            -1
        };
        let mut c0 = *self;
        let mut e: isize = dx - dy;
        let mut out: Vec<Point> = Vec::new();
        let ghost total = (dx + dy) as nat;
        let ghost mut nx: int = 0;
        let ghost mut ny: int = 0;
        loop
            invariant_except_break
                out@.len() <= nx + ny,
                line(*self, other) == out@ + walk(
                    c0.x as int,
                    c0.y as int,
                    e as int,
                    dx as int,
                    dy as int,
                    sx as int,
                    sy as int,
                    other.x as int,
                    other.y as int,
                    (total - out@.len()) as nat,
                ),
            invariant
                dx == spec_abs(other.x - self.x),
                dy == spec_abs(other.y - self.y),
                sx == direction(self.x, other.x),
                sy == direction(self.y, other.y),
                c1 == other,
                total == dx + dy,
                4 * (dx + dy) <= isize::MAX,
                on_course(nx, ny, e as int, dx as int, dy as int),
                c0.x == self.x + sx * nx,
                c0.y == self.y + sy * ny,
                out@.len() == 0 ==> nx == 0 && ny == 0,
                out@.len() > 0 ==> out@[0] == *self,
            ensures
                line(*self, other) == out@,
                out@.len() >= 1,
                out@.last() == other,
                out@.len() <= nx + ny + 1,
            decreases (dx - nx) + (dy - ny),
        {
            proof {
                assert(sx * nx == if sx == 1 { nx } else { -nx }) by (nonlinear_arith)
                    requires
                        sx == 1 || sx == -1,
                ;
                assert(sy * ny == if sy == 1 { ny } else { -ny }) by (nonlinear_arith)
                    requires
                        sy == 1 || sy == -1,
                ;
                assert(sx * (nx + 1) == sx * nx + sx) by (nonlinear_arith);
                assert(sy * (ny + 1) == sy * ny + sy) by (nonlinear_arith);
            }
            let ghost before = out@;
            let ghost fuel = (total - out@.len()) as nat;
            out.push(c0);
            if c0.x == c1.x && c0.y == c1.y {
                proof {
                    assert(out@ =~= before + seq![c0]);
                    assert(walk(
                        c0.x as int,
                        c0.y as int,
                        e as int,
                        dx as int,
                        dy as int,
                        sx as int,
                        sy as int,
                        other.x as int,
                        other.y as int,
                        fuel,
                    ) =~= seq![c0]);
                }
                break ;
            }
            proof {
                assert(!(nx == dx && ny == dy));
                assert(fuel > 0);
                lemma_step(nx, ny, e as int, dx as int, dy as int);
            }
            let e2 = e + e;
            let ghost old_x = c0.x as int;
            let ghost old_y = c0.y as int;
            let ghost old_e = e as int;
            if e2 > -dy {
                e = e - dy;
                c0.x = c0.x + sx;
                proof {
                    nx = nx + 1;
                }
            }
            if e2 < dx {
                e = e + dx;
                c0.y = c0.y + sy;
                proof {
                    ny = ny + 1;
                }
            }
            proof {
                let n = next_on_line(
                    old_x,
                    old_y,
                    old_e,
                    dx as int,
                    dy as int,
                    sx as int,
                    sy as int,
                );
                assert(n == (c0.x as int, c0.y as int, e as int));
                assert(out@ =~= before + seq![Point { x: old_x as isize, y: old_y as isize }]);
                assert(line(*self, other) =~= out@ + walk(
                    c0.x as int,
                    c0.y as int,
                    e as int,
                    dx as int,
                    dy as int,
                    sx as int,
                    sy as int,
                    other.x as int,
                    other.y as int,
                    (total - out@.len()) as nat,
                ));
            }
        }
        out
    }
}

} // verus!
