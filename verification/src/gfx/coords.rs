//! Points, sizes and rectangles on the integer plane.
//!
//! All arithmetic is exact: an operation whose result would leave the range
//! of `isize` is not to be called, and says so in its precondition.

use vstd::prelude::*;
use vstd::std_specs::convert::FromSpecImpl;
use vstd::std_specs::ops::{AddSpecImpl, DivSpecImpl, MulSpecImpl, SubSpecImpl};

verus! {

/// Whether `v` is a value of `isize`.
pub open spec fn fits(v: int) -> bool {
    isize::MIN <= v <= isize::MAX
}

pub open spec fn spec_abs(val: int) -> int {
    if val >= 0 {
        val
    } else {
        0 - val
    }
}

pub open spec fn spec_min(lhs: int, rhs: int) -> int {
    if lhs < rhs {
        lhs
    } else {
        rhs
    }
}

pub open spec fn spec_max(lhs: int, rhs: int) -> int {
    if lhs > rhs {
        lhs
    } else {
        rhs
    }
}

/// The quotient of `a` by `b`, rounded toward zero.
pub open spec fn trunc_div(a: int, b: int) -> int {
    if a >= 0 {
        a / b
    } else {
        -((-a) / b)
    }
}

/// The absolute value.
pub fn abs(val: isize) -> (r: isize)
    requires
        val != isize::MIN,
    ensures
        r == spec_abs(val as int),
{
    if val >= 0 {
        val
    } else {
        0 - val
    }
}

/// The smaller of two values.
pub fn min(lhs: isize, rhs: isize) -> (r: isize)
    ensures
        r == spec_min(lhs as int, rhs as int),
{
    if lhs < rhs {
        lhs
    } else {
        rhs
    }
}

/// The larger of two values.
pub fn max(lhs: isize, rhs: isize) -> (r: isize)
    ensures
        r == spec_max(lhs as int, rhs as int),
{
    if lhs > rhs {
        lhs
    } else {
        rhs
    }
}

/// A point of the plane.
#[derive(Debug, Copy, Clone, Default, PartialEq, Eq, Structural)]
pub struct Point {
    pub x: isize,
    pub y: isize,
}

/// A movement in the plane: the difference of two points.
#[derive(Debug, Copy, Clone, Default, PartialEq, Eq, Structural)]
pub struct Movement {
    pub x: isize,
    pub y: isize,
}

/// The square of a distance.
#[derive(Debug, Clone, Copy, PartialEq, Eq, Structural, PartialOrd, Ord)]
pub struct Distance2(pub usize);

/// The size of a rectangle.
#[derive(Debug, Copy, Clone, Default, PartialEq, Eq, Structural)]
pub struct Size {
    pub width: isize,
    pub height: isize,
}

/// A rectangle, given by its origin and its size.
#[derive(Debug, Copy, Clone, Default, PartialEq, Eq, Structural)]
pub struct Rect {
    pub origin: Point,
    pub size: Size,
}

/// A rectangle, given by its four edges. The left and the top edge belong to
/// it, the right and the bottom edge do not.
#[derive(Debug, Copy, Clone, Default, PartialEq, Eq, Structural)]
pub struct Coordinates {
    pub left: isize,
    pub top: isize,
    pub right: isize,
    pub bottom: isize,
}

/// Distances from the four edges of a rectangle to the inside.
#[derive(Debug, Copy, Clone, Default, PartialEq, Eq, Structural)]
pub struct EdgeInsets {
    pub top: isize,
    pub left: isize,
    pub bottom: isize,
    pub right: isize,
}

/// What can tell whether it contains a `T`.
pub trait Contains<T> {
    spec fn spec_contains(&self, other: T) -> bool;

    fn contains(&self, other: T) -> (r: bool)
        requires
            self.can_contain(other),
        ensures
            r == self.spec_contains(other),
    ;

    /// What the test needs to be computed without overflow.
    spec fn can_contain(&self, other: T) -> bool;
}

impl Point {
    pub fn new(x: isize, y: isize) -> (r: Self)
        ensures
            r == (Point { x, y }),
    {
        Point { x, y }
    }

    pub fn x(&self) -> (r: isize)
        ensures
            r == self.x,
    {
        self.x
    }

    pub fn y(&self) -> (r: isize)
        ensures
            r == self.y,
    {
        self.y
    }

    /// Exchanges the two coordinates.
    pub fn swap(&mut self)
        ensures
            *final(self) == (Point { x: old(self).y, y: old(self).x }),
    {
        let x = self.x;
        self.x = self.y;
        self.y = x;
    }

    /// The point with the two coordinates exchanged.
    pub fn swapped(&self) -> (r: Self)
        ensures
            r == (Point { x: self.y, y: self.x }),
    {
        Point { x: self.y, y: self.x }
    }

    /// The point at the origin of the plane.
    pub fn zero() -> (r: Self)
        ensures
            r == (Point { x: 0, y: 0 }),
    {
        Point { x: 0, y: 0 }
    }

    pub fn is_zero(&self) -> (r: bool)
        ensures
            r == (self.x == 0 && self.y == 0),
    {
        self.x == 0 && self.y == 0
    }

    /// The square of the distance between two points.
    pub fn distance2(&self, other: Point) -> (r: Distance2)
        requires
            fits(self.x - other.x),
            fits(self.y - other.y),
            fits((self.x - other.x) * (self.x - other.x) + (self.y - other.y) * (self.y - other.y)),
        ensures
            r.0 == (self.x - other.x) * (self.x - other.x) + (self.y - other.y) * (self.y
                - other.y),
    {
        let m = Movement { x: self.x - other.x, y: self.y - other.y };
        m.distance2()
    }
}

impl Movement {
    pub fn new(x: isize, y: isize) -> (r: Self)
        ensures
            r == (Movement { x, y }),
    {
        Movement { x, y }
    }

    pub fn x(&self) -> (r: isize)
        ensures
            r == self.x,
    {
        self.x
    }

    pub fn y(&self) -> (r: isize)
        ensures
            r == self.y,
    {
        self.y
    }

    /// Exchanges the two components.
    pub fn swap(&mut self)
        ensures
            *final(self) == (Movement { x: old(self).y, y: old(self).x }),
    {
        let x = self.x;
        self.x = self.y;
        self.y = x;
    }

    /// The movement with the two components exchanged.
    pub fn swapped(&self) -> (r: Self)
        ensures
            r == (Movement { x: self.y, y: self.x }),
    {
        Movement { x: self.y, y: self.x }
    }

    /// The square of the length of the movement.
    pub fn distance2(&self) -> (r: Distance2)
        requires
            fits(self.x * self.x + self.y * self.y),
        ensures
            r.0 == self.x * self.x + self.y * self.y,
    {
        assert(self.x * self.x >= 0 && self.y * self.y >= 0) by (nonlinear_arith);
        let xx = self.x * self.x;
        let yy = self.y * self.y;
        Distance2((xx + yy) as usize)
    }

    /// The movement that moves nothing.
    pub fn zero() -> (r: Self)
        ensures
            r == (Movement { x: 0, y: 0 }),
    {
        Movement { x: 0, y: 0 }
    }

    pub fn is_zero(&self) -> (r: bool)
        ensures
            r == (self.x == 0 && self.y == 0),
    {
        self.x == 0 && self.y == 0
    }
}

impl From<Point> for Movement {
    fn from(v: Point) -> (r: Movement) {
        Movement { x: v.x, y: v.y }
    }
}

impl FromSpecImpl<Point> for Movement {
    open spec fn obeys_from_spec() -> bool {
        true
    }

    open spec fn from_spec(v: Point) -> Movement {
        Movement { x: v.x, y: v.y }
    }
}

impl From<Movement> for Point {
    fn from(v: Movement) -> (r: Point) {
        Point { x: v.x, y: v.y }
    }
}

impl FromSpecImpl<Movement> for Point {
    open spec fn obeys_from_spec() -> bool {
        true
    }

    open spec fn from_spec(v: Movement) -> Point {
        Point { x: v.x, y: v.y }
    }
}

impl Distance2 {
    /// The square of a distance along one axis.
    pub fn from_scalar(v: isize) -> (r: Self)
        requires
            fits(v * v),
        ensures
            r.0 == v * v,
    {
        assert(v * v >= 0) by (nonlinear_arith);
        Distance2((v * v) as usize)
    }
}

impl Size {
    pub fn new(width: isize, height: isize) -> (r: Self)
        ensures
            r == (Size { width, height }),
    {
        Size { width, height }
    }

    pub fn width(&self) -> (r: isize)
        ensures
            r == self.width,
    {
        self.width
    }

    pub fn height(&self) -> (r: isize)
        ensures
            r == self.height,
    {
        self.height
    }

    /// The rectangle of this size at the origin of the plane. A negative
    /// side is turned round, as `Rect::new` does.
    pub fn bounds(&self) -> (r: Rect)
        requires
            Rect::can_make(0, 0, self.width, self.height),
        ensures
            r == Rect::spec_new(0, 0, self.width, self.height),
    {
        Rect::new(0, 0, self.width, self.height)
    }

    /// Exchanges width and height.
    pub fn swap(&mut self)
        ensures
            *final(self) == (Size { width: old(self).height, height: old(self).width }),
    {
        let w = self.width;
        self.width = self.height;
        self.height = w;
    }

    /// The size with width and height exchanged.
    pub fn swapped(&self) -> (r: Self)
        ensures
            r == (Size { width: self.height, height: self.width }),
    {
        Size { width: self.height, height: self.width }
    }

    /// The size of nothing.
    pub fn zero() -> (r: Self)
        ensures
            r == (Size { width: 0, height: 0 }),
    {
        Size { width: 0, height: 0 }
    }

    pub fn is_zero(&self) -> (r: bool)
        ensures
            r == (self.width == 0 && self.height == 0),
    {
        self.width == 0 && self.height == 0
    }
}

impl Rect {
    /// Whether a rectangle can be made of the given numbers without leaving
    /// the range of `isize`: a negative extent has a positive counterpart,
    /// and the corner it reaches to lies in the range.
    pub open spec fn can_make(x: isize, y: isize, width: isize, height: isize) -> bool {
        &&& width != isize::MIN
        &&& height != isize::MIN
        &&& (width < 0 ==> fits(x + width))
        &&& (height < 0 ==> fits(y + height))
    }

    /// The rectangle with a corner at (`x`, `y`) that extends from there by
    /// `width` and `height`; a negative extent reaches to the left or
    /// upwards. The rectangle made has its origin at the top left and sides
    /// that are not negative.
    pub open spec fn spec_new(x: isize, y: isize, width: isize, height: isize) -> Rect {
        Rect {
            origin: Point {
                x: if width >= 0 {
                    x
                } else {
                    (x + width) as isize
                },
                y: if height >= 0 {
                    y
                } else {
                    (y + height) as isize
                },
            },
            size: Size {
                width: spec_abs(width as int) as isize,
                height: spec_abs(height as int) as isize,
            },
        }
    }

    pub fn new(x: isize, y: isize, width: isize, height: isize) -> (r: Self)
        requires
            Self::can_make(x, y, width, height),
        ensures
            r == Self::spec_new(x, y, width, height),
            r.size.width >= 0,
            r.size.height >= 0,
    {
        Rect {
            origin: Point {
                x: if width >= 0 {
                    x
                } else {
                    x + width
                },
                y: if height >= 0 {
                    y
                } else {
                    y + height
                },
            },
            size: Size { width: abs(width), height: abs(height) },
        }
    }

    /// The rectangle with the two given points at opposite corners.
    pub fn from_diagonal(c1: Point, c2: Point) -> (r: Self)
        requires
            fits(c1.x - c2.x),
            fits(c1.y - c2.y),
            fits(c2.x - c1.x),
            fits(c2.y - c1.y),
        ensures
            r == Coordinates::spec_from_diagonal(c1, c2).as_rect(),
    {
        Self::from_coordinates(Coordinates::from_diagonal(c1, c2))
    }

    /// The rectangle between the given edges.
    pub fn from_coordinates(coods: Coordinates) -> (r: Rect)
        requires
            fits(coods.right - coods.left),
            fits(coods.bottom - coods.top),
        ensures
            r == coods.as_rect(),
    {
        Rect { origin: coods.left_top(), size: coods.size() }
    }

    /// The rectangle that stands for no rectangle: no size, as far from the
    /// origin as can be.
    pub fn void() -> (r: Self)
        ensures
            r == (Rect {
                origin: Point { x: isize::MAX, y: isize::MAX },
                size: Size { width: 0, height: 0 },
            }),
    {
        Rect { origin: Point { x: isize::MAX, y: isize::MAX }, size: Size { width: 0, height: 0 } }
    }

    /// The rectangle of no size at the origin of the plane.
    pub fn zero() -> (r: Self)
        ensures
            r == (Rect { origin: Point { x: 0, y: 0 }, size: Size { width: 0, height: 0 } }),
    {
        Rect { origin: Point { x: 0, y: 0 }, size: Size { width: 0, height: 0 } }
    }

    pub fn is_zero(&self) -> (r: bool)
        ensures
            r == (self.origin.x == 0 && self.origin.y == 0 && self.size.width == 0
                && self.size.height == 0),
    {
        self.origin.is_zero() && self.size.is_zero()
    }

    pub fn origin(&self) -> (r: Point)
        ensures
            r == self.origin,
    {
        self.origin
    }

    pub fn size(&self) -> (r: Size)
        ensures
            r == self.size,
    {
        self.size
    }

    pub fn width(&self) -> (r: isize)
        ensures
            r == self.size.width,
    {
        self.size.width
    }

    pub fn height(&self) -> (r: isize)
        ensures
            r == self.size.height,
    {
        self.size.height
    }

    pub fn min_x(&self) -> (r: isize)
        ensures
            r == self.origin.x,
    {
        self.origin.x
    }

    pub fn max_x(&self) -> (r: isize)
        requires
            fits(self.origin.x + self.size.width),
        ensures
            r == self.origin.x + self.size.width,
    {
        self.origin.x() + self.width()
    }

    /// The middle between the left and the right edge, rounded toward zero.
    pub fn mid_x(&self) -> (r: isize)
        requires
            fits(self.origin.x + self.size.width),
            fits(self.origin.x + self.origin.x + self.size.width),
        ensures
            r == trunc_div(self.origin.x + self.origin.x + self.size.width, 2),
    {
        (self.min_x() + self.max_x()) / 2
    }

    pub fn min_y(&self) -> (r: isize)
        ensures
            r == self.origin.y,
    {
        self.origin.y
    }

    pub fn max_y(&self) -> (r: isize)
        requires
            fits(self.origin.y + self.size.height),
        ensures
            r == self.origin.y + self.size.height,
    {
        self.origin.y() + self.height()
    }

    /// The middle between the top and the bottom edge, rounded toward zero.
    pub fn mid_y(&self) -> (r: isize)
        requires
            fits(self.origin.y + self.size.height),
            fits(self.origin.y + self.origin.y + self.size.height),
        ensures
            r == trunc_div(self.origin.y + self.origin.y + self.size.height, 2),
    {
        (self.min_y() + self.max_y()) / 2
    }

    /// Whether the rectangle can be shrunk by the insets without leaving the
    /// range of `isize`.
    pub open spec fn can_inset_by(self, insets: EdgeInsets) -> bool {
        &&& fits(self.origin.x + insets.left)
        &&& fits(self.origin.y + insets.top)
        &&& fits(insets.left + insets.right)
        &&& fits(insets.top + insets.bottom)
        &&& fits(self.size.width - (insets.left + insets.right))
        &&& fits(self.size.height - (insets.top + insets.bottom))
    }

    /// The rectangle with each edge moved inwards by its inset.
    pub open spec fn spec_insets_by(self, insets: EdgeInsets) -> Rect {
        Rect {
            origin: Point {
                x: (self.origin.x + insets.left) as isize,
                y: (self.origin.y + insets.top) as isize,
            },
            size: Size {
                width: (self.size.width - (insets.left + insets.right)) as isize,
                height: (self.size.height - (insets.top + insets.bottom)) as isize,
            },
        }
    }

    pub fn insets_by(self, insets: EdgeInsets) -> (r: Self)
        requires
            self.can_inset_by(insets),
        ensures
            r == self.spec_insets_by(insets),
    {
        Rect {
            origin: Point { x: self.origin.x + insets.left, y: self.origin.y + insets.top },
            size: Size {
                width: self.size.width - (insets.left + insets.right),
                height: self.size.height - (insets.top + insets.bottom),
            },
        }
    }

    /// Whether the far edges of the rectangle are values of `isize`.
    pub open spec fn spans(self) -> bool {
        fits(self.origin.x + self.size.width) && fits(self.origin.y + self.size.height)
    }

    /// The edges of the rectangle. A negative side is turned round.
    pub open spec fn edges(self) -> Coordinates {
        Coordinates {
            left: if self.size.width > 0 {
                self.origin.x
            } else {
                (self.origin.x + self.size.width) as isize
            },
            right: if self.size.width > 0 {
                (self.origin.x + self.size.width) as isize
            } else {
                self.origin.x
            },
            top: if self.size.height > 0 {
                self.origin.y
            } else {
                (self.origin.y + self.size.height) as isize
            },
            bottom: if self.size.height > 0 {
                (self.origin.y + self.size.height) as isize
            } else {
                self.origin.y
            },
        }
    }

    /// Whether the rectangle has an area.
    pub open spec fn has_area(self) -> bool {
        self.size.width != 0 && self.size.height != 0
    }

    /// Two rectangles overlap when both have an area and share a point.
    pub open spec fn spec_overlaps(self, rhs: Rect) -> bool {
        let cl = self.edges();
        let cr = rhs.edges();
        self.has_area() && rhs.has_area() && cl.left < cr.right && cr.left < cl.right && cl.top
            < cr.bottom && cr.top < cl.bottom
    }

    pub fn overlaps(self, rhs: Self) -> (r: bool)
        requires
            self.spans(),
            rhs.spans(),
        ensures
            r == self.spec_overlaps(rhs),
    {
        let cl = match Coordinates::from_rect(self) {
            Ok(c) => c,
            Err(_) => {
                return false;
            },
        };
        let cr = match Coordinates::from_rect(rhs) {
            Ok(c) => c,
            Err(_) => {
                return false;
            },
        };
        cl.left < cr.right && cr.left < cl.right && cl.top < cr.bottom && cr.top < cl.bottom
    }

    /// The middle of the rectangle, each coordinate rounded toward zero.
    pub fn center(&self) -> (r: Point)
        requires
            fits(self.origin.x + self.size.width),
            fits(self.origin.x + self.origin.x + self.size.width),
            fits(self.origin.y + self.size.height),
            fits(self.origin.y + self.origin.y + self.size.height),
        ensures
            r.x == trunc_div(self.origin.x + self.origin.x + self.size.width, 2),
            r.y == trunc_div(self.origin.y + self.origin.y + self.size.height, 2),
    {
        Point::new(self.mid_x(), self.mid_y())
    }

    /// The rectangle of the same size at the origin of the plane.
    pub fn bounds(&self) -> (r: Rect)
        ensures
            r == (Rect { origin: Point { x: 0, y: 0 }, size: self.size }),
    {
        Rect { origin: Point::new(0, 0), size: self.size }
    }
}

impl Contains<Point> for Rect {
    /// A rectangle contains the points from its left and top edge up to, but
    /// not including, its right and bottom edge; a rectangle without an area
    /// contains nothing.
    open spec fn spec_contains(&self, other: Point) -> bool {
        let c = self.edges();
        self.has_area() && c.left <= other.x && c.right > other.x && c.top <= other.y && c.bottom
            > other.y
    }

    open spec fn can_contain(&self, other: Point) -> bool {
        self.spans()
    }

    fn contains(&self, other: Point) -> (r: bool) {
        match Coordinates::from_rect(*self) {
            Ok(coords) => coords.left <= other.x && coords.right > other.x && coords.top
                <= other.y && coords.bottom > other.y,
            Err(_) => false,
        }
    }
}

impl Contains<Rect> for Rect {
    /// A rectangle contains another when both have an area and none of the
    /// other's edges lies outside.
    open spec fn spec_contains(&self, other: Rect) -> bool {
        let cl = self.edges();
        let cr = other.edges();
        self.has_area() && other.has_area() && cl.left <= cr.left && cl.right >= cr.right
            && cl.top <= cr.top && cl.bottom >= cr.bottom
    }

    open spec fn can_contain(&self, other: Rect) -> bool {
        self.spans() && other.spans()
    }

    fn contains(&self, other: Rect) -> (r: bool) {
        let cl = match Coordinates::from_rect(*self) {
            Ok(c) => c,
            Err(_) => {
                return false;
            },
        };
        let cr = match Coordinates::from_rect(other) {
            Ok(c) => c,
            Err(_) => {
                return false;
            },
        };
        cl.left <= cr.left && cl.right >= cr.right && cl.top <= cr.top && cl.bottom >= cr.bottom
    }
}

impl Coordinates {
    pub fn new(left: isize, top: isize, right: isize, bottom: isize) -> (r: Self)
        ensures
            r == (Coordinates { left, top, right, bottom }),
    {
        Coordinates { left, top, right, bottom }
    }

    /// The coordinates that stand for no rectangle: merging them with any
    /// coordinates gives those.
    pub fn void() -> (r: Self)
        ensures
            r == (Coordinates {
                left: isize::MAX,
                top: isize::MAX,
                right: isize::MIN,
                bottom: isize::MIN,
            }),
    {
        Coordinates { left: isize::MAX, top: isize::MAX, right: isize::MIN, bottom: isize::MIN }
    }

    /// The coordinates with the two given points at opposite corners.
    pub open spec fn spec_from_diagonal(c1: Point, c2: Point) -> Coordinates {
        Coordinates {
            left: spec_min(c1.x as int, c2.x as int) as isize,
            top: spec_min(c1.y as int, c2.y as int) as isize,
            right: spec_max(c1.x as int, c2.x as int) as isize,
            bottom: spec_max(c1.y as int, c2.y as int) as isize,
        }
    }

    pub fn from_diagonal(c1: Point, c2: Point) -> (r: Self)
        ensures
            r == Self::spec_from_diagonal(c1, c2),
            r.left <= r.right,
            r.top <= r.bottom,
    {
        let a = c1.x();
        let b = c2.x();
        let left = min(a, b);
        let right = max(a, b);
        let a = c1.y();
        let b = c2.y();
        let top = min(a, b);
        let bottom = max(a, b);
        Coordinates { left, top, right, bottom }
    }

    pub fn left_top(&self) -> (r: Point)
        ensures
            r == (Point { x: self.left, y: self.top }),
    {
        Point::new(self.left, self.top)
    }

    pub fn right_bottom(&self) -> (r: Point)
        ensures
            r == (Point { x: self.right, y: self.bottom }),
    {
        Point::new(self.right, self.bottom)
    }

    pub fn left_bottom(&self) -> (r: Point)
        ensures
            r == (Point { x: self.left, y: self.bottom }),
    {
        Point::new(self.left, self.bottom)
    }

    pub fn right_top(&self) -> (r: Point)
        ensures
            r == (Point { x: self.right, y: self.top }),
    {
        Point::new(self.right, self.top)
    }

    /// The rectangle between the edges.
    pub open spec fn as_rect(self) -> Rect {
        Rect {
            origin: Point { x: self.left, y: self.top },
            size: Size {
                width: (self.right - self.left) as isize,
                height: (self.bottom - self.top) as isize,
            },
        }
    }

    pub fn size(&self) -> (r: Size)
        requires
            fits(self.right - self.left),
            fits(self.bottom - self.top),
        ensures
            r == self.as_rect().size,
    {
        Size::new(self.right - self.left, self.bottom - self.top)
    }

    /// Coordinates are valid when they enclose an area.
    pub fn is_valid(&self) -> (r: bool)
        ensures
            r == (self.left < self.right && self.top < self.bottom),
    {
        self.left < self.right && self.top < self.bottom
    }

    /// The smallest coordinates that cover both.
    pub open spec fn spec_merged(self, other: Coordinates) -> Coordinates {
        Coordinates {
            left: spec_min(self.left as int, other.left as int) as isize,
            top: spec_min(self.top as int, other.top as int) as isize,
            right: spec_max(self.right as int, other.right as int) as isize,
            bottom: spec_max(self.bottom as int, other.bottom as int) as isize,
        }
    }

    pub fn merged(&self, other: Self) -> (r: Self)
        ensures
            r == self.spec_merged(other),
    {
        Coordinates {
            left: min(self.left, other.left),
            top: min(self.top, other.top),
            right: max(self.right, other.right),
            bottom: max(self.bottom, other.bottom),
        }
    }

    pub fn merge(&mut self, other: Self)
        ensures
            *final(self) == old(self).spec_merged(other),
    {
        *self = self.merged(other);
    }

    /// What both coordinates cover.
    pub open spec fn spec_trimmed(self, other: Coordinates) -> Coordinates {
        Coordinates {
            left: spec_max(self.left as int, other.left as int) as isize,
            top: spec_max(self.top as int, other.top as int) as isize,
            right: spec_min(self.right as int, other.right as int) as isize,
            bottom: spec_min(self.bottom as int, other.bottom as int) as isize,
        }
    }

    pub fn trimmed(&self, other: Self) -> (r: Self)
        ensures
            r == self.spec_trimmed(other),
    {
        Coordinates {
            left: max(self.left, other.left),
            top: max(self.top, other.top),
            right: min(self.right, other.right),
            bottom: min(self.bottom, other.bottom),
        }
    }

    pub fn trim(&mut self, other: Self)
        ensures
            *final(self) == old(self).spec_trimmed(other),
    {
        *self = self.trimmed(other);
    }

    /// The coordinates of the rectangle of the given size at the origin of
    /// the plane.
    pub fn from_size(size: Size) -> (r: Self)
        ensures
            r == (Coordinates { left: 0, top: 0, right: size.width, bottom: size.height }),
    {
        Coordinates { left: 0, top: 0, right: size.width(), bottom: size.height() }
    }

    /// The edges of a rectangle; none for a rectangle without an area.
    pub fn from_rect(rect: Rect) -> (r: Result<Coordinates, ()>)
        requires
            rect.spans(),
        ensures
            r.is_ok() == rect.has_area(),
            r matches Ok(c) ==> c == rect.edges(),
    {
        if rect.size.width == 0 || rect.size.height == 0 {
            Err(())
        } else {
            Ok(Self::from_rect_unchecked(rect))
        }
    }

    /// The edges of a rectangle, whether it has an area or not.
    pub fn from_rect_unchecked(rect: Rect) -> (r: Coordinates)
        requires
            rect.spans(),
        ensures
            r == rect.edges(),
    {
        let left: isize;
        let right: isize;
        if rect.size.width > 0 {
            left = rect.origin.x;
            right = left + rect.size.width;
        } else {
            right = rect.origin.x;
            left = right + rect.size.width;
        }
        let top: isize;
        let bottom: isize;
        if rect.size.height > 0 {
            top = rect.origin.y;
            bottom = top + rect.size.height;
        } else {
            bottom = rect.origin.y;
            top = bottom + rect.size.height;
        }
        Coordinates { left, top, right, bottom }
    }
}

impl EdgeInsets {
    pub fn new(top: isize, left: isize, bottom: isize, right: isize) -> (r: Self)
        ensures
            r == (EdgeInsets { top, left, bottom, right }),
    {
        EdgeInsets { top, left, bottom, right }
    }

    /// The same inset on all four sides.
    pub fn padding_each(value: isize) -> (r: Self)
        ensures
            r == (EdgeInsets { top: value, left: value, bottom: value, right: value }),
    {
        EdgeInsets { top: value, left: value, bottom: value, right: value }
    }

    /// No inset on any side.
    pub fn zero() -> (r: Self)
        ensures
            r == (EdgeInsets { top: 0, left: 0, bottom: 0, right: 0 }),
    {
        EdgeInsets { top: 0, left: 0, bottom: 0, right: 0 }
    }

    pub fn is_zero(&self) -> (r: bool)
        ensures
            r == (self.top == 0 && self.left == 0 && self.bottom == 0 && self.right == 0),
    {
        self.top == 0 && self.left == 0 && self.bottom == 0 && self.right == 0
    }
}

/// Moves a point by the same amount along both axes.
impl core::ops::Add<isize> for Point {
    type Output = Point;

    fn add(self, rhs: isize) -> (r: Point) {
        Point { x: self.x + rhs, y: self.y + rhs }
    }
}

impl AddSpecImpl<isize> for Point {
    open spec fn obeys_add_spec() -> bool {
        true
    }

    open spec fn add_req(self, rhs: isize) -> bool {
        fits(self.x + rhs) && fits(self.y + rhs)
    }

    open spec fn add_spec(self, rhs: isize) -> Point {
        Point { x: (self.x + rhs) as isize, y: (self.y + rhs) as isize }
    }
}

/// Moves a point back by the same amount along both axes.
impl core::ops::Sub<isize> for Point {
    type Output = Point;

    fn sub(self, rhs: isize) -> (r: Point) {
        Point { x: self.x - rhs, y: self.y - rhs }
    }
}

impl SubSpecImpl<isize> for Point {
    open spec fn obeys_sub_spec() -> bool {
        true
    }

    open spec fn sub_req(self, rhs: isize) -> bool {
        fits(self.x - rhs) && fits(self.y - rhs)
    }

    open spec fn sub_spec(self, rhs: isize) -> Point {
        Point { x: (self.x - rhs) as isize, y: (self.y - rhs) as isize }
    }
}

/// The movement that leads from `rhs` to `self`.
impl core::ops::Sub<Point> for Point {
    type Output = Movement;

    fn sub(self, rhs: Point) -> (r: Movement) {
        Movement { x: self.x - rhs.x, y: self.y - rhs.y }
    }
}

impl SubSpecImpl<Point> for Point {
    open spec fn obeys_sub_spec() -> bool {
        true
    }

    open spec fn sub_req(self, rhs: Point) -> bool {
        fits(self.x - rhs.x) && fits(self.y - rhs.y)
    }

    open spec fn sub_spec(self, rhs: Point) -> Movement {
        Movement { x: (self.x - rhs.x) as isize, y: (self.y - rhs.y) as isize }
    }
}

/// One movement after the other.
impl core::ops::Add<Movement> for Movement {
    type Output = Movement;

    fn add(self, rhs: Movement) -> (r: Movement) {
        Movement { x: self.x + rhs.x, y: self.y + rhs.y }
    }
}

impl AddSpecImpl<Movement> for Movement {
    open spec fn obeys_add_spec() -> bool {
        true
    }

    open spec fn add_req(self, rhs: Movement) -> bool {
        fits(self.x + rhs.x) && fits(self.y + rhs.y)
    }

    open spec fn add_spec(self, rhs: Movement) -> Movement {
        Movement { x: (self.x + rhs.x) as isize, y: (self.y + rhs.y) as isize }
    }
}

/// Moves a point.
impl core::ops::Add<Movement> for Point {
    type Output = Point;

    fn add(self, rhs: Movement) -> (r: Point) {
        Point { x: self.x + rhs.x, y: self.y + rhs.y }
    }
}

impl AddSpecImpl<Movement> for Point {
    open spec fn obeys_add_spec() -> bool {
        true
    }

    open spec fn add_req(self, rhs: Movement) -> bool {
        fits(self.x + rhs.x) && fits(self.y + rhs.y)
    }

    open spec fn add_spec(self, rhs: Movement) -> Point {
        Point { x: (self.x + rhs.x) as isize, y: (self.y + rhs.y) as isize }
    }
}

/// The difference of two movements.
impl core::ops::Sub<Movement> for Movement {
    type Output = Movement;

    fn sub(self, rhs: Movement) -> (r: Movement) {
        Movement { x: self.x - rhs.x, y: self.y - rhs.y }
    }
}

impl SubSpecImpl<Movement> for Movement {
    open spec fn obeys_sub_spec() -> bool {
        true
    }

    open spec fn sub_req(self, rhs: Movement) -> bool {
        fits(self.x - rhs.x) && fits(self.y - rhs.y)
    }

    open spec fn sub_spec(self, rhs: Movement) -> Movement {
        Movement { x: (self.x - rhs.x) as isize, y: (self.y - rhs.y) as isize }
    }
}

/// Moves a point back.
impl core::ops::Sub<Movement> for Point {
    type Output = Point;

    fn sub(self, rhs: Movement) -> (r: Point) {
        Point { x: self.x - rhs.x, y: self.y - rhs.y }
    }
}

impl SubSpecImpl<Movement> for Point {
    open spec fn obeys_sub_spec() -> bool {
        true
    }

    open spec fn sub_req(self, rhs: Movement) -> bool {
        fits(self.x - rhs.x) && fits(self.y - rhs.y)
    }

    open spec fn sub_spec(self, rhs: Movement) -> Point {
        Point { x: (self.x - rhs.x) as isize, y: (self.y - rhs.y) as isize }
    }
}

/// Moves a rectangle.
impl core::ops::Add<Movement> for Rect {
    type Output = Rect;

    fn add(self, rhs: Movement) -> (r: Rect) {
        Rect { origin: Point { x: self.origin.x + rhs.x, y: self.origin.y + rhs.y }, size: self.size }
    }
}

impl AddSpecImpl<Movement> for Rect {
    open spec fn obeys_add_spec() -> bool {
        true
    }

    open spec fn add_req(self, rhs: Movement) -> bool {
        fits(self.origin.x + rhs.x) && fits(self.origin.y + rhs.y)
    }

    open spec fn add_spec(self, rhs: Movement) -> Rect {
        Rect { origin: Point { x: (self.origin.x + rhs.x) as isize, y: (self.origin.y + rhs.y) as isize }, size: self.size }
    }
}

/// Moves a rectangle back.
impl core::ops::Sub<Movement> for Rect {
    type Output = Rect;

    fn sub(self, rhs: Movement) -> (r: Rect) {
        Rect { origin: Point { x: self.origin.x - rhs.x, y: self.origin.y - rhs.y }, size: self.size }
    }
}

impl SubSpecImpl<Movement> for Rect {
    open spec fn obeys_sub_spec() -> bool {
        true
    }

    open spec fn sub_req(self, rhs: Movement) -> bool {
        fits(self.origin.x - rhs.x) && fits(self.origin.y - rhs.y)
    }

    open spec fn sub_spec(self, rhs: Movement) -> Rect {
        Rect { origin: Point { x: (self.origin.x - rhs.x) as isize, y: (self.origin.y - rhs.y) as isize }, size: self.size }
    }
}

/// The sum of two sizes.
impl core::ops::Add<Size> for Size {
    type Output = Size;

    fn add(self, rhs: Size) -> (r: Size) {
        Size { width: self.width + rhs.width, height: self.height + rhs.height }
    }
}

impl AddSpecImpl<Size> for Size {
    open spec fn obeys_add_spec() -> bool {
        true
    }

    open spec fn add_req(self, rhs: Size) -> bool {
        fits(self.width + rhs.width) && fits(self.height + rhs.height)
    }

    open spec fn add_spec(self, rhs: Size) -> Size {
        Size { width: (self.width + rhs.width) as isize, height: (self.height + rhs.height) as isize }
    }
}

/// A size grown by insets on all four sides.
impl core::ops::Add<EdgeInsets> for Size {
    type Output = Size;

    fn add(self, rhs: EdgeInsets) -> (r: Size) {
        Size { width: self.width + rhs.left + rhs.right, height: self.height + rhs.top + rhs.bottom }
    }
}

impl AddSpecImpl<EdgeInsets> for Size {
    open spec fn obeys_add_spec() -> bool {
        true
    }

    open spec fn add_req(self, rhs: EdgeInsets) -> bool {
        fits(self.width + rhs.left) && fits(self.width + rhs.left + rhs.right) && fits(self.height + rhs.top) && fits(self.height + rhs.top + rhs.bottom)
    }

    open spec fn add_spec(self, rhs: EdgeInsets) -> Size {
        Size { width: (self.width + rhs.left + rhs.right) as isize, height: (self.height + rhs.top + rhs.bottom) as isize }
    }
}

/// The difference of two sizes.
impl core::ops::Sub<Size> for Size {
    type Output = Size;

    fn sub(self, rhs: Size) -> (r: Size) {
        Size { width: self.width - rhs.width, height: self.height - rhs.height }
    }
}

impl SubSpecImpl<Size> for Size {
    open spec fn obeys_sub_spec() -> bool {
        true
    }

    open spec fn sub_req(self, rhs: Size) -> bool {
        fits(self.width - rhs.width) && fits(self.height - rhs.height)
    }

    open spec fn sub_spec(self, rhs: Size) -> Size {
        Size { width: (self.width - rhs.width) as isize, height: (self.height - rhs.height) as isize }
    }
}

/// A size shrunk by insets: the width by twice the left inset, the height by the top and the bottom inset.
impl core::ops::Sub<EdgeInsets> for Size {
    type Output = Size;

    fn sub(self, rhs: EdgeInsets) -> (r: Size) {
        Size { width: self.width - (rhs.left + rhs.left), height: self.height - (rhs.top + rhs.bottom) }
    }
}

impl SubSpecImpl<EdgeInsets> for Size {
    open spec fn obeys_sub_spec() -> bool {
        true
    }

    open spec fn sub_req(self, rhs: EdgeInsets) -> bool {
        fits(rhs.left + rhs.left) && fits(self.width - (rhs.left + rhs.left)) && fits(rhs.top + rhs.bottom) && fits(self.height - (rhs.top + rhs.bottom))
    }

    open spec fn sub_spec(self, rhs: EdgeInsets) -> Size {
        Size { width: (self.width - (rhs.left + rhs.left)) as isize, height: (self.height - (rhs.top + rhs.bottom)) as isize }
    }
}

/// The product of two sizes, side by side.
impl core::ops::Mul<Size> for Size {
    type Output = Size;

    fn mul(self, rhs: Size) -> (r: Size) {
        Size { width: self.width * rhs.width, height: self.height * rhs.height }
    }
}

impl MulSpecImpl<Size> for Size {
    open spec fn obeys_mul_spec() -> bool {
        true
    }

    open spec fn mul_req(self, rhs: Size) -> bool {
        fits(self.width * rhs.width) && fits(self.height * rhs.height)
    }

    open spec fn mul_spec(self, rhs: Size) -> Size {
        Size { width: (self.width * rhs.width) as isize, height: (self.height * rhs.height) as isize }
    }
}

/// A size scaled by a factor.
impl core::ops::Mul<isize> for Size {
    type Output = Size;

    fn mul(self, rhs: isize) -> (r: Size) {
        Size { width: self.width * rhs, height: self.height * rhs }
    }
}

impl MulSpecImpl<isize> for Size {
    open spec fn obeys_mul_spec() -> bool {
        true
    }

    open spec fn mul_req(self, rhs: isize) -> bool {
        fits(self.width * rhs) && fits(self.height * rhs)
    }

    open spec fn mul_spec(self, rhs: isize) -> Size {
        Size { width: (self.width * rhs) as isize, height: (self.height * rhs) as isize }
    }
}

/// A size scaled by a factor.
impl core::ops::Mul<usize> for Size {
    type Output = Size;

    fn mul(self, rhs: usize) -> (r: Size) {
        Size { width: self.width * (rhs as isize), height: self.height * (rhs as isize) }
    }
}

impl MulSpecImpl<usize> for Size {
    open spec fn obeys_mul_spec() -> bool {
        true
    }

    open spec fn mul_req(self, rhs: usize) -> bool {
        rhs <= isize::MAX && fits(self.width * rhs) && fits(self.height * rhs)
    }

    open spec fn mul_spec(self, rhs: usize) -> Size {
        Size { width: (self.width * rhs) as isize, height: (self.height * rhs) as isize }
    }
}

/// A rectangle grown by a size.
impl core::ops::Add<Size> for Rect {
    type Output = Rect;

    fn add(self, rhs: Size) -> (r: Rect) {
        Rect { origin: self.origin, size: Size { width: self.size.width + rhs.width, height: self.size.height + rhs.height } }
    }
}

impl AddSpecImpl<Size> for Rect {
    open spec fn obeys_add_spec() -> bool {
        true
    }

    open spec fn add_req(self, rhs: Size) -> bool {
        fits(self.size.width + rhs.width) && fits(self.size.height + rhs.height)
    }

    open spec fn add_spec(self, rhs: Size) -> Rect {
        Rect { origin: self.origin, size: Size { width: (self.size.width + rhs.width) as isize, height: (self.size.height + rhs.height) as isize } }
    }
}

/// A rectangle shrunk by a size.
impl core::ops::Sub<Size> for Rect {
    type Output = Rect;

    fn sub(self, rhs: Size) -> (r: Rect) {
        Rect { origin: self.origin, size: Size { width: self.size.width - rhs.width, height: self.size.height - rhs.height } }
    }
}

impl SubSpecImpl<Size> for Rect {
    open spec fn obeys_sub_spec() -> bool {
        true
    }

    open spec fn sub_req(self, rhs: Size) -> bool {
        fits(self.size.width - rhs.width) && fits(self.size.height - rhs.height)
    }

    open spec fn sub_spec(self, rhs: Size) -> Rect {
        Rect { origin: self.origin, size: Size { width: (self.size.width - rhs.width) as isize, height: (self.size.height - rhs.height) as isize } }
    }
}

/// A rectangle grown by insets on all four sides.
impl core::ops::Add<EdgeInsets> for Rect {
    type Output = Rect;

    fn add(self, rhs: EdgeInsets) -> (r: Rect) {
        Rect {
            origin: Point { x: self.origin.x - rhs.left, y: self.origin.y - rhs.top },
            size: Size {
                width: self.size.width + (rhs.left + rhs.right),
                height: self.size.height + (rhs.top + rhs.bottom),
            },
        }
    }
}

impl AddSpecImpl<EdgeInsets> for Rect {
    open spec fn obeys_add_spec() -> bool {
        true
    }

    open spec fn add_req(self, rhs: EdgeInsets) -> bool {
        fits(self.origin.x - rhs.left) && fits(self.origin.y - rhs.top) && fits(rhs.left + rhs.right) && fits(rhs.top + rhs.bottom) && fits(self.size.width + (rhs.left + rhs.right)) && fits(self.size.height + (rhs.top + rhs.bottom))
    }

    open spec fn add_spec(self, rhs: EdgeInsets) -> Rect {
        Rect {
            origin: Point {
                x: (self.origin.x - rhs.left) as isize,
                y: (self.origin.y - rhs.top) as isize,
            },
            size: Size {
                width: (self.size.width + (rhs.left + rhs.right)) as isize,
                height: (self.size.height + (rhs.top + rhs.bottom)) as isize,
            },
        }
    }
}

/// A rectangle shrunk by insets on all four sides.
impl core::ops::Sub<EdgeInsets> for Rect {
    type Output = Rect;

    fn sub(self, rhs: EdgeInsets) -> (r: Rect) {
        self.insets_by(rhs)
    }
}

impl SubSpecImpl<EdgeInsets> for Rect {
    open spec fn obeys_sub_spec() -> bool {
        true
    }

    open spec fn sub_req(self, rhs: EdgeInsets) -> bool {
        self.can_inset_by(rhs)
    }

    open spec fn sub_spec(self, rhs: EdgeInsets) -> Rect {
        self.spec_insets_by(rhs)
    }
}

/// A rectangle scaled by a factor about the origin of the plane.
impl core::ops::Mul<isize> for Rect {
    type Output = Rect;

    fn mul(self, rhs: isize) -> (r: Rect) {
        Rect::new(self.origin.x * rhs, self.origin.y * rhs, self.size.width * rhs, self.size.height * rhs)
    }
}

impl MulSpecImpl<isize> for Rect {
    open spec fn obeys_mul_spec() -> bool {
        true
    }

    open spec fn mul_req(self, rhs: isize) -> bool {
        fits(self.origin.x * rhs) && fits(self.origin.y * rhs) && fits(self.size.width * rhs) && fits(self.size.height * rhs) && Rect::can_make((self.origin.x * rhs) as isize, (self.origin.y * rhs) as isize, (self.size.width * rhs) as isize, (self.size.height * rhs) as isize)
    }

    open spec fn mul_spec(self, rhs: isize) -> Rect {
        Rect::spec_new((self.origin.x * rhs) as isize, (self.origin.y * rhs) as isize, (self.size.width * rhs) as isize, (self.size.height * rhs) as isize)
    }
}

/// A rectangle scaled by a factor about the origin of the plane.
impl core::ops::Mul<usize> for Rect {
    type Output = Rect;

    fn mul(self, rhs: usize) -> (r: Rect) {
        Rect::new(self.origin.x * (rhs as isize), self.origin.y * (rhs as isize), self.size.width * (rhs as isize), self.size.height * (rhs as isize))
    }
}

impl MulSpecImpl<usize> for Rect {
    open spec fn obeys_mul_spec() -> bool {
        true
    }

    open spec fn mul_req(self, rhs: usize) -> bool {
        rhs <= isize::MAX && fits(self.origin.x * rhs) && fits(self.origin.y * rhs) && fits(self.size.width * rhs) && fits(self.size.height * rhs) && Rect::can_make((self.origin.x * rhs) as isize, (self.origin.y * rhs) as isize, (self.size.width * rhs) as isize, (self.size.height * rhs) as isize)
    }

    open spec fn mul_spec(self, rhs: usize) -> Rect {
        Rect::spec_new((self.origin.x * rhs) as isize, (self.origin.y * rhs) as isize, (self.size.width * rhs) as isize, (self.size.height * rhs) as isize)
    }
}

/// The smallest coordinates that cover both.
impl core::ops::Add<Coordinates> for Coordinates {
    type Output = Coordinates;

    fn add(self, rhs: Coordinates) -> (r: Coordinates) {
        self.merged(rhs)
    }
}

impl AddSpecImpl<Coordinates> for Coordinates {
    open spec fn obeys_add_spec() -> bool {
        true
    }

    open spec fn add_req(self, rhs: Coordinates) -> bool {
        true
    }

    open spec fn add_spec(self, rhs: Coordinates) -> Coordinates {
        self.spec_merged(rhs)
    }
}

/// The sum of two insets, side by side.
impl core::ops::Add<EdgeInsets> for EdgeInsets {
    type Output = EdgeInsets;

    fn add(self, rhs: EdgeInsets) -> (r: EdgeInsets) {
        EdgeInsets { top: self.top + rhs.top, left: self.left + rhs.left, bottom: self.bottom + rhs.bottom, right: self.right + rhs.right }
    }
}

impl AddSpecImpl<EdgeInsets> for EdgeInsets {
    open spec fn obeys_add_spec() -> bool {
        true
    }

    open spec fn add_req(self, rhs: EdgeInsets) -> bool {
        fits(self.top + rhs.top) && fits(self.left + rhs.left) && fits(self.bottom + rhs.bottom) && fits(self.right + rhs.right)
    }

    open spec fn add_spec(self, rhs: EdgeInsets) -> EdgeInsets {
        EdgeInsets { top: (self.top + rhs.top) as isize, left: (self.left + rhs.left) as isize, bottom: (self.bottom + rhs.bottom) as isize, right: (self.right + rhs.right) as isize }
    }
}

/// The difference of two insets, side by side.
impl core::ops::Sub<EdgeInsets> for EdgeInsets {
    type Output = EdgeInsets;

    fn sub(self, rhs: EdgeInsets) -> (r: EdgeInsets) {
        EdgeInsets { top: self.top - rhs.top, left: self.left - rhs.left, bottom: self.bottom - rhs.bottom, right: self.right - rhs.right }
    }
}

impl SubSpecImpl<EdgeInsets> for EdgeInsets {
    open spec fn obeys_sub_spec() -> bool {
        true
    }

    open spec fn sub_req(self, rhs: EdgeInsets) -> bool {
        fits(self.top - rhs.top) && fits(self.left - rhs.left) && fits(self.bottom - rhs.bottom) && fits(self.right - rhs.right)
    }

    open spec fn sub_spec(self, rhs: EdgeInsets) -> EdgeInsets {
        EdgeInsets { top: (self.top - rhs.top) as isize, left: (self.left - rhs.left) as isize, bottom: (self.bottom - rhs.bottom) as isize, right: (self.right - rhs.right) as isize }
    }
}

/// A size divided by a number, each side rounded toward zero.
impl core::ops::Div<isize> for Size {
    type Output = Size;

    fn div(self, rhs: isize) -> (r: Size) {
        Size { width: self.width / rhs, height: self.height / rhs }
    }
}

impl DivSpecImpl<isize> for Size {
    open spec fn obeys_div_spec() -> bool {
        true
    }

    open spec fn div_req(self, rhs: isize) -> bool {
        rhs != 0 && !(rhs == -1 && (self.width == isize::MIN || self.height == isize::MIN))
    }

    open spec fn div_spec(self, rhs: isize) -> Size {
        Size {
            width: trunc_div(self.width as int, rhs as int) as isize,
            height: trunc_div(self.height as int, rhs as int) as isize,
        }
    }
}

/// A size divided by a number, each side rounded toward zero.
impl core::ops::Div<usize> for Size {
    type Output = Size;

    fn div(self, rhs: usize) -> (r: Size) {
        Size { width: self.width / (rhs as isize), height: self.height / (rhs as isize) }
    }
}

impl DivSpecImpl<usize> for Size {
    open spec fn obeys_div_spec() -> bool {
        true
    }

    open spec fn div_req(self, rhs: usize) -> bool {
        0 < rhs <= isize::MAX
    }

    open spec fn div_spec(self, rhs: usize) -> Size {
        Size {
            width: trunc_div(self.width as int, rhs as int) as isize,
            height: trunc_div(self.height as int, rhs as int) as isize,
        }
    }
}

impl From<Size> for Coordinates {
    fn from(size: Size) -> (r: Coordinates) {
        Coordinates::from_size(size)
    }
}

impl FromSpecImpl<Size> for Coordinates {
    open spec fn obeys_from_spec() -> bool {
        true
    }

    open spec fn from_spec(size: Size) -> Coordinates {
        Coordinates { left: 0, top: 0, right: size.width, bottom: size.height }
    }
}

/// Moves the point by the same amount along both axes.
impl core::ops::AddAssign<isize> for Point {
    fn add_assign(&mut self, rhs: isize)
        requires
            vstd::std_specs::ops::AddSpec::add_req(*old(self), rhs),
        ensures
            *final(self) == vstd::std_specs::ops::AddSpec::add_spec(*old(self), rhs),
    {
        *self = *self + rhs;
    }
}

/// Moves the point back by the same amount along both axes.
impl core::ops::SubAssign<isize> for Point {
    fn sub_assign(&mut self, rhs: isize)
        requires
            vstd::std_specs::ops::SubSpec::sub_req(*old(self), rhs),
        ensures
            *final(self) == vstd::std_specs::ops::SubSpec::sub_spec(*old(self), rhs),
    {
        *self = *self - rhs;
    }
}

/// Adds a movement.
impl core::ops::AddAssign<Movement> for Movement {
    fn add_assign(&mut self, rhs: Movement)
        requires
            vstd::std_specs::ops::AddSpec::add_req(*old(self), rhs),
        ensures
            *final(self) == vstd::std_specs::ops::AddSpec::add_spec(*old(self), rhs),
    {
        *self = *self + rhs;
    }
}

/// Moves the point.
impl core::ops::AddAssign<Movement> for Point {
    fn add_assign(&mut self, rhs: Movement)
        requires
            vstd::std_specs::ops::AddSpec::add_req(*old(self), rhs),
        ensures
            *final(self) == vstd::std_specs::ops::AddSpec::add_spec(*old(self), rhs),
    {
        *self = *self + rhs;
    }
}

/// Moves the rectangle.
impl core::ops::AddAssign<Movement> for Rect {
    fn add_assign(&mut self, rhs: Movement)
        requires
            vstd::std_specs::ops::AddSpec::add_req(*old(self), rhs),
        ensures
            *final(self) == vstd::std_specs::ops::AddSpec::add_spec(*old(self), rhs),
    {
        *self = *self + rhs;
    }
}

/// Takes a movement away.
impl core::ops::SubAssign<Movement> for Movement {
    fn sub_assign(&mut self, rhs: Movement)
        requires
            vstd::std_specs::ops::SubSpec::sub_req(*old(self), rhs),
        ensures
            *final(self) == vstd::std_specs::ops::SubSpec::sub_spec(*old(self), rhs),
    {
        *self = *self - rhs;
    }
}

/// Moves the point back.
impl core::ops::SubAssign<Movement> for Point {
    fn sub_assign(&mut self, rhs: Movement)
        requires
            vstd::std_specs::ops::SubSpec::sub_req(*old(self), rhs),
        ensures
            *final(self) == vstd::std_specs::ops::SubSpec::sub_spec(*old(self), rhs),
    {
        *self = *self - rhs;
    }
}

/// Moves the rectangle back.
impl core::ops::SubAssign<Movement> for Rect {
    fn sub_assign(&mut self, rhs: Movement)
        requires
            vstd::std_specs::ops::SubSpec::sub_req(*old(self), rhs),
        ensures
            *final(self) == vstd::std_specs::ops::SubSpec::sub_spec(*old(self), rhs),
    {
        *self = *self - rhs;
    }
}

/// Grows the size.
impl core::ops::AddAssign<Size> for Size {
    fn add_assign(&mut self, rhs: Size)
        requires
            vstd::std_specs::ops::AddSpec::add_req(*old(self), rhs),
        ensures
            *final(self) == vstd::std_specs::ops::AddSpec::add_spec(*old(self), rhs),
    {
        *self = *self + rhs;
    }
}

/// Grows the size by insets.
impl core::ops::AddAssign<EdgeInsets> for Size {
    fn add_assign(&mut self, rhs: EdgeInsets)
        requires
            vstd::std_specs::ops::AddSpec::add_req(*old(self), rhs),
        ensures
            *final(self) == vstd::std_specs::ops::AddSpec::add_spec(*old(self), rhs),
    {
        *self = *self + rhs;
    }
}

/// Shrinks the size.
impl core::ops::SubAssign<Size> for Size {
    fn sub_assign(&mut self, rhs: Size)
        requires
            vstd::std_specs::ops::SubSpec::sub_req(*old(self), rhs),
        ensures
            *final(self) == vstd::std_specs::ops::SubSpec::sub_spec(*old(self), rhs),
    {
        *self = *self - rhs;
    }
}

/// Shrinks the size by insets.
impl core::ops::SubAssign<EdgeInsets> for Size {
    fn sub_assign(&mut self, rhs: EdgeInsets)
        requires
            vstd::std_specs::ops::SubSpec::sub_req(*old(self), rhs),
        ensures
            *final(self) == vstd::std_specs::ops::SubSpec::sub_spec(*old(self), rhs),
    {
        *self = *self - rhs;
    }
}

/// Multiplies the size side by side.
impl core::ops::MulAssign<Size> for Size {
    fn mul_assign(&mut self, rhs: Size)
        requires
            vstd::std_specs::ops::MulSpec::mul_req(*old(self), rhs),
        ensures
            *final(self) == vstd::std_specs::ops::MulSpec::mul_spec(*old(self), rhs),
    {
        *self = *self * rhs;
    }
}

/// Scales the size.
impl core::ops::MulAssign<isize> for Size {
    fn mul_assign(&mut self, rhs: isize)
        requires
            vstd::std_specs::ops::MulSpec::mul_req(*old(self), rhs),
        ensures
            *final(self) == vstd::std_specs::ops::MulSpec::mul_spec(*old(self), rhs),
    {
        *self = *self * rhs;
    }
}

/// Scales the size.
impl core::ops::MulAssign<usize> for Size {
    fn mul_assign(&mut self, rhs: usize)
        requires
            vstd::std_specs::ops::MulSpec::mul_req(*old(self), rhs),
        ensures
            *final(self) == vstd::std_specs::ops::MulSpec::mul_spec(*old(self), rhs),
    {
        *self = *self * rhs;
    }
}

/// Divides the size.
impl core::ops::DivAssign<isize> for Size {
    fn div_assign(&mut self, rhs: isize)
        requires
            vstd::std_specs::ops::DivSpec::div_req(*old(self), rhs),
        ensures
            *final(self) == vstd::std_specs::ops::DivSpec::div_spec(*old(self), rhs),
    {
        *self = *self / rhs;
    }
}

/// Divides the size.
impl core::ops::DivAssign<usize> for Size {
    fn div_assign(&mut self, rhs: usize)
        requires
            vstd::std_specs::ops::DivSpec::div_req(*old(self), rhs),
        ensures
            *final(self) == vstd::std_specs::ops::DivSpec::div_spec(*old(self), rhs),
    {
        *self = *self / rhs;
    }
}

/// Grows the rectangle by a size.
impl core::ops::AddAssign<Size> for Rect {
    fn add_assign(&mut self, rhs: Size)
        requires
            vstd::std_specs::ops::AddSpec::add_req(*old(self), rhs),
        ensures
            *final(self) == vstd::std_specs::ops::AddSpec::add_spec(*old(self), rhs),
    {
        *self = *self + rhs;
    }
}

/// Shrinks the rectangle by a size.
impl core::ops::SubAssign<Size> for Rect {
    fn sub_assign(&mut self, rhs: Size)
        requires
            vstd::std_specs::ops::SubSpec::sub_req(*old(self), rhs),
        ensures
            *final(self) == vstd::std_specs::ops::SubSpec::sub_spec(*old(self), rhs),
    {
        *self = *self - rhs;
    }
}

/// Grows the rectangle by insets.
impl core::ops::AddAssign<EdgeInsets> for Rect {
    fn add_assign(&mut self, rhs: EdgeInsets)
        requires
            vstd::std_specs::ops::AddSpec::add_req(*old(self), rhs),
        ensures
            *final(self) == vstd::std_specs::ops::AddSpec::add_spec(*old(self), rhs),
    {
        *self = *self + rhs;
    }
}

/// Shrinks the rectangle by insets.
impl core::ops::SubAssign<EdgeInsets> for Rect {
    fn sub_assign(&mut self, rhs: EdgeInsets)
        requires
            vstd::std_specs::ops::SubSpec::sub_req(*old(self), rhs),
        ensures
            *final(self) == vstd::std_specs::ops::SubSpec::sub_spec(*old(self), rhs),
    {
        *self = *self - rhs;
    }
}

/// Scales the rectangle.
impl core::ops::MulAssign<isize> for Rect {
    fn mul_assign(&mut self, rhs: isize)
        requires
            vstd::std_specs::ops::MulSpec::mul_req(*old(self), rhs),
        ensures
            *final(self) == vstd::std_specs::ops::MulSpec::mul_spec(*old(self), rhs),
    {
        *self = *self * rhs;
    }
}

/// Scales the rectangle.
impl core::ops::MulAssign<usize> for Rect {
    fn mul_assign(&mut self, rhs: usize)
        requires
            vstd::std_specs::ops::MulSpec::mul_req(*old(self), rhs),
        ensures
            *final(self) == vstd::std_specs::ops::MulSpec::mul_spec(*old(self), rhs),
    {
        *self = *self * rhs;
    }
}

/// Widens the coordinates to cover the others too.
impl core::ops::AddAssign<Coordinates> for Coordinates {
    fn add_assign(&mut self, rhs: Coordinates)
        requires
            vstd::std_specs::ops::AddSpec::add_req(*old(self), rhs),
        ensures
            *final(self) == vstd::std_specs::ops::AddSpec::add_spec(*old(self), rhs),
    {
        *self = *self + rhs;
    }
}

/// Adds insets side by side.
impl core::ops::AddAssign<EdgeInsets> for EdgeInsets {
    fn add_assign(&mut self, rhs: EdgeInsets)
        requires
            vstd::std_specs::ops::AddSpec::add_req(*old(self), rhs),
        ensures
            *final(self) == vstd::std_specs::ops::AddSpec::add_spec(*old(self), rhs),
    {
        *self = *self + rhs;
    }
}

/// Takes insets away side by side.
impl core::ops::SubAssign<EdgeInsets> for EdgeInsets {
    fn sub_assign(&mut self, rhs: EdgeInsets)
        requires
            vstd::std_specs::ops::SubSpec::sub_req(*old(self), rhs),
        ensures
            *final(self) == vstd::std_specs::ops::SubSpec::sub_spec(*old(self), rhs),
    {
        *self = *self - rhs;
    }
}

} // verus!
