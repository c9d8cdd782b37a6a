//! The plain coordinate types of the early graphics code. A rectangle here
//! is taken as it is given: its sides may be negative.

use vstd::prelude::*;
use vstd::std_specs::ops::{AddSpecImpl, SubSpecImpl};
use crate::gfx::coords::fits;

verus! {

#[derive(Debug, Copy, Clone, Default, PartialEq, Eq, Structural)]
pub struct Point {
    pub x: isize,
    pub y: isize,
}

#[derive(Debug, Copy, Clone, Default, PartialEq, Eq, Structural)]
pub struct Size {
    pub width: isize,
    pub height: isize,
}

#[derive(Debug, Copy, Clone, Default, PartialEq, Eq, Structural)]
pub struct Rect {
    pub origin: Point,
    pub size: Size,
}

/// A rectangle by its edges.
#[derive(Debug, Copy, Clone, Default, PartialEq, Eq, Structural)]
pub struct Coodinates {
    pub left: isize,
    pub top: isize,
    pub right: isize,
    pub bottom: isize,
}

#[derive(Debug, Copy, Clone, Default, PartialEq, Eq, Structural)]
pub struct EdgeInsets {
    pub top: isize,
    pub left: isize,
    pub bottom: isize,
    pub right: isize,
}

impl Point {
    pub fn new(x: isize, y: isize) -> (r: Self)
        ensures
            r == (Point { x, y }),
    {
        Point { x, y }
    }

    pub fn zero() -> (r: Self)
        ensures
            r == (Point { x: 0, y: 0 }),
    {
        Point { x: 0, y: 0 }
    }
}

impl core::ops::Add<Point> for Point {
    type Output = Point;

    fn add(self, rhs: Point) -> (r: Point) {
        Point { x: self.x + rhs.x, y: self.y + rhs.y }
    }
}

impl AddSpecImpl<Point> for Point {
    open spec fn obeys_add_spec() -> bool {
        true
    }

    open spec fn add_req(self, rhs: Point) -> bool {
        fits(self.x + rhs.x) && fits(self.y + rhs.y)
    }

    open spec fn add_spec(self, rhs: Point) -> Point {
        Point { x: (self.x + rhs.x) as isize, y: (self.y + rhs.y) as isize }
    }
}

impl core::ops::Sub<Point> for Point {
    type Output = Point;

    fn sub(self, rhs: Point) -> (r: Point) {
        Point { x: self.x - rhs.x, y: self.y - rhs.y }
    }
}

impl SubSpecImpl<Point> for Point {
    open spec fn obeys_sub_spec() -> bool {
        true
    }

    open spec fn sub_req(self, rhs: Point) -> bool {
        fits(self.x - rhs.x) && fits(self.y - rhs.y)
    }

    open spec fn sub_spec(self, rhs: Point) -> Point {
        Point { x: (self.x - rhs.x) as isize, y: (self.y - rhs.y) as isize }
    }
}

impl Size {
    pub fn new(width: isize, height: isize) -> (r: Self)
        ensures
            r == (Size { width, height }),
    {
        Size { width, height }
    }

    pub fn zero() -> (r: Self)
        ensures
            r == (Size { width: 0, height: 0 }),
    {
        Size { width: 0, height: 0 }
    }
}

impl core::ops::Add<Size> for Size {
    type Output = Size;

    fn add(self, rhs: Size) -> (r: Size) {
        Size { width: self.width + rhs.width, height: self.height + rhs.height }
    }
}

impl AddSpecImpl<Size> for Size {
    open spec fn obeys_add_spec() -> bool {
        true
    }

    open spec fn add_req(self, rhs: Size) -> bool {
        fits(self.width + rhs.width) && fits(self.height + rhs.height)
    }

    open spec fn add_spec(self, rhs: Size) -> Size {
        Size {
            width: (self.width + rhs.width) as isize,
            height: (self.height + rhs.height) as isize,
        }
    }
}

impl core::ops::Sub<Size> for Size {
    type Output = Size;

    fn sub(self, rhs: Size) -> (r: Size) {
        Size { width: self.width - rhs.width, height: self.height - rhs.height }
    }
}

impl SubSpecImpl<Size> for Size {
    open spec fn obeys_sub_spec() -> bool {
        true
    }

    open spec fn sub_req(self, rhs: Size) -> bool {
        fits(self.width - rhs.width) && fits(self.height - rhs.height)
    }

    open spec fn sub_spec(self, rhs: Size) -> Size {
        Size {
            width: (self.width - rhs.width) as isize,
            height: (self.height - rhs.height) as isize,
        }
    }
}

impl Rect {
    pub fn new(x: isize, y: isize, width: isize, height: isize) -> (r: Self)
        ensures
            r == (Rect { origin: Point { x, y }, size: Size { width, height } }),
    {
        Rect { origin: Point { x, y }, size: Size { width, height } }
    }

    pub fn zero() -> (r: Self)
        ensures
            r == (Rect { origin: Point { x: 0, y: 0 }, size: Size { width: 0, height: 0 } }),
    {
        Rect { origin: Point::zero(), size: Size::zero() }
    }

    /// The rectangle of the given size at the origin of the plane.
    pub fn from_size(size: Size) -> (r: Self)
        ensures
            r == (Rect { origin: Point { x: 0, y: 0 }, size }),
    {
        Rect { origin: Point::zero(), size }
    }

    pub fn x(self) -> (r: isize)
        ensures
            r == self.origin.x,
    {
        self.origin.x
    }

    pub fn y(self) -> (r: isize)
        ensures
            r == self.origin.y,
    {
        self.origin.y
    }

    pub fn width(self) -> (r: isize)
        ensures
            r == self.size.width,
    {
        self.size.width
    }

    pub fn height(self) -> (r: isize)
        ensures
            r == self.size.height,
    {
        self.size.height
    }

    /// The rectangle with each edge moved inwards by its inset.
    pub fn insets_by(self, insets: EdgeInsets) -> (r: Self)
        requires
            fits(self.origin.x + insets.left),
            fits(self.origin.y + insets.top),
            fits(insets.left + insets.right),
            fits(insets.top + insets.bottom),
            fits(self.size.width - (insets.left + insets.right)),
            fits(self.size.height - (insets.top + insets.bottom)),
        ensures
            r.origin.x == self.origin.x + insets.left,
            r.origin.y == self.origin.y + insets.top,
            r.size.width == self.size.width - (insets.left + insets.right),
            r.size.height == self.size.height - (insets.top + insets.bottom),
    {
        Rect {
            origin: Point { x: self.origin.x + insets.left, y: self.origin.y + insets.top },
            size: Size {
                width: self.size.width - (insets.left + insets.right),
                height: self.size.height - (insets.top + insets.bottom),
            },
        }
    }

    /// The edges of the rectangle. A negative side is turned round.
    pub open spec fn edges(self) -> Coodinates {
        Coodinates {
            left: if self.size.width > 0 {
                self.origin.x
            } else {
                (self.origin.x + self.size.width) as isize
            },
            right: if self.size.width > 0 {
                (self.origin.x + self.size.width) as isize
            } else {
                self.origin.x
            },
            top: if self.size.height > 0 {
                self.origin.y
            } else {
                (self.origin.y + self.size.height) as isize
            },
            bottom: if self.size.height > 0 {
                (self.origin.y + self.size.height) as isize
            } else {
                self.origin.y
            },
        }
    }

    /// Whether the far edges of the rectangle are values of `isize`.
    pub open spec fn spans(self) -> bool {
        fits(self.origin.x + self.size.width) && fits(self.origin.y + self.size.height)
    }

    /// The rectangle between the given edges.
    pub fn from_coordinates(coods: Coodinates) -> (r: Rect)
        requires
            fits(coods.right - coods.left),
            fits(coods.bottom - coods.top),
        ensures
            r.origin == (Point { x: coods.left, y: coods.top }),
            r.size.width == coods.right - coods.left,
            r.size.height == coods.bottom - coods.top,
    {
        Rect { origin: coods.left_top(), size: coods.size() }
    }
}

impl Coodinates {
    pub fn left_top(self) -> (r: Point)
        ensures
            r == (Point { x: self.left, y: self.top }),
    {
        Point::new(self.left, self.top)
    }

    pub fn right_bottom(self) -> (r: Point)
        ensures
            r == (Point { x: self.right, y: self.bottom }),
    {
        Point::new(self.right, self.bottom)
    }

    pub fn left_bottom(self) -> (r: Point)
        ensures
            r == (Point { x: self.left, y: self.bottom }),
    {
        Point::new(self.left, self.bottom)
    }

    pub fn right_top(self) -> (r: Point)
        ensures
            r == (Point { x: self.right, y: self.top }),
    {
        Point::new(self.right, self.top)
    }

    pub fn size(self) -> (r: Size)
        requires
            fits(self.right - self.left),
            fits(self.bottom - self.top),
        ensures
            r.width == self.right - self.left,
            r.height == self.bottom - self.top,
    {
        Size::new(self.right - self.left, self.bottom - self.top)
    }

    /// The edges of a rectangle; none for a rectangle without an area.
    pub fn from_rect(rect: Rect) -> (r: Option<Coodinates>)
        requires
            rect.spans(),
        ensures
            r == if rect.size.width == 0 || rect.size.height == 0 {
                None
            } else {
                Some(rect.edges())
            },
    {
        if rect.size.width == 0 || rect.size.height == 0 {
            None
        } else {
            Some(Self::from_rect_unchecked(rect))
        }
    }

    /// The edges of a rectangle, whether it has an area or not.
    pub fn from_rect_unchecked(rect: Rect) -> (r: Coodinates)
        requires
            rect.spans(),
        ensures
            r == rect.edges(),
    {
        let left: isize;
        let right: isize;
        if rect.size.width > 0 {
            left = rect.origin.x;
            right = left + rect.size.width;
        } else {
            right = rect.origin.x;
            left = right + rect.size.width;
        }
        let top: isize;
        let bottom: isize;
        if rect.size.height > 0 {
            top = rect.origin.y;
            bottom = top + rect.size.height;
        } else {
            bottom = rect.origin.y;
            top = bottom + rect.size.height;
        }
        Coodinates { left, top, right, bottom }
    }
}

impl EdgeInsets {
    pub fn new(top: isize, left: isize, bottom: isize, right: isize) -> (r: Self)
        ensures
            r == (EdgeInsets { top, left, bottom, right }),
    {
        EdgeInsets { top, left, bottom, right }
    }

    pub fn zero() -> (r: Self)
        ensures
            r == (EdgeInsets { top: 0, left: 0, bottom: 0, right: 0 }),
    {
        EdgeInsets { top: 0, left: 0, bottom: 0, right: 0 }
    }
}

/// Adds a point, coordinate by coordinate.
impl core::ops::AddAssign<Point> for Point {
    fn add_assign(&mut self, rhs: Point)
        requires
            vstd::std_specs::ops::AddSpec::add_req(*old(self), rhs),
        ensures
            *final(self) == vstd::std_specs::ops::AddSpec::add_spec(*old(self), rhs),
    {
        *self = *self + rhs;
    }
}

/// Takes a point away, coordinate by coordinate.
impl core::ops::SubAssign<Point> for Point {
    fn sub_assign(&mut self, rhs: Point)
        requires
            vstd::std_specs::ops::SubSpec::sub_req(*old(self), rhs),
        ensures
            *final(self) == vstd::std_specs::ops::SubSpec::sub_spec(*old(self), rhs),
    {
        *self = *self - rhs;
    }
}

/// Grows the size.
impl core::ops::AddAssign<Size> for Size {
    fn add_assign(&mut self, rhs: Size)
        requires
            vstd::std_specs::ops::AddSpec::add_req(*old(self), rhs),
        ensures
            *final(self) == vstd::std_specs::ops::AddSpec::add_spec(*old(self), rhs),
    {
        *self = *self + rhs;
    }
}

/// Shrinks the size.
impl core::ops::SubAssign<Size> for Size {
    fn sub_assign(&mut self, rhs: Size)
        requires
            vstd::std_specs::ops::SubSpec::sub_req(*old(self), rhs),
        ensures
            *final(self) == vstd::std_specs::ops::SubSpec::sub_spec(*old(self), rhs),
    {
        *self = *self - rhs;
    }
}

} // verus!
