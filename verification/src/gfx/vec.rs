//! Vectors of two, three and four components, and their products for whole
//! numbers.

use vstd::prelude::*;
use crate::gfx::coords::fits;

verus! {

#[derive(Debug, Default, Clone, Copy, PartialEq, Eq)]
pub struct Vec2<T> {
    pub x: T,
    pub y: T,
}

#[derive(Debug, Default, Clone, Copy, PartialEq, Eq)]
pub struct Vec3<T> {
    pub x: T,
    pub y: T,
    pub z: T,
}

#[derive(Debug, Default, Clone, Copy, PartialEq, Eq)]
pub struct Vec4<T> {
    pub x: T,
    pub y: T,
    pub z: T,
    pub w: T,
}

impl<T> Vec2<T> {
    pub fn new(x: T, y: T) -> (r: Self)
        ensures
            r.x == x,
            r.y == y,
    {
        Vec2 { x, y }
    }

    pub fn into_slice(self) -> (r: [T; 2])
        ensures
            r@ == seq![self.x, self.y],
    {
        let r = [self.x, self.y];
        assert(r@ =~= seq![self.x, self.y]);
        r
    }
}

impl<T> Vec3<T> {
    pub fn new(x: T, y: T, z: T) -> (r: Self)
        ensures
            r.x == x,
            r.y == y,
            r.z == z,
    {
        Vec3 { x, y, z }
    }

    pub fn into_slice(self) -> (r: [T; 3])
        ensures
            r@ == seq![self.x, self.y, self.z],
    {
        let r = [self.x, self.y, self.z];
        assert(r@ =~= seq![self.x, self.y, self.z]);
        r
    }

    /// The first two components.
    pub fn into_vec2(self) -> (r: Vec2<T>)
        ensures
            r.x == self.x,
            r.y == self.y,
    {
        Vec2 { x: self.x, y: self.y }
    }
}

impl<T> Vec4<T> {
    pub fn new(x: T, y: T, z: T, w: T) -> (r: Self)
        ensures
            r.x == x,
            r.y == y,
            r.z == z,
            r.w == w,
    {
        Vec4 { x, y, z, w }
    }

    pub fn into_slice(self) -> (r: [T; 4])
        ensures
            r@ == seq![self.x, self.y, self.z, self.w],
    {
        let r = [self.x, self.y, self.z, self.w];
        assert(r@ =~= seq![self.x, self.y, self.z, self.w]);
        r
    }

    /// The first three components.
    pub fn into_vec3(self) -> (r: Vec3<T>)
        ensures
            r.x == self.x,
            r.y == self.y,
            r.z == self.z,
    {
        Vec3 { x: self.x, y: self.y, z: self.z }
    }
}

/// What has a cross product.
pub trait Cross: Sized {
    spec fn spec_cross(&self, rhs: Self) -> Self;

    /// What the product needs to be computed without overflow.
    spec fn can_cross(&self, rhs: Self) -> bool;

    /// The cross product.
    fn cross(&self, rhs: Self) -> (r: Self)
        requires
            self.can_cross(rhs),
        ensures
            r == self.spec_cross(rhs),
    ;
}

impl Cross for Vec3<isize> {
    open spec fn spec_cross(&self, rhs: Self) -> Self {
        Vec3 {
            x: (self.y * rhs.z - self.z * rhs.y) as isize,
            y: (self.z * rhs.x - self.x * rhs.z) as isize,
            z: (self.x * rhs.y - self.y * rhs.x) as isize,
        }
    }

    open spec fn can_cross(&self, rhs: Self) -> bool {
        &&& fits(self.y * rhs.z)
        &&& fits(self.z * rhs.y)
        &&& fits(self.z * rhs.x)
        &&& fits(self.x * rhs.z)
        &&& fits(self.x * rhs.y)
        &&& fits(self.y * rhs.x)
        &&& fits(self.y * rhs.z - self.z * rhs.y)
        &&& fits(self.z * rhs.x - self.x * rhs.z)
        &&& fits(self.x * rhs.y - self.y * rhs.x)
    }

    fn cross(&self, rhs: Self) -> (r: Self) {
        let x = self.y * rhs.z - self.z * rhs.y;
        let y = self.z * rhs.x - self.x * rhs.z;
        let z = self.x * rhs.y - self.y * rhs.x;
        Vec3 { x, y, z }
    }
}

impl Vec2<isize> {
    /// The vector without length.
    pub fn zero() -> (r: Self)
        ensures
            r.x == 0,
            r.y == 0,
    {
        Vec2 { x: 0, y: 0 }
    }

    pub fn is_zero(&self) -> (r: bool)
        ensures
            r == (self.x == 0 && self.y == 0),
    {
        self.x == 0 && self.y == 0
    }

    /// The dot product.
    pub fn dot(self, rhs: &Self) -> (r: isize)
        requires
            fits(self.x * rhs.x),
            fits(self.y * rhs.y),
            fits(self.x * rhs.x + self.y * rhs.y),
        ensures
            r == self.x * rhs.x + self.y * rhs.y,
    {
        self.x * rhs.x + self.y * rhs.y
    }

    /// The vector with a third component of zero.
    pub fn into_vec3(self) -> (r: Vec3<isize>)
        ensures
            r.x == self.x,
            r.y == self.y,
            r.z == 0,
    {
        Vec3 { x: self.x, y: self.y, z: 0 }
    }
}

impl Vec3<isize> {
    /// The vector without length.
    pub fn zero() -> (r: Self)
        ensures
            r.x == 0,
            r.y == 0,
            r.z == 0,
    {
        Vec3 { x: 0, y: 0, z: 0 }
    }

    pub fn is_zero(&self) -> (r: bool)
        ensures
            r == (self.x == 0 && self.y == 0 && self.z == 0),
    {
        self.x == 0 && self.y == 0 && self.z == 0
    }

    /// The dot product.
    pub fn dot(self, rhs: &Self) -> (r: isize)
        requires
            fits(self.x * rhs.x),
            fits(self.y * rhs.y),
            fits(self.z * rhs.z),
            fits(self.x * rhs.x + self.y * rhs.y),
            fits(self.x * rhs.x + self.y * rhs.y + self.z * rhs.z),
        ensures
            r == self.x * rhs.x + self.y * rhs.y + self.z * rhs.z,
    {
        self.x * rhs.x + self.y * rhs.y + self.z * rhs.z
    }
}

} // verus!
