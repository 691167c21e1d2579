//! Points in the plane and in space.
//!
//! A point is a location, a vector a displacement: the one operation between them is
//! moving a point by a vector of the same dimension. Points have no arithmetic of their
//! own and no geometric queries.
use crate::vec::{Vec2, Vec3};
use core::ops::{Add, Index};
use vstd::prelude::*;
use vstd::std_specs::ops::AddSpec;

verus! {

/// A location given by two coordinates of type `T`.
#[derive(Clone, Copy, Debug, PartialEq, Eq, Structural)]
pub struct Point2<T>(pub [T; 2]);

impl<T: Copy> Point2<T> {
    pub fn new(x: T, y: T) -> (r: Point2<T>)
        ensures
            r == Point2([x, y]),
    {
        Point2([x, y])
    }

    pub fn x(&self) -> (r: T)
        ensures
            r == self.0[0],
    {
        self.0[0]
    }

    pub fn y(&self) -> (r: T)
        ensures
            r == self.0[1],
    {
        self.0[1]
    }

    pub fn set_x(&mut self, x: T)
        ensures
            final(self).0@ == old(self).0@.update(0, x),
    {
        self.0[0] = x;
    }

    pub fn set_y(&mut self, y: T)
        ensures
            final(self).0@ == old(self).0@.update(1, y),
    {
        self.0[1] = y;
    }

    /// Moves the point to the given coordinates.
    pub fn set(&mut self, x: T, y: T)
        ensures
            *final(self) == Point2([x, y]),
    {
        *self = Point2([x, y]);
    }

    /// Moves the point by the displacement `rhs`: `self += rhs`.
    pub fn add_assign(&mut self, rhs: Vec2<T>)
        where T: Add<Output = T>,
        requires
            old(self).add_req(rhs),
        ensures
            <T as AddSpec>::obeys_add_spec() ==> *final(self) == old(self).add_spec(rhs),
    {
        *self = *self + rhs;
    }
}

impl<T> vstd::std_specs::core::IndexSpecImpl<usize> for Point2<T> {
    open spec fn index_req(&self, index: &usize) -> bool {
        *index < 2
    }
}

impl<T> Index<usize> for Point2<T> {
    type Output = T;

    /// The coordinate at position `index`.
    fn index(&self, index: usize) -> (r: &T)
        ensures
            *r == self.0[index as int],
    {
        &self.0[index]
    }
}

impl<T: Copy + Add<Output = T>> vstd::std_specs::ops::AddSpecImpl<Vec2<T>> for Point2<T> {
    open spec fn obeys_add_spec() -> bool {
        <T as AddSpec>::obeys_add_spec()
    }

    open spec fn add_req(self, rhs: Vec2<T>) -> bool {
        &&& self.0[0].add_req(rhs.0[0])
        &&& self.0[1].add_req(rhs.0[1])
    }

    open spec fn add_spec(self, rhs: Vec2<T>) -> Point2<T> {
        Point2([
            self.0[0].add_spec(rhs.0[0]),
            self.0[1].add_spec(rhs.0[1]),
        ])
    }
}

impl<T: Copy + Add<Output = T>> Add<Vec2<T>> for Point2<T> {
    type Output = Point2<T>;

    /// The point displaced by `rhs`, coordinate by coordinate.
    fn add(self, rhs: Vec2<T>) -> (r: Point2<T>)
        ensures
            <T as AddSpec>::obeys_add_spec() ==> r == Point2([
                self.0[0].add_spec(rhs.0[0]),
                self.0[1].add_spec(rhs.0[1]),
            ]),
    {
        Point2([
            self.0[0] + rhs.0[0],
            self.0[1] + rhs.0[1],
        ])
    }
}

/// A location given by three coordinates of type `T`.
#[derive(Clone, Copy, Debug, PartialEq, Eq, Structural)]
pub struct Point3<T>(pub [T; 3]);

impl<T: Copy> Point3<T> {
    pub fn new(x: T, y: T, z: T) -> (r: Point3<T>)
        ensures
            r == Point3([x, y, z]),
    {
        Point3([x, y, z])
    }

    pub fn x(&self) -> (r: T)
        ensures
            r == self.0[0],
    {
        self.0[0]
    }

    pub fn y(&self) -> (r: T)
        ensures
            r == self.0[1],
    {
        self.0[1]
    }

    pub fn z(&self) -> (r: T)
        ensures
            r == self.0[2],
    {
        self.0[2]
    }

    pub fn set_x(&mut self, x: T)
        ensures
            final(self).0@ == old(self).0@.update(0, x),
    {
        self.0[0] = x;
    }

    pub fn set_y(&mut self, y: T)
        ensures
            final(self).0@ == old(self).0@.update(1, y),
    {
        self.0[1] = y;
    }

    pub fn set_z(&mut self, z: T)
        ensures
            final(self).0@ == old(self).0@.update(2, z),
    {
        self.0[2] = z;
    }

    /// Moves the point to the given coordinates.
    pub fn set(&mut self, x: T, y: T, z: T)
        ensures
            *final(self) == Point3([x, y, z]),
    {
        *self = Point3([x, y, z]);
    }

    /// Moves the point by the displacement `rhs`: `self += rhs`.
    pub fn add_assign(&mut self, rhs: Vec3<T>)
        where T: Add<Output = T>,
        requires
            old(self).add_req(rhs),
        ensures
            <T as AddSpec>::obeys_add_spec() ==> *final(self) == old(self).add_spec(rhs),
    {
        *self = *self + rhs;
    }
}

impl<T> vstd::std_specs::core::IndexSpecImpl<usize> for Point3<T> {
    open spec fn index_req(&self, index: &usize) -> bool {
        *index < 3
    }
}

impl<T> Index<usize> for Point3<T> {
    type Output = T;

    /// The coordinate at position `index`.
    fn index(&self, index: usize) -> (r: &T)
        ensures
            *r == self.0[index as int],
    {
        &self.0[index]
    }
}

impl<T: Copy + Add<Output = T>> vstd::std_specs::ops::AddSpecImpl<Vec3<T>> for Point3<T> {
    open spec fn obeys_add_spec() -> bool {
        <T as AddSpec>::obeys_add_spec()
    }

    open spec fn add_req(self, rhs: Vec3<T>) -> bool {
        &&& self.0[0].add_req(rhs.0[0])
        &&& self.0[1].add_req(rhs.0[1])
        &&& self.0[2].add_req(rhs.0[2])
    }

    open spec fn add_spec(self, rhs: Vec3<T>) -> Point3<T> {
        Point3([
            self.0[0].add_spec(rhs.0[0]),
            self.0[1].add_spec(rhs.0[1]),
            self.0[2].add_spec(rhs.0[2]),
        ])
    }
}

impl<T: Copy + Add<Output = T>> Add<Vec3<T>> for Point3<T> {
    type Output = Point3<T>;

    /// The point displaced by `rhs`, coordinate by coordinate.
    fn add(self, rhs: Vec3<T>) -> (r: Point3<T>)
        ensures
            <T as AddSpec>::obeys_add_spec() ==> r == Point3([
                self.0[0].add_spec(rhs.0[0]),
                self.0[1].add_spec(rhs.0[1]),
                self.0[2].add_spec(rhs.0[2]),
            ]),
    {
        Point3([
            self.0[0] + rhs.0[0],
            self.0[1] + rhs.0[1],
            self.0[2] + rhs.0[2],
        ])
    }
}

} // verus!
