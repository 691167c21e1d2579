//! Fixed-size vectors of two, three and four components, generic over the element type.
//!
//! The arithmetic operators come in two shapes: with a scalar, which is applied to every
//! component, and with a vector of the same dimension, applied component by component.
//! Their meaning is given over the element type's own operator specifications
//! (`add_req` / `add_spec` and the like): for the primitive integer types that is exact
//! integer arithmetic, and an operation is only allowed where it does not overflow.
use core::ops::{Add, Div, Index, Mul, Neg, Sub};
use vstd::prelude::*;
use vstd::std_specs::ops::{AddSpec, DivSpec, MulSpec, NegSpec, SubSpec};

verus! {

/// `p * q - r * s`: one term of a cross product.
pub open spec fn spec_wedge<T: Copy + Sub<Output = T> + Mul<Output = T>>(
    p: T,
    q: T,
    r: T,
    s: T,
) -> T {
    p.mul_spec(q).sub_spec(r.mul_spec(s))
}

/// The element operations of `p * q - r * s` are all defined.
pub open spec fn wedge_req<T: Copy + Sub<Output = T> + Mul<Output = T>>(
    p: T,
    q: T,
    r: T,
    s: T,
) -> bool {
    &&& p.mul_req(q)
    &&& r.mul_req(s)
    &&& p.mul_spec(q).sub_req(r.mul_spec(s))
}

/// A vector of two components of type `T`, addressed by position.
#[derive(Clone, Copy, Debug, PartialEq, Eq, Structural)]
pub struct Vec2<T>(pub [T; 2]);

impl<T: Copy> Vec2<T> {
    /// The vector whose components all equal `v`.
    pub open spec fn spec_all(v: T) -> Vec2<T> {
        Vec2([v, v])
    }

    pub fn all(v: T) -> (r: Vec2<T>)
        ensures
            r == Self::spec_all(v),
    {
        Vec2([v, v])
    }

    pub fn x(&self) -> (r: T)
        ensures
            r == self.0[0],
    {
        self.0[0]
    }

    pub fn y(&self) -> (r: T)
        ensures
            r == self.0[1],
    {
        self.0[1]
    }

    /// Replaces the component at position `i`.
    pub fn set(&mut self, i: usize, v: T)
        requires
            i < 2,
        ensures
            final(self).0@ == old(self).0@.update(i as int, v),
    {
        self.0[i] = v;
    }

    /// `self += rhs`, for a scalar `rhs` (applied to every component) or a vector (component
    /// by component).
    pub fn add_assign<R>(&mut self, rhs: R)
        where Vec2<T>: Add<R, Output = Vec2<T>>,
        requires
            old(self).add_req(rhs),
        ensures
            <Vec2<T> as AddSpec<R>>::obeys_add_spec() ==> *final(self) == old(self).add_spec(rhs),
    {
        *self = *self + rhs;
    }

    /// `self -= rhs`, for a scalar `rhs` (applied to every component) or a vector (component
    /// by component).
    pub fn sub_assign<R>(&mut self, rhs: R)
        where Vec2<T>: Sub<R, Output = Vec2<T>>,
        requires
            old(self).sub_req(rhs),
        ensures
            <Vec2<T> as SubSpec<R>>::obeys_sub_spec() ==> *final(self) == old(self).sub_spec(rhs),
    {
        *self = *self - rhs;
    }

    /// `self *= rhs`, for a scalar `rhs` (applied to every component) or a vector (component
    /// by component).
    pub fn mul_assign<R>(&mut self, rhs: R)
        where Vec2<T>: Mul<R, Output = Vec2<T>>,
        requires
            old(self).mul_req(rhs),
        ensures
            <Vec2<T> as MulSpec<R>>::obeys_mul_spec() ==> *final(self) == old(self).mul_spec(rhs),
    {
        *self = *self * rhs;
    }

    /// `self /= rhs`, for a scalar `rhs` (applied to every component) or a vector (component
    /// by component).
    pub fn div_assign<R>(&mut self, rhs: R)
        where Vec2<T>: Div<R, Output = Vec2<T>>,
        requires
            old(self).div_req(rhs),
        ensures
            <Vec2<T> as DivSpec<R>>::obeys_div_spec() ==> *final(self) == old(self).div_spec(rhs),
    {
        *self = *self / rhs;
    }
}

impl<T> vstd::std_specs::core::IndexSpecImpl<usize> for Vec2<T> {
    open spec fn index_req(&self, index: &usize) -> bool {
        *index < 2
    }
}

impl<T> Index<usize> for Vec2<T> {
    type Output = T;

    fn index(&self, index: usize) -> (r: &T)
        ensures
            *r == self.0[index as int],
    {
        &self.0[index]
    }
}

impl<T: Default + Copy> Default for Vec2<T> {
    /// The vector whose components all hold `T`'s default value (zero for numbers).
    fn default() -> (r: Vec2<T>)
        ensures
            r == Self::spec_all(r.0[0]),
            call_ensures(T::default, (), r.0[0]),
    {
        let zero = T::default();
        Vec2([zero, zero])
    }
}

impl<T: Copy + Add<Output = T>> vstd::std_specs::ops::AddSpecImpl<T> for Vec2<T> {
    open spec fn obeys_add_spec() -> bool {
        <T as AddSpec>::obeys_add_spec()
    }

    open spec fn add_req(self, rhs: T) -> bool {
        &&& self.0[0].add_req(rhs)
        &&& self.0[1].add_req(rhs)
    }

    open spec fn add_spec(self, rhs: T) -> Vec2<T> {
        Vec2([
            self.0[0].add_spec(rhs),
            self.0[1].add_spec(rhs),
        ])
    }
}

impl<T: Copy + Add<Output = T>> Add<T> for Vec2<T> {
    type Output = Vec2<T>;

    fn add(self, rhs: T) -> (r: Vec2<T>)
        ensures
            <T as AddSpec>::obeys_add_spec() ==> r == Vec2([
                self.0[0].add_spec(rhs),
                self.0[1].add_spec(rhs),
            ]),
    {
        Vec2([self.0[0] + rhs, self.0[1] + rhs])
    }
}

impl<T: Copy + Add<Output = T>> vstd::std_specs::ops::AddSpecImpl<Vec2<T>> for Vec2<T> {
    open spec fn obeys_add_spec() -> bool {
        <T as AddSpec>::obeys_add_spec()
    }

    open spec fn add_req(self, rhs: Vec2<T>) -> bool {
        &&& self.0[0].add_req(rhs.0[0])
        &&& self.0[1].add_req(rhs.0[1])
    }

    open spec fn add_spec(self, rhs: Vec2<T>) -> Vec2<T> {
        Vec2([
            self.0[0].add_spec(rhs.0[0]),
            self.0[1].add_spec(rhs.0[1]),
        ])
    }
}

impl<T: Copy + Add<Output = T>> Add<Vec2<T>> for Vec2<T> {
    type Output = Vec2<T>;

    fn add(self, rhs: Vec2<T>) -> (r: Vec2<T>)
        ensures
            <T as AddSpec>::obeys_add_spec() ==> r == Vec2([
                self.0[0].add_spec(rhs.0[0]),
                self.0[1].add_spec(rhs.0[1]),
            ]),
    {
        Vec2([
            self.0[0] + rhs.0[0],
            self.0[1] + rhs.0[1],
        ])
    }
}

impl<T: Copy + Sub<Output = T>> vstd::std_specs::ops::SubSpecImpl<T> for Vec2<T> {
    open spec fn obeys_sub_spec() -> bool {
        <T as SubSpec>::obeys_sub_spec()
    }

    open spec fn sub_req(self, rhs: T) -> bool {
        &&& self.0[0].sub_req(rhs)
        &&& self.0[1].sub_req(rhs)
    }

    open spec fn sub_spec(self, rhs: T) -> Vec2<T> {
        Vec2([
            self.0[0].sub_spec(rhs),
            self.0[1].sub_spec(rhs),
        ])
    }
}

impl<T: Copy + Sub<Output = T>> Sub<T> for Vec2<T> {
    type Output = Vec2<T>;

    fn sub(self, rhs: T) -> (r: Vec2<T>)
        ensures
            <T as SubSpec>::obeys_sub_spec() ==> r == Vec2([
                self.0[0].sub_spec(rhs),
                self.0[1].sub_spec(rhs),
            ]),
    {
        Vec2([self.0[0] - rhs, self.0[1] - rhs])
    }
}

impl<T: Copy + Sub<Output = T>> vstd::std_specs::ops::SubSpecImpl<Vec2<T>> for Vec2<T> {
    open spec fn obeys_sub_spec() -> bool {
        <T as SubSpec>::obeys_sub_spec()
    }

    open spec fn sub_req(self, rhs: Vec2<T>) -> bool {
        &&& self.0[0].sub_req(rhs.0[0])
        &&& self.0[1].sub_req(rhs.0[1])
    }

    open spec fn sub_spec(self, rhs: Vec2<T>) -> Vec2<T> {
        Vec2([
            self.0[0].sub_spec(rhs.0[0]),
            self.0[1].sub_spec(rhs.0[1]),
        ])
    }
}

impl<T: Copy + Sub<Output = T>> Sub<Vec2<T>> for Vec2<T> {
    type Output = Vec2<T>;

    fn sub(self, rhs: Vec2<T>) -> (r: Vec2<T>)
        ensures
            <T as SubSpec>::obeys_sub_spec() ==> r == Vec2([
                self.0[0].sub_spec(rhs.0[0]),
                self.0[1].sub_spec(rhs.0[1]),
            ]),
    {
        Vec2([
            self.0[0] - rhs.0[0],
            self.0[1] - rhs.0[1],
        ])
    }
}

impl<T: Copy + Mul<Output = T>> vstd::std_specs::ops::MulSpecImpl<T> for Vec2<T> {
    open spec fn obeys_mul_spec() -> bool {
        <T as MulSpec>::obeys_mul_spec()
    }

    open spec fn mul_req(self, rhs: T) -> bool {
        &&& self.0[0].mul_req(rhs)
        &&& self.0[1].mul_req(rhs)
    }

    open spec fn mul_spec(self, rhs: T) -> Vec2<T> {
        Vec2([
            self.0[0].mul_spec(rhs),
            self.0[1].mul_spec(rhs),
        ])
    }
}

impl<T: Copy + Mul<Output = T>> Mul<T> for Vec2<T> {
    type Output = Vec2<T>;

    fn mul(self, rhs: T) -> (r: Vec2<T>)
        ensures
            <T as MulSpec>::obeys_mul_spec() ==> r == Vec2([
                self.0[0].mul_spec(rhs),
                self.0[1].mul_spec(rhs),
            ]),
    {
        Vec2([self.0[0] * rhs, self.0[1] * rhs])
    }
}

impl<T: Copy + Mul<Output = T>> vstd::std_specs::ops::MulSpecImpl<Vec2<T>> for Vec2<T> {
    open spec fn obeys_mul_spec() -> bool {
        <T as MulSpec>::obeys_mul_spec()
    }

    open spec fn mul_req(self, rhs: Vec2<T>) -> bool {
        &&& self.0[0].mul_req(rhs.0[0])
        &&& self.0[1].mul_req(rhs.0[1])
    }

    open spec fn mul_spec(self, rhs: Vec2<T>) -> Vec2<T> {
        Vec2([
            self.0[0].mul_spec(rhs.0[0]),
            self.0[1].mul_spec(rhs.0[1]),
        ])
    }
}

impl<T: Copy + Mul<Output = T>> Mul<Vec2<T>> for Vec2<T> {
    type Output = Vec2<T>;

    fn mul(self, rhs: Vec2<T>) -> (r: Vec2<T>)
        ensures
            <T as MulSpec>::obeys_mul_spec() ==> r == Vec2([
                self.0[0].mul_spec(rhs.0[0]),
                self.0[1].mul_spec(rhs.0[1]),
            ]),
    {
        Vec2([
            self.0[0] * rhs.0[0],
            self.0[1] * rhs.0[1],
        ])
    }
}

impl<T: Copy + Div<Output = T>> vstd::std_specs::ops::DivSpecImpl<T> for Vec2<T> {
    open spec fn obeys_div_spec() -> bool {
        <T as DivSpec>::obeys_div_spec()
    }

    open spec fn div_req(self, rhs: T) -> bool {
        &&& self.0[0].div_req(rhs)
        &&& self.0[1].div_req(rhs)
    }

    open spec fn div_spec(self, rhs: T) -> Vec2<T> {
        Vec2([
            self.0[0].div_spec(rhs),
            self.0[1].div_spec(rhs),
        ])
    }
}

impl<T: Copy + Div<Output = T>> Div<T> for Vec2<T> {
    type Output = Vec2<T>;

    fn div(self, rhs: T) -> (r: Vec2<T>)
        ensures
            <T as DivSpec>::obeys_div_spec() ==> r == Vec2([
                self.0[0].div_spec(rhs),
                self.0[1].div_spec(rhs),
            ]),
    {
        Vec2([self.0[0] / rhs, self.0[1] / rhs])
    }
}

impl<T: Copy + Div<Output = T>> vstd::std_specs::ops::DivSpecImpl<Vec2<T>> for Vec2<T> {
    open spec fn obeys_div_spec() -> bool {
        <T as DivSpec>::obeys_div_spec()
    }

    open spec fn div_req(self, rhs: Vec2<T>) -> bool {
        &&& self.0[0].div_req(rhs.0[0])
        &&& self.0[1].div_req(rhs.0[1])
    }

    open spec fn div_spec(self, rhs: Vec2<T>) -> Vec2<T> {
        Vec2([
            self.0[0].div_spec(rhs.0[0]),
            self.0[1].div_spec(rhs.0[1]),
        ])
    }
}

impl<T: Copy + Div<Output = T>> Div<Vec2<T>> for Vec2<T> {
    type Output = Vec2<T>;

    fn div(self, rhs: Vec2<T>) -> (r: Vec2<T>)
        ensures
            <T as DivSpec>::obeys_div_spec() ==> r == Vec2([
                self.0[0].div_spec(rhs.0[0]),
                self.0[1].div_spec(rhs.0[1]),
            ]),
    {
        Vec2([
            self.0[0] / rhs.0[0],
            self.0[1] / rhs.0[1],
        ])
    }
}

impl<T: Copy + Neg<Output = T>> vstd::std_specs::ops::NegSpecImpl for Vec2<T> {
    open spec fn obeys_neg_spec() -> bool {
        <T as NegSpec>::obeys_neg_spec()
    }

    open spec fn neg_req(self) -> bool {
        &&& self.0[0].neg_req()
        &&& self.0[1].neg_req()
    }

    open spec fn neg_spec(self) -> Vec2<T> {
        Vec2([
            self.0[0].neg_spec(),
            self.0[1].neg_spec(),
        ])
    }
}

impl<T: Copy + Neg<Output = T>> Neg for Vec2<T> {
    type Output = Vec2<T>;

    /// Negates every component.
    fn neg(self) -> (r: Vec2<T>)
        ensures
            <T as NegSpec>::obeys_neg_spec() ==> r == Vec2([
                self.0[0].neg_spec(),
                self.0[1].neg_spec(),
            ]),
    {
        Vec2([self.0[0].neg(), self.0[1].neg()])
    }
}

impl<T: Copy + Add<Output = T> + Mul<Output = T>> Vec2<T> {
    /// The element operations that `dot` performs are all defined.
    pub open spec fn dot_req(self, rhs: Vec2<T>) -> bool {
        let p0 = self.0[0].mul_spec(rhs.0[0]);
        let p1 = self.0[1].mul_spec(rhs.0[1]);
        &&& self.0[0].mul_req(rhs.0[0])
        &&& self.0[1].mul_req(rhs.0[1])
        &&& p0.add_req(p1)
    }

    /// The sum of the products of corresponding components, summed from the first.
    pub open spec fn spec_dot(self, rhs: Vec2<T>) -> T {
        let p0 = self.0[0].mul_spec(rhs.0[0]);
        let p1 = self.0[1].mul_spec(rhs.0[1]);
        p0.add_spec(p1)
    }

    pub fn dot(&self, rhs: &Vec2<T>) -> (r: T)
        requires
            <T as AddSpec>::obeys_add_spec(),
            <T as MulSpec>::obeys_mul_spec(),
            self.dot_req(*rhs),
        ensures
            r == self.spec_dot(*rhs),
    {
        self.0[0] * rhs.0[0] + self.0[1] * rhs.0[1]
    }

    /// The dot product of the vector with itself.
    pub fn square_length(&self) -> (r: T)
        requires
            <T as AddSpec>::obeys_add_spec(),
            <T as MulSpec>::obeys_mul_spec(),
            self.dot_req(*self),
        ensures
            r == self.spec_dot(*self),
    {
        self.dot(self)
    }
}

/// A vector of three components of type `T`, addressed by position.
#[derive(Clone, Copy, Debug, PartialEq, Eq, Structural)]
pub struct Vec3<T>(pub [T; 3]);

impl<T: Copy> Vec3<T> {
    /// The vector whose components all equal `v`.
    pub open spec fn spec_all(v: T) -> Vec3<T> {
        Vec3([v, v, v])
    }

    pub fn all(v: T) -> (r: Vec3<T>)
        ensures
            r == Self::spec_all(v),
    {
        Vec3([v, v, v])
    }

    pub fn x(&self) -> (r: T)
        ensures
            r == self.0[0],
    {
        self.0[0]
    }

    pub fn y(&self) -> (r: T)
        ensures
            r == self.0[1],
    {
        self.0[1]
    }

    pub fn z(&self) -> (r: T)
        ensures
            r == self.0[2],
    {
        self.0[2]
    }

    pub fn xy(&self) -> (r: Vec2<T>)
        ensures
            r == Vec2([self.0[0], self.0[1]]),
    {
        Vec2([self.x(), self.y()])
    }

    pub fn yz(&self) -> (r: Vec2<T>)
        ensures
            r == Vec2([self.0[1], self.0[2]]),
    {
        Vec2([self.y(), self.z()])
    }

    /// Replaces the component at position `i`.
    pub fn set(&mut self, i: usize, v: T)
        requires
            i < 3,
        ensures
            final(self).0@ == old(self).0@.update(i as int, v),
    {
        self.0[i] = v;
    }

    /// `self += rhs`, for a scalar `rhs` (applied to every component) or a vector (component
    /// by component).
    pub fn add_assign<R>(&mut self, rhs: R)
        where Vec3<T>: Add<R, Output = Vec3<T>>,
        requires
            old(self).add_req(rhs),
        ensures
            <Vec3<T> as AddSpec<R>>::obeys_add_spec() ==> *final(self) == old(self).add_spec(rhs),
    {
        *self = *self + rhs;
    }

    /// `self -= rhs`, for a scalar `rhs` (applied to every component) or a vector (component
    /// by component).
    pub fn sub_assign<R>(&mut self, rhs: R)
        where Vec3<T>: Sub<R, Output = Vec3<T>>,
        requires
            old(self).sub_req(rhs),
        ensures
            <Vec3<T> as SubSpec<R>>::obeys_sub_spec() ==> *final(self) == old(self).sub_spec(rhs),
    {
        *self = *self - rhs;
    }

    /// `self *= rhs`, for a scalar `rhs` (applied to every component) or a vector (component
    /// by component).
    pub fn mul_assign<R>(&mut self, rhs: R)
        where Vec3<T>: Mul<R, Output = Vec3<T>>,
        requires
            old(self).mul_req(rhs),
        ensures
            <Vec3<T> as MulSpec<R>>::obeys_mul_spec() ==> *final(self) == old(self).mul_spec(rhs),
    {
        *self = *self * rhs;
    }

    /// `self /= rhs`, for a scalar `rhs` (applied to every component) or a vector (component
    /// by component).
    pub fn div_assign<R>(&mut self, rhs: R)
        where Vec3<T>: Div<R, Output = Vec3<T>>,
        requires
            old(self).div_req(rhs),
        ensures
            <Vec3<T> as DivSpec<R>>::obeys_div_spec() ==> *final(self) == old(self).div_spec(rhs),
    {
        *self = *self / rhs;
    }
}

impl<T> vstd::std_specs::core::IndexSpecImpl<usize> for Vec3<T> {
    open spec fn index_req(&self, index: &usize) -> bool {
        *index < 3
    }
}

impl<T> Index<usize> for Vec3<T> {
    type Output = T;

    fn index(&self, index: usize) -> (r: &T)
        ensures
            *r == self.0[index as int],
    {
        &self.0[index]
    }
}

impl<T: Default + Copy> Default for Vec3<T> {
    /// The vector whose components all hold `T`'s default value (zero for numbers).
    fn default() -> (r: Vec3<T>)
        ensures
            r == Self::spec_all(r.0[0]),
            call_ensures(T::default, (), r.0[0]),
    {
        let zero = T::default();
        Vec3([zero, zero, zero])
    }
}

impl<T: Copy + Add<Output = T>> vstd::std_specs::ops::AddSpecImpl<T> for Vec3<T> {
    open spec fn obeys_add_spec() -> bool {
        <T as AddSpec>::obeys_add_spec()
    }

    open spec fn add_req(self, rhs: T) -> bool {
        &&& self.0[0].add_req(rhs)
        &&& self.0[1].add_req(rhs)
        &&& self.0[2].add_req(rhs)
    }

    open spec fn add_spec(self, rhs: T) -> Vec3<T> {
        Vec3([
            self.0[0].add_spec(rhs),
            self.0[1].add_spec(rhs),
            self.0[2].add_spec(rhs),
        ])
    }
}

impl<T: Copy + Add<Output = T>> Add<T> for Vec3<T> {
    type Output = Vec3<T>;

    fn add(self, rhs: T) -> (r: Vec3<T>)
        ensures
            <T as AddSpec>::obeys_add_spec() ==> r == Vec3([
                self.0[0].add_spec(rhs),
                self.0[1].add_spec(rhs),
                self.0[2].add_spec(rhs),
            ]),
    {
        Vec3([
            self.0[0] + rhs,
            self.0[1] + rhs,
            self.0[2] + rhs,
        ])
    }
}

impl<T: Copy + Add<Output = T>> vstd::std_specs::ops::AddSpecImpl<Vec3<T>> for Vec3<T> {
    open spec fn obeys_add_spec() -> bool {
        <T as AddSpec>::obeys_add_spec()
    }

    open spec fn add_req(self, rhs: Vec3<T>) -> bool {
        &&& self.0[0].add_req(rhs.0[0])
        &&& self.0[1].add_req(rhs.0[1])
        &&& self.0[2].add_req(rhs.0[2])
    }

    open spec fn add_spec(self, rhs: Vec3<T>) -> Vec3<T> {
        Vec3([
            self.0[0].add_spec(rhs.0[0]),
            self.0[1].add_spec(rhs.0[1]),
            self.0[2].add_spec(rhs.0[2]),
        ])
    }
}

impl<T: Copy + Add<Output = T>> Add<Vec3<T>> for Vec3<T> {
    type Output = Vec3<T>;

    fn add(self, rhs: Vec3<T>) -> (r: Vec3<T>)
        ensures
            <T as AddSpec>::obeys_add_spec() ==> r == Vec3([
                self.0[0].add_spec(rhs.0[0]),
                self.0[1].add_spec(rhs.0[1]),
                self.0[2].add_spec(rhs.0[2]),
            ]),
    {
        Vec3([
            self.0[0] + rhs.0[0],
            self.0[1] + rhs.0[1],
            self.0[2] + rhs.0[2],
        ])
    }
}

impl<T: Copy + Sub<Output = T>> vstd::std_specs::ops::SubSpecImpl<T> for Vec3<T> {
    open spec fn obeys_sub_spec() -> bool {
        <T as SubSpec>::obeys_sub_spec()
    }

    open spec fn sub_req(self, rhs: T) -> bool {
        &&& self.0[0].sub_req(rhs)
        &&& self.0[1].sub_req(rhs)
        &&& self.0[2].sub_req(rhs)
    }

    open spec fn sub_spec(self, rhs: T) -> Vec3<T> {
        Vec3([
            self.0[0].sub_spec(rhs),
            self.0[1].sub_spec(rhs),
            self.0[2].sub_spec(rhs),
        ])
    }
}

impl<T: Copy + Sub<Output = T>> Sub<T> for Vec3<T> {
    type Output = Vec3<T>;

    fn sub(self, rhs: T) -> (r: Vec3<T>)
        ensures
            <T as SubSpec>::obeys_sub_spec() ==> r == Vec3([
                self.0[0].sub_spec(rhs),
                self.0[1].sub_spec(rhs),
                self.0[2].sub_spec(rhs),
            ]),
    {
        Vec3([
            self.0[0] - rhs,
            self.0[1] - rhs,
            self.0[2] - rhs,
        ])
    }
}

impl<T: Copy + Sub<Output = T>> vstd::std_specs::ops::SubSpecImpl<Vec3<T>> for Vec3<T> {
    open spec fn obeys_sub_spec() -> bool {
        <T as SubSpec>::obeys_sub_spec()
    }

    open spec fn sub_req(self, rhs: Vec3<T>) -> bool {
        &&& self.0[0].sub_req(rhs.0[0])
        &&& self.0[1].sub_req(rhs.0[1])
        &&& self.0[2].sub_req(rhs.0[2])
    }

    open spec fn sub_spec(self, rhs: Vec3<T>) -> Vec3<T> {
        Vec3([
            self.0[0].sub_spec(rhs.0[0]),
            self.0[1].sub_spec(rhs.0[1]),
            self.0[2].sub_spec(rhs.0[2]),
        ])
    }
}

impl<T: Copy + Sub<Output = T>> Sub<Vec3<T>> for Vec3<T> {
    type Output = Vec3<T>;

    fn sub(self, rhs: Vec3<T>) -> (r: Vec3<T>)
        ensures
            <T as SubSpec>::obeys_sub_spec() ==> r == Vec3([
                self.0[0].sub_spec(rhs.0[0]),
                self.0[1].sub_spec(rhs.0[1]),
                self.0[2].sub_spec(rhs.0[2]),
            ]),
    {
        Vec3([
            self.0[0] - rhs.0[0],
            self.0[1] - rhs.0[1],
            self.0[2] - rhs.0[2],
        ])
    }
}

impl<T: Copy + Mul<Output = T>> vstd::std_specs::ops::MulSpecImpl<T> for Vec3<T> {
    open spec fn obeys_mul_spec() -> bool {
        <T as MulSpec>::obeys_mul_spec()
    }

    open spec fn mul_req(self, rhs: T) -> bool {
        &&& self.0[0].mul_req(rhs)
        &&& self.0[1].mul_req(rhs)
        &&& self.0[2].mul_req(rhs)
    }

    open spec fn mul_spec(self, rhs: T) -> Vec3<T> {
        Vec3([
            self.0[0].mul_spec(rhs),
            self.0[1].mul_spec(rhs),
            self.0[2].mul_spec(rhs),
        ])
    }
}

impl<T: Copy + Mul<Output = T>> Mul<T> for Vec3<T> {
    type Output = Vec3<T>;

    fn mul(self, rhs: T) -> (r: Vec3<T>)
        ensures
            <T as MulSpec>::obeys_mul_spec() ==> r == Vec3([
                self.0[0].mul_spec(rhs),
                self.0[1].mul_spec(rhs),
                self.0[2].mul_spec(rhs),
            ]),
    {
        Vec3([
            self.0[0] * rhs,
            self.0[1] * rhs,
            self.0[2] * rhs,
        ])
    }
}

impl<T: Copy + Mul<Output = T>> vstd::std_specs::ops::MulSpecImpl<Vec3<T>> for Vec3<T> {
    open spec fn obeys_mul_spec() -> bool {
        <T as MulSpec>::obeys_mul_spec()
    }

    open spec fn mul_req(self, rhs: Vec3<T>) -> bool {
        &&& self.0[0].mul_req(rhs.0[0])
        &&& self.0[1].mul_req(rhs.0[1])
        &&& self.0[2].mul_req(rhs.0[2])
    }

    open spec fn mul_spec(self, rhs: Vec3<T>) -> Vec3<T> {
        Vec3([
            self.0[0].mul_spec(rhs.0[0]),
            self.0[1].mul_spec(rhs.0[1]),
            self.0[2].mul_spec(rhs.0[2]),
        ])
    }
}

impl<T: Copy + Mul<Output = T>> Mul<Vec3<T>> for Vec3<T> {
    type Output = Vec3<T>;

    fn mul(self, rhs: Vec3<T>) -> (r: Vec3<T>)
        ensures
            <T as MulSpec>::obeys_mul_spec() ==> r == Vec3([
                self.0[0].mul_spec(rhs.0[0]),
                self.0[1].mul_spec(rhs.0[1]),
                self.0[2].mul_spec(rhs.0[2]),
            ]),
    {
        Vec3([
            self.0[0] * rhs.0[0],
            self.0[1] * rhs.0[1],
            self.0[2] * rhs.0[2],
        ])
    }
}

impl<T: Copy + Div<Output = T>> vstd::std_specs::ops::DivSpecImpl<T> for Vec3<T> {
    open spec fn obeys_div_spec() -> bool {
        <T as DivSpec>::obeys_div_spec()
    }

    open spec fn div_req(self, rhs: T) -> bool {
        &&& self.0[0].div_req(rhs)
        &&& self.0[1].div_req(rhs)
        &&& self.0[2].div_req(rhs)
    }

    open spec fn div_spec(self, rhs: T) -> Vec3<T> {
        Vec3([
            self.0[0].div_spec(rhs),
            self.0[1].div_spec(rhs),
            self.0[2].div_spec(rhs),
        ])
    }
}

impl<T: Copy + Div<Output = T>> Div<T> for Vec3<T> {
    type Output = Vec3<T>;

    fn div(self, rhs: T) -> (r: Vec3<T>)
        ensures
            <T as DivSpec>::obeys_div_spec() ==> r == Vec3([
                self.0[0].div_spec(rhs),
                self.0[1].div_spec(rhs),
                self.0[2].div_spec(rhs),
            ]),
    {
        Vec3([
            self.0[0] / rhs,
            self.0[1] / rhs,
            self.0[2] / rhs,
        ])
    }
}

impl<T: Copy + Div<Output = T>> vstd::std_specs::ops::DivSpecImpl<Vec3<T>> for Vec3<T> {
    open spec fn obeys_div_spec() -> bool {
        <T as DivSpec>::obeys_div_spec()
    }

    open spec fn div_req(self, rhs: Vec3<T>) -> bool {
        &&& self.0[0].div_req(rhs.0[0])
        &&& self.0[1].div_req(rhs.0[1])
        &&& self.0[2].div_req(rhs.0[2])
    }

    open spec fn div_spec(self, rhs: Vec3<T>) -> Vec3<T> {
        Vec3([
            self.0[0].div_spec(rhs.0[0]),
            self.0[1].div_spec(rhs.0[1]),
            self.0[2].div_spec(rhs.0[2]),
        ])
    }
}

impl<T: Copy + Div<Output = T>> Div<Vec3<T>> for Vec3<T> {
    type Output = Vec3<T>;

    fn div(self, rhs: Vec3<T>) -> (r: Vec3<T>)
        ensures
            <T as DivSpec>::obeys_div_spec() ==> r == Vec3([
                self.0[0].div_spec(rhs.0[0]),
                self.0[1].div_spec(rhs.0[1]),
                self.0[2].div_spec(rhs.0[2]),
            ]),
    {
        Vec3([
            self.0[0] / rhs.0[0],
            self.0[1] / rhs.0[1],
            self.0[2] / rhs.0[2],
        ])
    }
}

impl<T: Copy + Neg<Output = T>> vstd::std_specs::ops::NegSpecImpl for Vec3<T> {
    open spec fn obeys_neg_spec() -> bool {
        <T as NegSpec>::obeys_neg_spec()
    }

    open spec fn neg_req(self) -> bool {
        &&& self.0[0].neg_req()
        &&& self.0[1].neg_req()
        &&& self.0[2].neg_req()
    }

    open spec fn neg_spec(self) -> Vec3<T> {
        Vec3([
            self.0[0].neg_spec(),
            self.0[1].neg_spec(),
            self.0[2].neg_spec(),
        ])
    }
}

impl<T: Copy + Neg<Output = T>> Neg for Vec3<T> {
    type Output = Vec3<T>;

    /// Negates every component.
    fn neg(self) -> (r: Vec3<T>)
        ensures
            <T as NegSpec>::obeys_neg_spec() ==> r == Vec3([
                self.0[0].neg_spec(),
                self.0[1].neg_spec(),
                self.0[2].neg_spec(),
            ]),
    {
        Vec3([
            self.0[0].neg(),
            self.0[1].neg(),
            self.0[2].neg(),
        ])
    }
}

impl<T: Copy + Add<Output = T> + Mul<Output = T>> Vec3<T> {
    /// The element operations that `dot` performs are all defined.
    pub open spec fn dot_req(self, rhs: Vec3<T>) -> bool {
        let p0 = self.0[0].mul_spec(rhs.0[0]);
        let p1 = self.0[1].mul_spec(rhs.0[1]);
        let p2 = self.0[2].mul_spec(rhs.0[2]);
        &&& self.0[0].mul_req(rhs.0[0])
        &&& self.0[1].mul_req(rhs.0[1])
        &&& self.0[2].mul_req(rhs.0[2])
        &&& p0.add_req(p1)
        &&& p0.add_spec(p1).add_req(p2)
    }

    /// The sum of the products of corresponding components, summed from the first.
    pub open spec fn spec_dot(self, rhs: Vec3<T>) -> T {
        let p0 = self.0[0].mul_spec(rhs.0[0]);
        let p1 = self.0[1].mul_spec(rhs.0[1]);
        let p2 = self.0[2].mul_spec(rhs.0[2]);
        p0.add_spec(p1).add_spec(p2)
    }

    pub fn dot(&self, rhs: &Vec3<T>) -> (r: T)
        requires
            <T as AddSpec>::obeys_add_spec(),
            <T as MulSpec>::obeys_mul_spec(),
            self.dot_req(*rhs),
        ensures
            r == self.spec_dot(*rhs),
    {
        self.0[0] * rhs.0[0] + self.0[1] * rhs.0[1] + self.0[2] * rhs.0[2]
    }

    /// The dot product of the vector with itself.
    pub fn square_length(&self) -> (r: T)
        requires
            <T as AddSpec>::obeys_add_spec(),
            <T as MulSpec>::obeys_mul_spec(),
            self.dot_req(*self),
        ensures
            r == self.spec_dot(*self),
    {
        self.dot(self)
    }
}

/// A vector of four components of type `T`, addressed by position.
#[derive(Clone, Copy, Debug, PartialEq, Eq, Structural)]
pub struct Vec4<T>(pub [T; 4]);

impl<T: Copy> Vec4<T> {
    /// The vector whose components all equal `v`.
    pub open spec fn spec_all(v: T) -> Vec4<T> {
        Vec4([v, v, v, v])
    }

    pub fn all(v: T) -> (r: Vec4<T>)
        ensures
            r == Self::spec_all(v),
    {
        Vec4([v, v, v, v])
    }

    pub fn x(&self) -> (r: T)
        ensures
            r == self.0[0],
    {
        self.0[0]
    }

    pub fn y(&self) -> (r: T)
        ensures
            r == self.0[1],
    {
        self.0[1]
    }

    pub fn z(&self) -> (r: T)
        ensures
            r == self.0[2],
    {
        self.0[2]
    }

    pub fn w(&self) -> (r: T)
        ensures
            r == self.0[3],
    {
        self.0[3]
    }

    pub fn xy(&self) -> (r: Vec2<T>)
        ensures
            r == Vec2([self.0[0], self.0[1]]),
    {
        Vec2([self.x(), self.y()])
    }

    pub fn yz(&self) -> (r: Vec2<T>)
        ensures
            r == Vec2([self.0[1], self.0[2]]),
    {
        Vec2([self.y(), self.z()])
    }

    pub fn zw(&self) -> (r: Vec2<T>)
        ensures
            r == Vec2([self.0[2], self.0[3]]),
    {
        Vec2([self.z(), self.w()])
    }

    pub fn xyz(&self) -> (r: Vec3<T>)
        ensures
            r == Vec3([self.0[0], self.0[1], self.0[2]]),
    {
        Vec3([self.x(), self.y(), self.z()])
    }

    pub fn yzw(&self) -> (r: Vec3<T>)
        ensures
            r == Vec3([self.0[1], self.0[2], self.0[3]]),
    {
        Vec3([self.y(), self.z(), self.w()])
    }

    /// Replaces the component at position `i`.
    pub fn set(&mut self, i: usize, v: T)
        requires
            i < 4,
        ensures
            final(self).0@ == old(self).0@.update(i as int, v),
    {
        self.0[i] = v;
    }

    /// `self += rhs`, for a scalar `rhs` (applied to every component) or a vector (component
    /// by component).
    pub fn add_assign<R>(&mut self, rhs: R)
        where Vec4<T>: Add<R, Output = Vec4<T>>,
        requires
            old(self).add_req(rhs),
        ensures
            <Vec4<T> as AddSpec<R>>::obeys_add_spec() ==> *final(self) == old(self).add_spec(rhs),
    {
        *self = *self + rhs;
    }

    /// `self -= rhs`, for a scalar `rhs` (applied to every component) or a vector (component
    /// by component).
    pub fn sub_assign<R>(&mut self, rhs: R)
        where Vec4<T>: Sub<R, Output = Vec4<T>>,
        requires
            old(self).sub_req(rhs),
        ensures
            <Vec4<T> as SubSpec<R>>::obeys_sub_spec() ==> *final(self) == old(self).sub_spec(rhs),
    {
        *self = *self - rhs;
    }

    /// `self *= rhs`, for a scalar `rhs` (applied to every component) or a vector (component
    /// by component).
    pub fn mul_assign<R>(&mut self, rhs: R)
        where Vec4<T>: Mul<R, Output = Vec4<T>>,
        requires
            old(self).mul_req(rhs),
        ensures
            <Vec4<T> as MulSpec<R>>::obeys_mul_spec() ==> *final(self) == old(self).mul_spec(rhs),
    {
        *self = *self * rhs;
    }

    /// `self /= rhs`, for a scalar `rhs` (applied to every component) or a vector (component
    /// by component).
    pub fn div_assign<R>(&mut self, rhs: R)
        where Vec4<T>: Div<R, Output = Vec4<T>>,
        requires
            old(self).div_req(rhs),
        ensures
            <Vec4<T> as DivSpec<R>>::obeys_div_spec() ==> *final(self) == old(self).div_spec(rhs),
    {
        *self = *self / rhs;
    }
}

impl<T> vstd::std_specs::core::IndexSpecImpl<usize> for Vec4<T> {
    open spec fn index_req(&self, index: &usize) -> bool {
        *index < 4
    }
}

impl<T> Index<usize> for Vec4<T> {
    type Output = T;

    fn index(&self, index: usize) -> (r: &T)
        ensures
            *r == self.0[index as int],
    {
        &self.0[index]
    }
}

impl<T: Default + Copy> Default for Vec4<T> {
    /// The vector whose components all hold `T`'s default value (zero for numbers).
    fn default() -> (r: Vec4<T>)
        ensures
            r == Self::spec_all(r.0[0]),
            call_ensures(T::default, (), r.0[0]),
    {
        let zero = T::default();
        Vec4([zero, zero, zero, zero])
    }
}

impl<T: Copy + Add<Output = T>> vstd::std_specs::ops::AddSpecImpl<T> for Vec4<T> {
    open spec fn obeys_add_spec() -> bool {
        <T as AddSpec>::obeys_add_spec()
    }

    open spec fn add_req(self, rhs: T) -> bool {
        &&& self.0[0].add_req(rhs)
        &&& self.0[1].add_req(rhs)
        &&& self.0[2].add_req(rhs)
        &&& self.0[3].add_req(rhs)
    }

    open spec fn add_spec(self, rhs: T) -> Vec4<T> {
        Vec4([
            self.0[0].add_spec(rhs),
            self.0[1].add_spec(rhs),
            self.0[2].add_spec(rhs),
            self.0[3].add_spec(rhs),
        ])
    }
}

impl<T: Copy + Add<Output = T>> Add<T> for Vec4<T> {
    type Output = Vec4<T>;

    fn add(self, rhs: T) -> (r: Vec4<T>)
        ensures
            <T as AddSpec>::obeys_add_spec() ==> r == Vec4([
                self.0[0].add_spec(rhs),
                self.0[1].add_spec(rhs),
                self.0[2].add_spec(rhs),
                self.0[3].add_spec(rhs),
            ]),
    {
        Vec4([
            self.0[0] + rhs,
            self.0[1] + rhs,
            self.0[2] + rhs,
            self.0[3] + rhs,
        ])
    }
}

impl<T: Copy + Add<Output = T>> vstd::std_specs::ops::AddSpecImpl<Vec4<T>> for Vec4<T> {
    open spec fn obeys_add_spec() -> bool {
        <T as AddSpec>::obeys_add_spec()
    }

    open spec fn add_req(self, rhs: Vec4<T>) -> bool {
        &&& self.0[0].add_req(rhs.0[0])
        &&& self.0[1].add_req(rhs.0[1])
        &&& self.0[2].add_req(rhs.0[2])
        &&& self.0[3].add_req(rhs.0[3])
    }

    open spec fn add_spec(self, rhs: Vec4<T>) -> Vec4<T> {
        Vec4([
            self.0[0].add_spec(rhs.0[0]),
            self.0[1].add_spec(rhs.0[1]),
            self.0[2].add_spec(rhs.0[2]),
            self.0[3].add_spec(rhs.0[3]),
        ])
    }
}

impl<T: Copy + Add<Output = T>> Add<Vec4<T>> for Vec4<T> {
    type Output = Vec4<T>;

    fn add(self, rhs: Vec4<T>) -> (r: Vec4<T>)
        ensures
            <T as AddSpec>::obeys_add_spec() ==> r == Vec4([
                self.0[0].add_spec(rhs.0[0]),
                self.0[1].add_spec(rhs.0[1]),
                self.0[2].add_spec(rhs.0[2]),
                self.0[3].add_spec(rhs.0[3]),
            ]),
    {
        Vec4([
            self.0[0] + rhs.0[0],
            self.0[1] + rhs.0[1],
            self.0[2] + rhs.0[2],
            self.0[3] + rhs.0[3],
        ])
    }
}

impl<T: Copy + Sub<Output = T>> vstd::std_specs::ops::SubSpecImpl<T> for Vec4<T> {
    open spec fn obeys_sub_spec() -> bool {
        <T as SubSpec>::obeys_sub_spec()
    }

    open spec fn sub_req(self, rhs: T) -> bool {
        &&& self.0[0].sub_req(rhs)
        &&& self.0[1].sub_req(rhs)
        &&& self.0[2].sub_req(rhs)
        &&& self.0[3].sub_req(rhs)
    }

    open spec fn sub_spec(self, rhs: T) -> Vec4<T> {
        Vec4([
            self.0[0].sub_spec(rhs),
            self.0[1].sub_spec(rhs),
            self.0[2].sub_spec(rhs),
            self.0[3].sub_spec(rhs),
        ])
    }
}

impl<T: Copy + Sub<Output = T>> Sub<T> for Vec4<T> {
    type Output = Vec4<T>;

    fn sub(self, rhs: T) -> (r: Vec4<T>)
        ensures
            <T as SubSpec>::obeys_sub_spec() ==> r == Vec4([
                self.0[0].sub_spec(rhs),
                self.0[1].sub_spec(rhs),
                self.0[2].sub_spec(rhs),
                self.0[3].sub_spec(rhs),
            ]),
    {
        Vec4([
            self.0[0] - rhs,
            self.0[1] - rhs,
            self.0[2] - rhs,
            self.0[3] - rhs,
        ])
    }
}

impl<T: Copy + Sub<Output = T>> vstd::std_specs::ops::SubSpecImpl<Vec4<T>> for Vec4<T> {
    open spec fn obeys_sub_spec() -> bool {
        <T as SubSpec>::obeys_sub_spec()
    }

    open spec fn sub_req(self, rhs: Vec4<T>) -> bool {
        &&& self.0[0].sub_req(rhs.0[0])
        &&& self.0[1].sub_req(rhs.0[1])
        &&& self.0[2].sub_req(rhs.0[2])
        &&& self.0[3].sub_req(rhs.0[3])
    }

    open spec fn sub_spec(self, rhs: Vec4<T>) -> Vec4<T> {
        Vec4([
            self.0[0].sub_spec(rhs.0[0]),
            self.0[1].sub_spec(rhs.0[1]),
            self.0[2].sub_spec(rhs.0[2]),
            self.0[3].sub_spec(rhs.0[3]),
        ])
    }
}

impl<T: Copy + Sub<Output = T>> Sub<Vec4<T>> for Vec4<T> {
    type Output = Vec4<T>;

    fn sub(self, rhs: Vec4<T>) -> (r: Vec4<T>)
        ensures
            <T as SubSpec>::obeys_sub_spec() ==> r == Vec4([
                self.0[0].sub_spec(rhs.0[0]),
                self.0[1].sub_spec(rhs.0[1]),
                self.0[2].sub_spec(rhs.0[2]),
                self.0[3].sub_spec(rhs.0[3]),
            ]),
    {
        Vec4([
            self.0[0] - rhs.0[0],
            self.0[1] - rhs.0[1],
            self.0[2] - rhs.0[2],
            self.0[3] - rhs.0[3],
        ])
    }
}

impl<T: Copy + Mul<Output = T>> vstd::std_specs::ops::MulSpecImpl<T> for Vec4<T> {
    open spec fn obeys_mul_spec() -> bool {
        <T as MulSpec>::obeys_mul_spec()
    }

    open spec fn mul_req(self, rhs: T) -> bool {
        &&& self.0[0].mul_req(rhs)
        &&& self.0[1].mul_req(rhs)
        &&& self.0[2].mul_req(rhs)
        &&& self.0[3].mul_req(rhs)
    }

    open spec fn mul_spec(self, rhs: T) -> Vec4<T> {
        Vec4([
            self.0[0].mul_spec(rhs),
            self.0[1].mul_spec(rhs),
            self.0[2].mul_spec(rhs),
            self.0[3].mul_spec(rhs),
        ])
    }
}

impl<T: Copy + Mul<Output = T>> Mul<T> for Vec4<T> {
    type Output = Vec4<T>;

    fn mul(self, rhs: T) -> (r: Vec4<T>)
        ensures
            <T as MulSpec>::obeys_mul_spec() ==> r == Vec4([
                self.0[0].mul_spec(rhs),
                self.0[1].mul_spec(rhs),
                self.0[2].mul_spec(rhs),
                self.0[3].mul_spec(rhs),
            ]),
    {
        Vec4([
            self.0[0] * rhs,
            self.0[1] * rhs,
            self.0[2] * rhs,
            self.0[3] * rhs,
        ])
    }
}

impl<T: Copy + Mul<Output = T>> vstd::std_specs::ops::MulSpecImpl<Vec4<T>> for Vec4<T> {
    open spec fn obeys_mul_spec() -> bool {
        <T as MulSpec>::obeys_mul_spec()
    }

    open spec fn mul_req(self, rhs: Vec4<T>) -> bool {
        &&& self.0[0].mul_req(rhs.0[0])
        &&& self.0[1].mul_req(rhs.0[1])
        &&& self.0[2].mul_req(rhs.0[2])
        &&& self.0[3].mul_req(rhs.0[3])
    }

    open spec fn mul_spec(self, rhs: Vec4<T>) -> Vec4<T> {
        Vec4([
            self.0[0].mul_spec(rhs.0[0]),
            self.0[1].mul_spec(rhs.0[1]),
            self.0[2].mul_spec(rhs.0[2]),
            self.0[3].mul_spec(rhs.0[3]),
        ])
    }
}

impl<T: Copy + Mul<Output = T>> Mul<Vec4<T>> for Vec4<T> {
    type Output = Vec4<T>;

    fn mul(self, rhs: Vec4<T>) -> (r: Vec4<T>)
        ensures
            <T as MulSpec>::obeys_mul_spec() ==> r == Vec4([
                self.0[0].mul_spec(rhs.0[0]),
                self.0[1].mul_spec(rhs.0[1]),
                self.0[2].mul_spec(rhs.0[2]),
                self.0[3].mul_spec(rhs.0[3]),
            ]),
    {
        Vec4([
            self.0[0] * rhs.0[0],
            self.0[1] * rhs.0[1],
            self.0[2] * rhs.0[2],
            self.0[3] * rhs.0[3],
        ])
    }
}

impl<T: Copy + Div<Output = T>> vstd::std_specs::ops::DivSpecImpl<T> for Vec4<T> {
    open spec fn obeys_div_spec() -> bool {
        <T as DivSpec>::obeys_div_spec()
    }

    open spec fn div_req(self, rhs: T) -> bool {
        &&& self.0[0].div_req(rhs)
        &&& self.0[1].div_req(rhs)
        &&& self.0[2].div_req(rhs)
        &&& self.0[3].div_req(rhs)
    }

    open spec fn div_spec(self, rhs: T) -> Vec4<T> {
        Vec4([
            self.0[0].div_spec(rhs),
            self.0[1].div_spec(rhs),
            self.0[2].div_spec(rhs),
            self.0[3].div_spec(rhs),
        ])
    }
}

impl<T: Copy + Div<Output = T>> Div<T> for Vec4<T> {
    type Output = Vec4<T>;

    fn div(self, rhs: T) -> (r: Vec4<T>)
        ensures
            <T as DivSpec>::obeys_div_spec() ==> r == Vec4([
                self.0[0].div_spec(rhs),
                self.0[1].div_spec(rhs),
                self.0[2].div_spec(rhs),
                self.0[3].div_spec(rhs),
            ]),
    {
        Vec4([
            self.0[0] / rhs,
            self.0[1] / rhs,
            self.0[2] / rhs,
            self.0[3] / rhs,
        ])
    }
}

impl<T: Copy + Div<Output = T>> vstd::std_specs::ops::DivSpecImpl<Vec4<T>> for Vec4<T> {
    open spec fn obeys_div_spec() -> bool {
        <T as DivSpec>::obeys_div_spec()
    }

    open spec fn div_req(self, rhs: Vec4<T>) -> bool {
        &&& self.0[0].div_req(rhs.0[0])
        &&& self.0[1].div_req(rhs.0[1])
        &&& self.0[2].div_req(rhs.0[2])
        &&& self.0[3].div_req(rhs.0[3])
    }

    open spec fn div_spec(self, rhs: Vec4<T>) -> Vec4<T> {
        Vec4([
            self.0[0].div_spec(rhs.0[0]),
            self.0[1].div_spec(rhs.0[1]),
            self.0[2].div_spec(rhs.0[2]),
            self.0[3].div_spec(rhs.0[3]),
        ])
    }
}

impl<T: Copy + Div<Output = T>> Div<Vec4<T>> for Vec4<T> {
    type Output = Vec4<T>;

    fn div(self, rhs: Vec4<T>) -> (r: Vec4<T>)
        ensures
            <T as DivSpec>::obeys_div_spec() ==> r == Vec4([
                self.0[0].div_spec(rhs.0[0]),
                self.0[1].div_spec(rhs.0[1]),
                self.0[2].div_spec(rhs.0[2]),
                self.0[3].div_spec(rhs.0[3]),
            ]),
    {
        Vec4([
            self.0[0] / rhs.0[0],
            self.0[1] / rhs.0[1],
            self.0[2] / rhs.0[2],
            self.0[3] / rhs.0[3],
        ])
    }
}

impl<T: Copy + Neg<Output = T>> vstd::std_specs::ops::NegSpecImpl for Vec4<T> {
    open spec fn obeys_neg_spec() -> bool {
        <T as NegSpec>::obeys_neg_spec()
    }

    open spec fn neg_req(self) -> bool {
        &&& self.0[0].neg_req()
        &&& self.0[1].neg_req()
        &&& self.0[2].neg_req()
        &&& self.0[3].neg_req()
    }

    open spec fn neg_spec(self) -> Vec4<T> {
        Vec4([
            self.0[0].neg_spec(),
            self.0[1].neg_spec(),
            self.0[2].neg_spec(),
            self.0[3].neg_spec(),
        ])
    }
}

impl<T: Copy + Neg<Output = T>> Neg for Vec4<T> {
    type Output = Vec4<T>;

    /// Negates every component.
    fn neg(self) -> (r: Vec4<T>)
        ensures
            <T as NegSpec>::obeys_neg_spec() ==> r == Vec4([
                self.0[0].neg_spec(),
                self.0[1].neg_spec(),
                self.0[2].neg_spec(),
                self.0[3].neg_spec(),
            ]),
    {
        Vec4([
            self.0[0].neg(),
            self.0[1].neg(),
            self.0[2].neg(),
            self.0[3].neg(),
        ])
    }
}

impl<T: Copy + Add<Output = T> + Mul<Output = T>> Vec4<T> {
    /// The element operations that `dot` performs are all defined.
    pub open spec fn dot_req(self, rhs: Vec4<T>) -> bool {
        let p0 = self.0[0].mul_spec(rhs.0[0]);
        let p1 = self.0[1].mul_spec(rhs.0[1]);
        let p2 = self.0[2].mul_spec(rhs.0[2]);
        let p3 = self.0[3].mul_spec(rhs.0[3]);
        &&& self.0[0].mul_req(rhs.0[0])
        &&& self.0[1].mul_req(rhs.0[1])
        &&& self.0[2].mul_req(rhs.0[2])
        &&& self.0[3].mul_req(rhs.0[3])
        &&& p0.add_req(p1)
        &&& p0.add_spec(p1).add_req(p2)
        &&& p0.add_spec(p1).add_spec(p2).add_req(p3)
    }

    /// The sum of the products of corresponding components, summed from the first.
    pub open spec fn spec_dot(self, rhs: Vec4<T>) -> T {
        let p0 = self.0[0].mul_spec(rhs.0[0]);
        let p1 = self.0[1].mul_spec(rhs.0[1]);
        let p2 = self.0[2].mul_spec(rhs.0[2]);
        let p3 = self.0[3].mul_spec(rhs.0[3]);
        p0.add_spec(p1).add_spec(p2).add_spec(p3)
    }

    pub fn dot(&self, rhs: &Vec4<T>) -> (r: T)
        requires
            <T as AddSpec>::obeys_add_spec(),
            <T as MulSpec>::obeys_mul_spec(),
            self.dot_req(*rhs),
        ensures
            r == self.spec_dot(*rhs),
    {
        self.0[0] * rhs.0[0] + self.0[1] * rhs.0[1] + self.0[2] * rhs.0[2] + self.0[3] * rhs.0[3]
    }

    /// The dot product of the vector with itself.
    pub fn square_length(&self) -> (r: T)
        requires
            <T as AddSpec>::obeys_add_spec(),
            <T as MulSpec>::obeys_mul_spec(),
            self.dot_req(*self),
        ensures
            r == self.spec_dot(*self),
    {
        self.dot(self)
    }
}

impl<T: Copy + Default + Sub<Output = T> + Mul<Output = T>> Vec2<T> {
    /// The planar cross product, as the third component of a vector whose first two
    /// components hold `T`'s default value (zero for numbers).
    pub fn cross(&self, rhs: &Vec2<T>) -> (r: Vec3<T>)
        requires
            <T as SubSpec>::obeys_sub_spec(),
            <T as MulSpec>::obeys_mul_spec(),
            wedge_req(self.0[0], rhs.0[1], self.0[1], rhs.0[0]),
        ensures
            r == Vec3([r.0[0], r.0[0], spec_wedge(self.0[0], rhs.0[1], self.0[1], rhs.0[0])]),
            call_ensures(T::default, (), r.0[0]),
    {
        let zero = T::default();
        Vec3([zero, zero, self.0[0] * rhs.0[1] - self.0[1] * rhs.0[0]])
    }
}

impl<T: Copy + Neg<Output = T>> Vec2<T> {
    /// Rotation by a quarter turn counterclockwise: `(-y, x)`.
    pub open spec fn spec_rotate_left_90(self) -> Vec2<T> {
        Vec2([self.0[1].neg_spec(), self.0[0]])
    }

    /// Rotation by a quarter turn clockwise: `(y, -x)`.
    pub open spec fn spec_rotate_right_90(self) -> Vec2<T> {
        Vec2([self.0[1], self.0[0].neg_spec()])
    }

    pub fn rotate_left_90(&self) -> (r: Vec2<T>)
        requires
            self.0[1].neg_req(),
        ensures
            <T as NegSpec>::obeys_neg_spec() ==> r == self.spec_rotate_left_90(),
    {
        Vec2([self.0[1].neg(), self.0[0]])
    }

    pub fn rotate_right_90(&self) -> (r: Vec2<T>)
        requires
            self.0[0].neg_req(),
        ensures
            <T as NegSpec>::obeys_neg_spec() ==> r == self.spec_rotate_right_90(),
    {
        Vec2([self.0[1], self.0[0].neg()])
    }
}

impl<T: Copy + Sub<Output = T> + Mul<Output = T>> Vec3<T> {
    /// The element operations that `cross` performs are all defined.
    pub open spec fn cross_req(self, rhs: Vec3<T>) -> bool {
        &&& wedge_req(self.0[1], rhs.0[2], self.0[2], rhs.0[1])
        &&& wedge_req(self.0[2], rhs.0[0], self.0[0], rhs.0[2])
        &&& wedge_req(self.0[0], rhs.0[1], self.0[1], rhs.0[0])
    }

    /// The right-handed cross product
    /// `(y1 z2 - z1 y2, z1 x2 - x1 z2, x1 y2 - y1 x2)`.
    pub open spec fn spec_cross(self, rhs: Vec3<T>) -> Vec3<T> {
        Vec3([
            spec_wedge(self.0[1], rhs.0[2], self.0[2], rhs.0[1]),
            spec_wedge(self.0[2], rhs.0[0], self.0[0], rhs.0[2]),
            spec_wedge(self.0[0], rhs.0[1], self.0[1], rhs.0[0]),
        ])
    }

    pub fn cross(&self, rhs: &Vec3<T>) -> (r: Vec3<T>)
        requires
            <T as SubSpec>::obeys_sub_spec(),
            <T as MulSpec>::obeys_mul_spec(),
            self.cross_req(*rhs),
        ensures
            r == self.spec_cross(*rhs),
    {
        Vec3([
            self.0[1] * rhs.0[2] - self.0[2] * rhs.0[1],
            self.0[2] * rhs.0[0] - self.0[0] * rhs.0[2],
            self.0[0] * rhs.0[1] - self.0[1] * rhs.0[0],
        ])
    }
}

} // verus!
