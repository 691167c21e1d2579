//! Square matrices of dimension two, three and four, stored as a vector of row vectors.
//!
//! Every operator works element by element, row by row, through the row vectors' own
//! operators: `*` is the elementwise (Hadamard) product, not the matrix product. The
//! right-hand operand is either a scalar or a matrix of the same dimension.
use crate::vec::{Vec2, Vec3, Vec4};
use core::ops::{Add, Div, Index, Mul, Sub};
use vstd::prelude::*;
use vstd::std_specs::ops::{AddSpec, DivSpec, MulSpec, SubSpec};

verus! {

/// A 2 x 2 matrix: 2 rows, each a `Vec2<T>`.
#[derive(Clone, Copy, Debug, PartialEq, Eq, Structural)]
pub struct Mat2<T>(pub Vec2<Vec2<T>>);

impl<T> vstd::std_specs::core::IndexSpecImpl<usize> for Mat2<T> {
    open spec fn index_req(&self, index: &usize) -> bool {
        *index < 2
    }
}

impl<T> Index<usize> for Mat2<T> {
    type Output = Vec2<T>;

    /// The row at position `index`.
    fn index(&self, index: usize) -> (r: &Vec2<T>)
        ensures
            *r == self.0.0[index as int],
    {
        &self.0.0[index]
    }
}

impl<T: Default + Copy> Default for Mat2<T> {
    /// The matrix whose elements all hold `T`'s default value (zero for numbers); not the
    /// identity matrix.
    fn default() -> (r: Mat2<T>)
        ensures
            r == Mat2(Vec2::spec_all(Vec2::spec_all(r.0.0[0].0[0]))),
            call_ensures(T::default, (), r.0.0[0].0[0]),
    {
        let zero = T::default();
        Mat2(Vec2::all(Vec2::all(zero)))
    }
}

impl<T: Copy + Add<Output = T>> vstd::std_specs::ops::AddSpecImpl<T> for Mat2<T> {
    open spec fn obeys_add_spec() -> bool {
        <T as AddSpec>::obeys_add_spec()
    }

    open spec fn add_req(self, rhs: T) -> bool {
        &&& AddSpec::add_req(self.0.0[0], rhs)
        &&& AddSpec::add_req(self.0.0[1], rhs)
    }

    open spec fn add_spec(self, rhs: T) -> Mat2<T> {
        Mat2(Vec2([
            AddSpec::add_spec(self.0.0[0], rhs),
            AddSpec::add_spec(self.0.0[1], rhs),
        ]))
    }
}

impl<T: Copy + Add<Output = T>> Add<T> for Mat2<T> {
    type Output = Mat2<T>;

    fn add(self, rhs: T) -> (r: Mat2<T>)
        ensures
            <T as AddSpec>::obeys_add_spec() ==> r == Mat2(Vec2([
                AddSpec::add_spec(self.0.0[0], rhs),
                AddSpec::add_spec(self.0.0[1], rhs),
            ])),
    {
        Mat2(Vec2([
            self.0.0[0] + rhs,
            self.0.0[1] + rhs,
        ]))
    }
}

impl<T: Copy + Add<Output = T>> vstd::std_specs::ops::AddSpecImpl<Mat2<T>> for Mat2<T> {
    open spec fn obeys_add_spec() -> bool {
        <T as AddSpec>::obeys_add_spec()
    }

    open spec fn add_req(self, rhs: Mat2<T>) -> bool {
        AddSpec::add_req(self.0, rhs.0)
    }

    open spec fn add_spec(self, rhs: Mat2<T>) -> Mat2<T> {
        Mat2(AddSpec::add_spec(self.0, rhs.0))
    }
}

impl<T: Copy + Add<Output = T>> Add<Mat2<T>> for Mat2<T> {
    type Output = Mat2<T>;

    fn add(self, rhs: Mat2<T>) -> (r: Mat2<T>)
        ensures
            <T as AddSpec>::obeys_add_spec() ==> r == Mat2(AddSpec::add_spec(self.0, rhs.0)),
    {
        Mat2(self.0 + rhs.0)
    }
}

impl<T: Copy + Sub<Output = T>> vstd::std_specs::ops::SubSpecImpl<T> for Mat2<T> {
    open spec fn obeys_sub_spec() -> bool {
        <T as SubSpec>::obeys_sub_spec()
    }

    open spec fn sub_req(self, rhs: T) -> bool {
        &&& SubSpec::sub_req(self.0.0[0], rhs)
        &&& SubSpec::sub_req(self.0.0[1], rhs)
    }

    open spec fn sub_spec(self, rhs: T) -> Mat2<T> {
        Mat2(Vec2([
            SubSpec::sub_spec(self.0.0[0], rhs),
            SubSpec::sub_spec(self.0.0[1], rhs),
        ]))
    }
}

impl<T: Copy + Sub<Output = T>> Sub<T> for Mat2<T> {
    type Output = Mat2<T>;

    fn sub(self, rhs: T) -> (r: Mat2<T>)
        ensures
            <T as SubSpec>::obeys_sub_spec() ==> r == Mat2(Vec2([
                SubSpec::sub_spec(self.0.0[0], rhs),
                SubSpec::sub_spec(self.0.0[1], rhs),
            ])),
    {
        Mat2(Vec2([
            self.0.0[0] - rhs,
            self.0.0[1] - rhs,
        ]))
    }
}

impl<T: Copy + Sub<Output = T>> vstd::std_specs::ops::SubSpecImpl<Mat2<T>> for Mat2<T> {
    open spec fn obeys_sub_spec() -> bool {
        <T as SubSpec>::obeys_sub_spec()
    }

    open spec fn sub_req(self, rhs: Mat2<T>) -> bool {
        SubSpec::sub_req(self.0, rhs.0)
    }

    open spec fn sub_spec(self, rhs: Mat2<T>) -> Mat2<T> {
        Mat2(SubSpec::sub_spec(self.0, rhs.0))
    }
}

impl<T: Copy + Sub<Output = T>> Sub<Mat2<T>> for Mat2<T> {
    type Output = Mat2<T>;

    fn sub(self, rhs: Mat2<T>) -> (r: Mat2<T>)
        ensures
            <T as SubSpec>::obeys_sub_spec() ==> r == Mat2(SubSpec::sub_spec(self.0, rhs.0)),
    {
        Mat2(self.0 - rhs.0)
    }
}

impl<T: Copy + Mul<Output = T>> vstd::std_specs::ops::MulSpecImpl<T> for Mat2<T> {
    open spec fn obeys_mul_spec() -> bool {
        <T as MulSpec>::obeys_mul_spec()
    }

    open spec fn mul_req(self, rhs: T) -> bool {
        &&& MulSpec::mul_req(self.0.0[0], rhs)
        &&& MulSpec::mul_req(self.0.0[1], rhs)
    }

    open spec fn mul_spec(self, rhs: T) -> Mat2<T> {
        Mat2(Vec2([
            MulSpec::mul_spec(self.0.0[0], rhs),
            MulSpec::mul_spec(self.0.0[1], rhs),
        ]))
    }
}

impl<T: Copy + Mul<Output = T>> Mul<T> for Mat2<T> {
    type Output = Mat2<T>;

    fn mul(self, rhs: T) -> (r: Mat2<T>)
        ensures
            <T as MulSpec>::obeys_mul_spec() ==> r == Mat2(Vec2([
                MulSpec::mul_spec(self.0.0[0], rhs),
                MulSpec::mul_spec(self.0.0[1], rhs),
            ])),
    {
        Mat2(Vec2([
            self.0.0[0] * rhs,
            self.0.0[1] * rhs,
        ]))
    }
}

impl<T: Copy + Mul<Output = T>> vstd::std_specs::ops::MulSpecImpl<Mat2<T>> for Mat2<T> {
    open spec fn obeys_mul_spec() -> bool {
        <T as MulSpec>::obeys_mul_spec()
    }

    open spec fn mul_req(self, rhs: Mat2<T>) -> bool {
        MulSpec::mul_req(self.0, rhs.0)
    }

    open spec fn mul_spec(self, rhs: Mat2<T>) -> Mat2<T> {
        Mat2(MulSpec::mul_spec(self.0, rhs.0))
    }
}

impl<T: Copy + Mul<Output = T>> Mul<Mat2<T>> for Mat2<T> {
    type Output = Mat2<T>;

    fn mul(self, rhs: Mat2<T>) -> (r: Mat2<T>)
        ensures
            <T as MulSpec>::obeys_mul_spec() ==> r == Mat2(MulSpec::mul_spec(self.0, rhs.0)),
    {
        Mat2(self.0 * rhs.0)
    }
}

impl<T: Copy + Div<Output = T>> vstd::std_specs::ops::DivSpecImpl<T> for Mat2<T> {
    open spec fn obeys_div_spec() -> bool {
        <T as DivSpec>::obeys_div_spec()
    }

    open spec fn div_req(self, rhs: T) -> bool {
        &&& DivSpec::div_req(self.0.0[0], rhs)
        &&& DivSpec::div_req(self.0.0[1], rhs)
    }

    open spec fn div_spec(self, rhs: T) -> Mat2<T> {
        Mat2(Vec2([
            DivSpec::div_spec(self.0.0[0], rhs),
            DivSpec::div_spec(self.0.0[1], rhs),
        ]))
    }
}

impl<T: Copy + Div<Output = T>> Div<T> for Mat2<T> {
    type Output = Mat2<T>;

    fn div(self, rhs: T) -> (r: Mat2<T>)
        ensures
            <T as DivSpec>::obeys_div_spec() ==> r == Mat2(Vec2([
                DivSpec::div_spec(self.0.0[0], rhs),
                DivSpec::div_spec(self.0.0[1], rhs),
            ])),
    {
        Mat2(Vec2([
            self.0.0[0] / rhs,
            self.0.0[1] / rhs,
        ]))
    }
}

impl<T: Copy + Div<Output = T>> vstd::std_specs::ops::DivSpecImpl<Mat2<T>> for Mat2<T> {
    open spec fn obeys_div_spec() -> bool {
        <T as DivSpec>::obeys_div_spec()
    }

    open spec fn div_req(self, rhs: Mat2<T>) -> bool {
        DivSpec::div_req(self.0, rhs.0)
    }

    open spec fn div_spec(self, rhs: Mat2<T>) -> Mat2<T> {
        Mat2(DivSpec::div_spec(self.0, rhs.0))
    }
}

impl<T: Copy + Div<Output = T>> Div<Mat2<T>> for Mat2<T> {
    type Output = Mat2<T>;

    fn div(self, rhs: Mat2<T>) -> (r: Mat2<T>)
        ensures
            <T as DivSpec>::obeys_div_spec() ==> r == Mat2(DivSpec::div_spec(self.0, rhs.0)),
    {
        Mat2(self.0 / rhs.0)
    }
}

/// A 3 x 3 matrix: 3 rows, each a `Vec3<T>`.
#[derive(Clone, Copy, Debug, PartialEq, Eq, Structural)]
pub struct Mat3<T>(pub Vec3<Vec3<T>>);

impl<T> vstd::std_specs::core::IndexSpecImpl<usize> for Mat3<T> {
    open spec fn index_req(&self, index: &usize) -> bool {
        *index < 3
    }
}

impl<T> Index<usize> for Mat3<T> {
    type Output = Vec3<T>;

    /// The row at position `index`.
    fn index(&self, index: usize) -> (r: &Vec3<T>)
        ensures
            *r == self.0.0[index as int],
    {
        &self.0.0[index]
    }
}

impl<T: Default + Copy> Default for Mat3<T> {
    /// The matrix whose elements all hold `T`'s default value (zero for numbers); not the
    /// identity matrix.
    fn default() -> (r: Mat3<T>)
        ensures
            r == Mat3(Vec3::spec_all(Vec3::spec_all(r.0.0[0].0[0]))),
            call_ensures(T::default, (), r.0.0[0].0[0]),
    {
        let zero = T::default();
        Mat3(Vec3::all(Vec3::all(zero)))
    }
}

impl<T: Copy + Add<Output = T>> vstd::std_specs::ops::AddSpecImpl<T> for Mat3<T> {
    open spec fn obeys_add_spec() -> bool {
        <T as AddSpec>::obeys_add_spec()
    }

    open spec fn add_req(self, rhs: T) -> bool {
        &&& AddSpec::add_req(self.0.0[0], rhs)
        &&& AddSpec::add_req(self.0.0[1], rhs)
        &&& AddSpec::add_req(self.0.0[2], rhs)
    }

    open spec fn add_spec(self, rhs: T) -> Mat3<T> {
        Mat3(Vec3([
            AddSpec::add_spec(self.0.0[0], rhs),
            AddSpec::add_spec(self.0.0[1], rhs),
            AddSpec::add_spec(self.0.0[2], rhs),
        ]))
    }
}

impl<T: Copy + Add<Output = T>> Add<T> for Mat3<T> {
    type Output = Mat3<T>;

    fn add(self, rhs: T) -> (r: Mat3<T>)
        ensures
            <T as AddSpec>::obeys_add_spec() ==> r == Mat3(Vec3([
                AddSpec::add_spec(self.0.0[0], rhs),
                AddSpec::add_spec(self.0.0[1], rhs),
                AddSpec::add_spec(self.0.0[2], rhs),
            ])),
    {
        Mat3(Vec3([
            self.0.0[0] + rhs,
            self.0.0[1] + rhs,
            self.0.0[2] + rhs,
        ]))
    }
}

impl<T: Copy + Add<Output = T>> vstd::std_specs::ops::AddSpecImpl<Mat3<T>> for Mat3<T> {
    open spec fn obeys_add_spec() -> bool {
        <T as AddSpec>::obeys_add_spec()
    }

    open spec fn add_req(self, rhs: Mat3<T>) -> bool {
        AddSpec::add_req(self.0, rhs.0)
    }

    open spec fn add_spec(self, rhs: Mat3<T>) -> Mat3<T> {
        Mat3(AddSpec::add_spec(self.0, rhs.0))
    }
}

impl<T: Copy + Add<Output = T>> Add<Mat3<T>> for Mat3<T> {
    type Output = Mat3<T>;

    fn add(self, rhs: Mat3<T>) -> (r: Mat3<T>)
        ensures
            <T as AddSpec>::obeys_add_spec() ==> r == Mat3(AddSpec::add_spec(self.0, rhs.0)),
    {
        Mat3(self.0 + rhs.0)
    }
}

impl<T: Copy + Sub<Output = T>> vstd::std_specs::ops::SubSpecImpl<T> for Mat3<T> {
    open spec fn obeys_sub_spec() -> bool {
        <T as SubSpec>::obeys_sub_spec()
    }

    open spec fn sub_req(self, rhs: T) -> bool {
        &&& SubSpec::sub_req(self.0.0[0], rhs)
        &&& SubSpec::sub_req(self.0.0[1], rhs)
        &&& SubSpec::sub_req(self.0.0[2], rhs)
    }

    open spec fn sub_spec(self, rhs: T) -> Mat3<T> {
        Mat3(Vec3([
            SubSpec::sub_spec(self.0.0[0], rhs),
            SubSpec::sub_spec(self.0.0[1], rhs),
            SubSpec::sub_spec(self.0.0[2], rhs),
        ]))
    }
}

impl<T: Copy + Sub<Output = T>> Sub<T> for Mat3<T> {
    type Output = Mat3<T>;

    fn sub(self, rhs: T) -> (r: Mat3<T>)
        ensures
            <T as SubSpec>::obeys_sub_spec() ==> r == Mat3(Vec3([
                SubSpec::sub_spec(self.0.0[0], rhs),
                SubSpec::sub_spec(self.0.0[1], rhs),
                SubSpec::sub_spec(self.0.0[2], rhs),
            ])),
    {
        Mat3(Vec3([
            self.0.0[0] - rhs,
            self.0.0[1] - rhs,
            self.0.0[2] - rhs,
        ]))
    }
}

impl<T: Copy + Sub<Output = T>> vstd::std_specs::ops::SubSpecImpl<Mat3<T>> for Mat3<T> {
    open spec fn obeys_sub_spec() -> bool {
        <T as SubSpec>::obeys_sub_spec()
    }

    open spec fn sub_req(self, rhs: Mat3<T>) -> bool {
        SubSpec::sub_req(self.0, rhs.0)
    }

    open spec fn sub_spec(self, rhs: Mat3<T>) -> Mat3<T> {
        Mat3(SubSpec::sub_spec(self.0, rhs.0))
    }
}

impl<T: Copy + Sub<Output = T>> Sub<Mat3<T>> for Mat3<T> {
    type Output = Mat3<T>;

    fn sub(self, rhs: Mat3<T>) -> (r: Mat3<T>)
        ensures
            <T as SubSpec>::obeys_sub_spec() ==> r == Mat3(SubSpec::sub_spec(self.0, rhs.0)),
    {
        Mat3(self.0 - rhs.0)
    }
}

impl<T: Copy + Mul<Output = T>> vstd::std_specs::ops::MulSpecImpl<T> for Mat3<T> {
    open spec fn obeys_mul_spec() -> bool {
        <T as MulSpec>::obeys_mul_spec()
    }

    open spec fn mul_req(self, rhs: T) -> bool {
        &&& MulSpec::mul_req(self.0.0[0], rhs)
        &&& MulSpec::mul_req(self.0.0[1], rhs)
        &&& MulSpec::mul_req(self.0.0[2], rhs)
    }

    open spec fn mul_spec(self, rhs: T) -> Mat3<T> {
        Mat3(Vec3([
            MulSpec::mul_spec(self.0.0[0], rhs),
            MulSpec::mul_spec(self.0.0[1], rhs),
            MulSpec::mul_spec(self.0.0[2], rhs),
        ]))
    }
}

impl<T: Copy + Mul<Output = T>> Mul<T> for Mat3<T> {
    type Output = Mat3<T>;

    fn mul(self, rhs: T) -> (r: Mat3<T>)
        ensures
            <T as MulSpec>::obeys_mul_spec() ==> r == Mat3(Vec3([
                MulSpec::mul_spec(self.0.0[0], rhs),
                MulSpec::mul_spec(self.0.0[1], rhs),
                MulSpec::mul_spec(self.0.0[2], rhs),
            ])),
    {
        Mat3(Vec3([
            self.0.0[0] * rhs,
            self.0.0[1] * rhs,
            self.0.0[2] * rhs,
        ]))
    }
}

impl<T: Copy + Mul<Output = T>> vstd::std_specs::ops::MulSpecImpl<Mat3<T>> for Mat3<T> {
    open spec fn obeys_mul_spec() -> bool {
        <T as MulSpec>::obeys_mul_spec()
    }

    open spec fn mul_req(self, rhs: Mat3<T>) -> bool {
        MulSpec::mul_req(self.0, rhs.0)
    }

    open spec fn mul_spec(self, rhs: Mat3<T>) -> Mat3<T> {
        Mat3(MulSpec::mul_spec(self.0, rhs.0))
    }
}

impl<T: Copy + Mul<Output = T>> Mul<Mat3<T>> for Mat3<T> {
    type Output = Mat3<T>;

    fn mul(self, rhs: Mat3<T>) -> (r: Mat3<T>)
        ensures
            <T as MulSpec>::obeys_mul_spec() ==> r == Mat3(MulSpec::mul_spec(self.0, rhs.0)),
    {
        Mat3(self.0 * rhs.0)
    }
}

impl<T: Copy + Div<Output = T>> vstd::std_specs::ops::DivSpecImpl<T> for Mat3<T> {
    open spec fn obeys_div_spec() -> bool {
        <T as DivSpec>::obeys_div_spec()
    }

    open spec fn div_req(self, rhs: T) -> bool {
        &&& DivSpec::div_req(self.0.0[0], rhs)
        &&& DivSpec::div_req(self.0.0[1], rhs)
        &&& DivSpec::div_req(self.0.0[2], rhs)
    }

    open spec fn div_spec(self, rhs: T) -> Mat3<T> {
        Mat3(Vec3([
            DivSpec::div_spec(self.0.0[0], rhs),
            DivSpec::div_spec(self.0.0[1], rhs),
            DivSpec::div_spec(self.0.0[2], rhs),
        ]))
    }
}

impl<T: Copy + Div<Output = T>> Div<T> for Mat3<T> {
    type Output = Mat3<T>;

    fn div(self, rhs: T) -> (r: Mat3<T>)
        ensures
            <T as DivSpec>::obeys_div_spec() ==> r == Mat3(Vec3([
                DivSpec::div_spec(self.0.0[0], rhs),
                DivSpec::div_spec(self.0.0[1], rhs),
                DivSpec::div_spec(self.0.0[2], rhs),
            ])),
    {
        Mat3(Vec3([
            self.0.0[0] / rhs,
            self.0.0[1] / rhs,
            self.0.0[2] / rhs,
        ]))
    }
}

impl<T: Copy + Div<Output = T>> vstd::std_specs::ops::DivSpecImpl<Mat3<T>> for Mat3<T> {
    open spec fn obeys_div_spec() -> bool {
        <T as DivSpec>::obeys_div_spec()
    }

    open spec fn div_req(self, rhs: Mat3<T>) -> bool {
        DivSpec::div_req(self.0, rhs.0)
    }

    open spec fn div_spec(self, rhs: Mat3<T>) -> Mat3<T> {
        Mat3(DivSpec::div_spec(self.0, rhs.0))
    }
}

impl<T: Copy + Div<Output = T>> Div<Mat3<T>> for Mat3<T> {
    type Output = Mat3<T>;

    fn div(self, rhs: Mat3<T>) -> (r: Mat3<T>)
        ensures
            <T as DivSpec>::obeys_div_spec() ==> r == Mat3(DivSpec::div_spec(self.0, rhs.0)),
    {
        Mat3(self.0 / rhs.0)
    }
}

/// A 4 x 4 matrix: 4 rows, each a `Vec4<T>`.
#[derive(Clone, Copy, Debug, PartialEq, Eq, Structural)]
pub struct Mat4<T>(pub Vec4<Vec4<T>>);

impl<T> vstd::std_specs::core::IndexSpecImpl<usize> for Mat4<T> {
    open spec fn index_req(&self, index: &usize) -> bool {
        *index < 4
    }
}

impl<T> Index<usize> for Mat4<T> {
    type Output = Vec4<T>;

    /// The row at position `index`.
    fn index(&self, index: usize) -> (r: &Vec4<T>)
        ensures
            *r == self.0.0[index as int],
    {
        &self.0.0[index]
    }
}

impl<T: Default + Copy> Default for Mat4<T> {
    /// The matrix whose elements all hold `T`'s default value (zero for numbers); not the
    /// identity matrix.
    fn default() -> (r: Mat4<T>)
        ensures
            r == Mat4(Vec4::spec_all(Vec4::spec_all(r.0.0[0].0[0]))),
            call_ensures(T::default, (), r.0.0[0].0[0]),
    {
        let zero = T::default();
        Mat4(Vec4::all(Vec4::all(zero)))
    }
}

impl<T: Copy + Add<Output = T>> vstd::std_specs::ops::AddSpecImpl<T> for Mat4<T> {
    open spec fn obeys_add_spec() -> bool {
        <T as AddSpec>::obeys_add_spec()
    }

    open spec fn add_req(self, rhs: T) -> bool {
        &&& AddSpec::add_req(self.0.0[0], rhs)
        &&& AddSpec::add_req(self.0.0[1], rhs)
        &&& AddSpec::add_req(self.0.0[2], rhs)
        &&& AddSpec::add_req(self.0.0[3], rhs)
    }

    open spec fn add_spec(self, rhs: T) -> Mat4<T> {
        Mat4(Vec4([
            AddSpec::add_spec(self.0.0[0], rhs),
            AddSpec::add_spec(self.0.0[1], rhs),
            AddSpec::add_spec(self.0.0[2], rhs),
            AddSpec::add_spec(self.0.0[3], rhs),
        ]))
    }
}

impl<T: Copy + Add<Output = T>> Add<T> for Mat4<T> {
    type Output = Mat4<T>;

    fn add(self, rhs: T) -> (r: Mat4<T>)
        ensures
            <T as AddSpec>::obeys_add_spec() ==> r == Mat4(Vec4([
                AddSpec::add_spec(self.0.0[0], rhs),
                AddSpec::add_spec(self.0.0[1], rhs),
                AddSpec::add_spec(self.0.0[2], rhs),
                AddSpec::add_spec(self.0.0[3], rhs),
            ])),
    {
        Mat4(Vec4([
            self.0.0[0] + rhs,
            self.0.0[1] + rhs,
            self.0.0[2] + rhs,
            self.0.0[3] + rhs,
        ]))
    }
}

impl<T: Copy + Add<Output = T>> vstd::std_specs::ops::AddSpecImpl<Mat4<T>> for Mat4<T> {
    open spec fn obeys_add_spec() -> bool {
        <T as AddSpec>::obeys_add_spec()
    }

    open spec fn add_req(self, rhs: Mat4<T>) -> bool {
        AddSpec::add_req(self.0, rhs.0)
    }

    open spec fn add_spec(self, rhs: Mat4<T>) -> Mat4<T> {
        Mat4(AddSpec::add_spec(self.0, rhs.0))
    }
}

impl<T: Copy + Add<Output = T>> Add<Mat4<T>> for Mat4<T> {
    type Output = Mat4<T>;

    fn add(self, rhs: Mat4<T>) -> (r: Mat4<T>)
        ensures
            <T as AddSpec>::obeys_add_spec() ==> r == Mat4(AddSpec::add_spec(self.0, rhs.0)),
    {
        Mat4(self.0 + rhs.0)
    }
}

impl<T: Copy + Sub<Output = T>> vstd::std_specs::ops::SubSpecImpl<T> for Mat4<T> {
    open spec fn obeys_sub_spec() -> bool {
        <T as SubSpec>::obeys_sub_spec()
    }

    open spec fn sub_req(self, rhs: T) -> bool {
        &&& SubSpec::sub_req(self.0.0[0], rhs)
        &&& SubSpec::sub_req(self.0.0[1], rhs)
        &&& SubSpec::sub_req(self.0.0[2], rhs)
        &&& SubSpec::sub_req(self.0.0[3], rhs)
    }

    open spec fn sub_spec(self, rhs: T) -> Mat4<T> {
        Mat4(Vec4([
            SubSpec::sub_spec(self.0.0[0], rhs),
            SubSpec::sub_spec(self.0.0[1], rhs),
            SubSpec::sub_spec(self.0.0[2], rhs),
            SubSpec::sub_spec(self.0.0[3], rhs),
        ]))
    }
}

impl<T: Copy + Sub<Output = T>> Sub<T> for Mat4<T> {
    type Output = Mat4<T>;

    fn sub(self, rhs: T) -> (r: Mat4<T>)
        ensures
            <T as SubSpec>::obeys_sub_spec() ==> r == Mat4(Vec4([
                SubSpec::sub_spec(self.0.0[0], rhs),
                SubSpec::sub_spec(self.0.0[1], rhs),
                SubSpec::sub_spec(self.0.0[2], rhs),
                SubSpec::sub_spec(self.0.0[3], rhs),
            ])),
    {
        Mat4(Vec4([
            self.0.0[0] - rhs,
            self.0.0[1] - rhs,
            self.0.0[2] - rhs,
            self.0.0[3] - rhs,
        ]))
    }
}

impl<T: Copy + Sub<Output = T>> vstd::std_specs::ops::SubSpecImpl<Mat4<T>> for Mat4<T> {
    open spec fn obeys_sub_spec() -> bool {
        <T as SubSpec>::obeys_sub_spec()
    }

    open spec fn sub_req(self, rhs: Mat4<T>) -> bool {
        SubSpec::sub_req(self.0, rhs.0)
    }

    open spec fn sub_spec(self, rhs: Mat4<T>) -> Mat4<T> {
        Mat4(SubSpec::sub_spec(self.0, rhs.0))
    }
}

impl<T: Copy + Sub<Output = T>> Sub<Mat4<T>> for Mat4<T> {
    type Output = Mat4<T>;

    fn sub(self, rhs: Mat4<T>) -> (r: Mat4<T>)
        ensures
            <T as SubSpec>::obeys_sub_spec() ==> r == Mat4(SubSpec::sub_spec(self.0, rhs.0)),
    {
        Mat4(self.0 - rhs.0)
    }
}

impl<T: Copy + Mul<Output = T>> vstd::std_specs::ops::MulSpecImpl<T> for Mat4<T> {
    open spec fn obeys_mul_spec() -> bool {
        <T as MulSpec>::obeys_mul_spec()
    }

    open spec fn mul_req(self, rhs: T) -> bool {
        &&& MulSpec::mul_req(self.0.0[0], rhs)
        &&& MulSpec::mul_req(self.0.0[1], rhs)
        &&& MulSpec::mul_req(self.0.0[2], rhs)
        &&& MulSpec::mul_req(self.0.0[3], rhs)
    }

    open spec fn mul_spec(self, rhs: T) -> Mat4<T> {
        Mat4(Vec4([
            MulSpec::mul_spec(self.0.0[0], rhs),
            MulSpec::mul_spec(self.0.0[1], rhs),
            MulSpec::mul_spec(self.0.0[2], rhs),
            MulSpec::mul_spec(self.0.0[3], rhs),
        ]))
    }
}

impl<T: Copy + Mul<Output = T>> Mul<T> for Mat4<T> {
    type Output = Mat4<T>;

    fn mul(self, rhs: T) -> (r: Mat4<T>)
        ensures
            <T as MulSpec>::obeys_mul_spec() ==> r == Mat4(Vec4([
                MulSpec::mul_spec(self.0.0[0], rhs),
                MulSpec::mul_spec(self.0.0[1], rhs),
                MulSpec::mul_spec(self.0.0[2], rhs),
                MulSpec::mul_spec(self.0.0[3], rhs),
            ])),
    {
        Mat4(Vec4([
            self.0.0[0] * rhs,
            self.0.0[1] * rhs,
            self.0.0[2] * rhs,
            self.0.0[3] * rhs,
        ]))
    }
}

impl<T: Copy + Mul<Output = T>> vstd::std_specs::ops::MulSpecImpl<Mat4<T>> for Mat4<T> {
    open spec fn obeys_mul_spec() -> bool {
        <T as MulSpec>::obeys_mul_spec()
    }

    open spec fn mul_req(self, rhs: Mat4<T>) -> bool {
        MulSpec::mul_req(self.0, rhs.0)
    }

    open spec fn mul_spec(self, rhs: Mat4<T>) -> Mat4<T> {
        Mat4(MulSpec::mul_spec(self.0, rhs.0))
    }
}

impl<T: Copy + Mul<Output = T>> Mul<Mat4<T>> for Mat4<T> {
    type Output = Mat4<T>;

    fn mul(self, rhs: Mat4<T>) -> (r: Mat4<T>)
        ensures
            <T as MulSpec>::obeys_mul_spec() ==> r == Mat4(MulSpec::mul_spec(self.0, rhs.0)),
    {
        Mat4(self.0 * rhs.0)
    }
}

impl<T: Copy + Div<Output = T>> vstd::std_specs::ops::DivSpecImpl<T> for Mat4<T> {
    open spec fn obeys_div_spec() -> bool {
        <T as DivSpec>::obeys_div_spec()
    }

    open spec fn div_req(self, rhs: T) -> bool {
        &&& DivSpec::div_req(self.0.0[0], rhs)
        &&& DivSpec::div_req(self.0.0[1], rhs)
        &&& DivSpec::div_req(self.0.0[2], rhs)
        &&& DivSpec::div_req(self.0.0[3], rhs)
    }

    open spec fn div_spec(self, rhs: T) -> Mat4<T> {
        Mat4(Vec4([
            DivSpec::div_spec(self.0.0[0], rhs),
            DivSpec::div_spec(self.0.0[1], rhs),
            DivSpec::div_spec(self.0.0[2], rhs),
            DivSpec::div_spec(self.0.0[3], rhs),
        ]))
    }
}

impl<T: Copy + Div<Output = T>> Div<T> for Mat4<T> {
    type Output = Mat4<T>;

    fn div(self, rhs: T) -> (r: Mat4<T>)
        ensures
            <T as DivSpec>::obeys_div_spec() ==> r == Mat4(Vec4([
                DivSpec::div_spec(self.0.0[0], rhs),
                DivSpec::div_spec(self.0.0[1], rhs),
                DivSpec::div_spec(self.0.0[2], rhs),
                DivSpec::div_spec(self.0.0[3], rhs),
            ])),
    {
        Mat4(Vec4([
            self.0.0[0] / rhs,
            self.0.0[1] / rhs,
            self.0.0[2] / rhs,
            self.0.0[3] / rhs,
        ]))
    }
}

impl<T: Copy + Div<Output = T>> vstd::std_specs::ops::DivSpecImpl<Mat4<T>> for Mat4<T> {
    open spec fn obeys_div_spec() -> bool {
        <T as DivSpec>::obeys_div_spec()
    }

    open spec fn div_req(self, rhs: Mat4<T>) -> bool {
        DivSpec::div_req(self.0, rhs.0)
    }

    open spec fn div_spec(self, rhs: Mat4<T>) -> Mat4<T> {
        Mat4(DivSpec::div_spec(self.0, rhs.0))
    }
}

impl<T: Copy + Div<Output = T>> Div<Mat4<T>> for Mat4<T> {
    type Output = Mat4<T>;

    fn div(self, rhs: Mat4<T>) -> (r: Mat4<T>)
        ensures
            <T as DivSpec>::obeys_div_spec() ==> r == Mat4(DivSpec::div_spec(self.0, rhs.0)),
    {
        Mat4(self.0 / rhs.0)
    }
}

} // verus!
