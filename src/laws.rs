//! Algebraic laws of the vector operators.
//!
//! Each law is stated over the operators' specifications and holds for every element type
//! whose own operations have the corresponding property; the predicates below name those
//! properties of the element type.
use crate::vec::{Vec2, Vec3, Vec4};
use core::ops::{Add, Div, Mul, Neg, Sub};
use vstd::prelude::*;
use vstd::std_specs::ops::{AddSpec, DivSpec, MulSpec, NegSpec, SubSpec};

verus! {

/// Addition of elements is commutative wherever it is defined.
pub open spec fn add_commutes<T: Add<Output = T>>() -> bool {
    forall|x: T, y: T| #[trigger] x.add_req(y) ==> y.add_req(x) && x.add_spec(y) == y.add_spec(x)
}

/// Addition of elements is associative wherever both groupings are defined.
pub open spec fn add_associates<T: Copy + Add<Output = T>>() -> bool {
    forall|x: T, y: T, z: T|
        x.add_req(y) && y.add_req(z) && #[trigger] x.add_spec(y).add_req(z)
            && #[trigger] x.add_req(y.add_spec(z))
            ==> x.add_spec(y).add_spec(z) == x.add_spec(y.add_spec(z))
}

/// Subtracting what was just added gives back the first operand.
pub open spec fn add_then_sub_returns<T: Copy + Add<Output = T> + Sub<Output = T>>() -> bool {
    forall|x: T, y: T|
        #[trigger] x.add_req(y) ==> x.add_spec(y).sub_req(y) && x.add_spec(y).sub_spec(y) == x
}

/// Multiplication of elements is commutative wherever it is defined.
pub open spec fn mul_commutes<T: Mul<Output = T>>() -> bool {
    forall|x: T, y: T| #[trigger] x.mul_req(y) ==> y.mul_req(x) && x.mul_spec(y) == y.mul_spec(x)
}

/// `x - y` is the negation of `y - x` wherever both are defined.
pub open spec fn sub_antisymmetric<T: Copy + Sub<Output = T> + Neg<Output = T>>() -> bool {
    forall|x: T, y: T|
        #[trigger] x.sub_req(y) && #[trigger] y.sub_req(x)
            ==> y.sub_spec(x).neg_req() && x.sub_spec(y) == y.sub_spec(x).neg_spec()
}

/// Negating twice gives back the element, and the second negation is defined wherever the
/// first is.
pub open spec fn neg_involutive<T: Copy + Neg<Output = T>>() -> bool {
    forall|x: T| #[trigger] x.neg_req() ==> x.neg_spec().neg_req() && x.neg_spec().neg_spec() == x
}

/// `a + b == b + a` and `(a + b) + c == a + (b + c)` for vectors of dimension 2.
pub proof fn lemma_vec2_add_commutative_associative<T: Copy + Add<Output = T>>(
    a: Vec2<T>,
    b: Vec2<T>,
    c: Vec2<T>,
)
    requires
        add_commutes::<T>(),
        add_associates::<T>(),
    ensures
        AddSpec::add_req(a, b) ==> AddSpec::add_req(b, a)
            && AddSpec::add_spec(a, b) == AddSpec::add_spec(b, a),
        AddSpec::add_req(a, b) && AddSpec::add_req(b, c)
            && AddSpec::add_req(AddSpec::add_spec(a, b), c)
            && AddSpec::add_req(a, AddSpec::add_spec(b, c))
            ==> AddSpec::add_spec(AddSpec::add_spec(a, b), c)
                == AddSpec::add_spec(a, AddSpec::add_spec(b, c)),
{
}

/// A scalar operand acts as the vector of dimension 2 whose components all equal it, for
/// each of `+`, `-`, `*` and `/`.
pub proof fn lemma_vec2_scalar_is_broadcast<T>(a: Vec2<T>, s: T)
    where T: Copy + Add<Output = T> + Sub<Output = T> + Mul<Output = T> + Div<Output = T>,
    ensures
        AddSpec::add_req(a, s) == AddSpec::add_req(a, Vec2::spec_all(s)),
        AddSpec::add_spec(a, s) == AddSpec::add_spec(a, Vec2::spec_all(s)),
        SubSpec::sub_req(a, s) == SubSpec::sub_req(a, Vec2::spec_all(s)),
        SubSpec::sub_spec(a, s) == SubSpec::sub_spec(a, Vec2::spec_all(s)),
        MulSpec::mul_req(a, s) == MulSpec::mul_req(a, Vec2::spec_all(s)),
        MulSpec::mul_spec(a, s) == MulSpec::mul_spec(a, Vec2::spec_all(s)),
        DivSpec::div_req(a, s) == DivSpec::div_req(a, Vec2::spec_all(s)),
        DivSpec::div_spec(a, s) == DivSpec::div_spec(a, Vec2::spec_all(s)),
{
}

/// `(a + b) - b == a` for vectors of dimension 2.
pub proof fn lemma_vec2_add_then_sub<T: Copy + Add<Output = T> + Sub<Output = T>>(
    a: Vec2<T>,
    b: Vec2<T>,
)
    requires
        add_then_sub_returns::<T>(),
    ensures
        AddSpec::add_req(a, b) ==> SubSpec::sub_req(AddSpec::add_spec(a, b), b)
            && SubSpec::sub_spec(AddSpec::add_spec(a, b), b) == a,
{
    if AddSpec::add_req(a, b) {
        assert(a.0[0].add_req(b.0[0]));
        assert(a.0[1].add_req(b.0[1]));
        assert(SubSpec::sub_spec(AddSpec::add_spec(a, b), b).0 =~= a.0);
    }
}

/// `a + b == b + a` and `(a + b) + c == a + (b + c)` for vectors of dimension 3.
pub proof fn lemma_vec3_add_commutative_associative<T: Copy + Add<Output = T>>(
    a: Vec3<T>,
    b: Vec3<T>,
    c: Vec3<T>,
)
    requires
        add_commutes::<T>(),
        add_associates::<T>(),
    ensures
        AddSpec::add_req(a, b) ==> AddSpec::add_req(b, a)
            && AddSpec::add_spec(a, b) == AddSpec::add_spec(b, a),
        AddSpec::add_req(a, b) && AddSpec::add_req(b, c)
            && AddSpec::add_req(AddSpec::add_spec(a, b), c)
            && AddSpec::add_req(a, AddSpec::add_spec(b, c))
            ==> AddSpec::add_spec(AddSpec::add_spec(a, b), c)
                == AddSpec::add_spec(a, AddSpec::add_spec(b, c)),
{
}

/// A scalar operand acts as the vector of dimension 3 whose components all equal it, for
/// each of `+`, `-`, `*` and `/`.
pub proof fn lemma_vec3_scalar_is_broadcast<T>(a: Vec3<T>, s: T)
    where T: Copy + Add<Output = T> + Sub<Output = T> + Mul<Output = T> + Div<Output = T>,
    ensures
        AddSpec::add_req(a, s) == AddSpec::add_req(a, Vec3::spec_all(s)),
        AddSpec::add_spec(a, s) == AddSpec::add_spec(a, Vec3::spec_all(s)),
        SubSpec::sub_req(a, s) == SubSpec::sub_req(a, Vec3::spec_all(s)),
        SubSpec::sub_spec(a, s) == SubSpec::sub_spec(a, Vec3::spec_all(s)),
        MulSpec::mul_req(a, s) == MulSpec::mul_req(a, Vec3::spec_all(s)),
        MulSpec::mul_spec(a, s) == MulSpec::mul_spec(a, Vec3::spec_all(s)),
        DivSpec::div_req(a, s) == DivSpec::div_req(a, Vec3::spec_all(s)),
        DivSpec::div_spec(a, s) == DivSpec::div_spec(a, Vec3::spec_all(s)),
{
}

/// `(a + b) - b == a` for vectors of dimension 3.
pub proof fn lemma_vec3_add_then_sub<T: Copy + Add<Output = T> + Sub<Output = T>>(
    a: Vec3<T>,
    b: Vec3<T>,
)
    requires
        add_then_sub_returns::<T>(),
    ensures
        AddSpec::add_req(a, b) ==> SubSpec::sub_req(AddSpec::add_spec(a, b), b)
            && SubSpec::sub_spec(AddSpec::add_spec(a, b), b) == a,
{
    if AddSpec::add_req(a, b) {
        assert(a.0[0].add_req(b.0[0]));
        assert(a.0[1].add_req(b.0[1]));
        assert(a.0[2].add_req(b.0[2]));
        assert(SubSpec::sub_spec(AddSpec::add_spec(a, b), b).0 =~= a.0);
    }
}

/// `a + b == b + a` and `(a + b) + c == a + (b + c)` for vectors of dimension 4.
pub proof fn lemma_vec4_add_commutative_associative<T: Copy + Add<Output = T>>(
    a: Vec4<T>,
    b: Vec4<T>,
    c: Vec4<T>,
)
    requires
        add_commutes::<T>(),
        add_associates::<T>(),
    ensures
        AddSpec::add_req(a, b) ==> AddSpec::add_req(b, a)
            && AddSpec::add_spec(a, b) == AddSpec::add_spec(b, a),
        AddSpec::add_req(a, b) && AddSpec::add_req(b, c)
            && AddSpec::add_req(AddSpec::add_spec(a, b), c)
            && AddSpec::add_req(a, AddSpec::add_spec(b, c))
            ==> AddSpec::add_spec(AddSpec::add_spec(a, b), c)
                == AddSpec::add_spec(a, AddSpec::add_spec(b, c)),
{
}

/// A scalar operand acts as the vector of dimension 4 whose components all equal it, for
/// each of `+`, `-`, `*` and `/`.
pub proof fn lemma_vec4_scalar_is_broadcast<T>(a: Vec4<T>, s: T)
    where T: Copy + Add<Output = T> + Sub<Output = T> + Mul<Output = T> + Div<Output = T>,
    ensures
        AddSpec::add_req(a, s) == AddSpec::add_req(a, Vec4::spec_all(s)),
        AddSpec::add_spec(a, s) == AddSpec::add_spec(a, Vec4::spec_all(s)),
        SubSpec::sub_req(a, s) == SubSpec::sub_req(a, Vec4::spec_all(s)),
        SubSpec::sub_spec(a, s) == SubSpec::sub_spec(a, Vec4::spec_all(s)),
        MulSpec::mul_req(a, s) == MulSpec::mul_req(a, Vec4::spec_all(s)),
        MulSpec::mul_spec(a, s) == MulSpec::mul_spec(a, Vec4::spec_all(s)),
        DivSpec::div_req(a, s) == DivSpec::div_req(a, Vec4::spec_all(s)),
        DivSpec::div_spec(a, s) == DivSpec::div_spec(a, Vec4::spec_all(s)),
{
}

/// `(a + b) - b == a` for vectors of dimension 4.
pub proof fn lemma_vec4_add_then_sub<T: Copy + Add<Output = T> + Sub<Output = T>>(
    a: Vec4<T>,
    b: Vec4<T>,
)
    requires
        add_then_sub_returns::<T>(),
    ensures
        AddSpec::add_req(a, b) ==> SubSpec::sub_req(AddSpec::add_spec(a, b), b)
            && SubSpec::sub_spec(AddSpec::add_spec(a, b), b) == a,
{
    if AddSpec::add_req(a, b) {
        assert(a.0[0].add_req(b.0[0]));
        assert(a.0[1].add_req(b.0[1]));
        assert(a.0[2].add_req(b.0[2]));
        assert(a.0[3].add_req(b.0[3]));
        assert(SubSpec::sub_spec(AddSpec::add_spec(a, b), b).0 =~= a.0);
    }
}

/// `a.cross(b) == -(b.cross(a))`.
pub proof fn lemma_cross_anticommutative<T>(a: Vec3<T>, b: Vec3<T>)
    where T: Copy + Sub<Output = T> + Mul<Output = T> + Neg<Output = T>,
    requires
        mul_commutes::<T>(),
        sub_antisymmetric::<T>(),
    ensures
        a.cross_req(b) && b.cross_req(a) ==> NegSpec::neg_req(b.spec_cross(a))
            && a.spec_cross(b) == NegSpec::neg_spec(b.spec_cross(a)),
{
}

/// A quarter turn one way followed by a quarter turn the other way gives back the vector.
pub proof fn lemma_rotate_round_trip<T: Copy + Neg<Output = T>>(v: Vec2<T>)
    requires
        neg_involutive::<T>(),
    ensures
        v.0[1].neg_req() ==> v.spec_rotate_left_90().0[0].neg_req()
            && v.spec_rotate_left_90().spec_rotate_right_90() == v,
        v.0[0].neg_req() ==> v.spec_rotate_right_90().0[1].neg_req()
            && v.spec_rotate_right_90().spec_rotate_left_90() == v,
{
    if v.0[1].neg_req() {
        assert(v.spec_rotate_left_90().spec_rotate_right_90().0 =~= v.0);
    }
    if v.0[0].neg_req() {
        assert(v.spec_rotate_right_90().spec_rotate_left_90().0 =~= v.0);
    }
}

/// The 32- and 64-bit signed integers have every property that the laws above ask of the
/// element type, so the laws hold exactly for vectors of them.
pub proof fn lemma_signed_integers_meet_element_properties()
    ensures
        add_commutes::<i32>() && add_associates::<i32>() && add_then_sub_returns::<i32>(),
        mul_commutes::<i32>() && sub_antisymmetric::<i32>() && neg_involutive::<i32>(),
        add_commutes::<i64>() && add_associates::<i64>() && add_then_sub_returns::<i64>(),
        mul_commutes::<i64>() && sub_antisymmetric::<i64>() && neg_involutive::<i64>(),
{
}

} // verus!
