use vecmath::vec::{Vec2, Vec3, Vec4};

#[test]
fn test_eq() {
    assert_eq!(Vec2([1, 2]), Vec2([1, 2]));
    assert_ne!(Vec2([1, 2]), Vec2([100, 2]));
    assert_ne!(Vec2([1, 2]), Vec2([1, 200]));

    assert_eq!(Vec3([1, 2, 3]), Vec3([1, 2, 3]));
    assert_ne!(Vec3([1, 2, 3]), Vec3([100, 2, 3]));
    assert_ne!(Vec3([1, 2, 3]), Vec3([1, 200, 3]));
    assert_ne!(Vec3([1, 2, 3]), Vec3([1, 2, 300]));

    assert_eq!(Vec4([1, 2, 3, 4]), Vec4([1, 2, 3, 4]));
    assert_ne!(Vec4([1, 2, 3, 4]), Vec4([100, 2, 3, 4]));
    assert_ne!(Vec4([1, 2, 3, 4]), Vec4([1, 200, 3, 4]));
    assert_ne!(Vec4([1, 2, 3, 4]), Vec4([1, 2, 300, 4]));
    assert_ne!(Vec4([1, 2, 3, 4]), Vec4([1, 2, 3, 400]));
}

#[test]
fn test_default() {
    assert_eq!(Vec2::default(), Vec2([0, 0]));
    assert_eq!(Vec3::default(), Vec3([0, 0, 0]));
    assert_eq!(Vec4::default(), Vec4([0, 0, 0, 0]));
}

#[test]
fn test_add() {
    assert_eq!(Vec2([1, 2]) + 3, Vec2([4, 5]));
    assert_eq!(Vec2([1, 2]) + Vec2([3, 4]), Vec2([4, 6]));

    assert_eq!(Vec3([1, 2, 3]) + 4, Vec3([5, 6, 7]));
    assert_eq!(Vec3([1, 2, 3]) + Vec3([4, 5, 6]), Vec3([5, 7, 9]));

    assert_eq!(Vec4([1, 2, 3, 4]) + 5, Vec4([6, 7, 8, 9]));
    assert_eq!(Vec4([1, 2, 3, 4]) + Vec4([5, 6, 7, 8]), Vec4([6, 8, 10, 12]));
}

#[test]
fn test_sub() {
    assert_eq!(Vec2([1, 2]) - 3, Vec2([-2, -1]));
    assert_eq!(Vec2([1, 2]) - Vec2([3, 4]), Vec2([-2, -2]));

    assert_eq!(Vec3([1, 2, 3]) - 4, Vec3([-3, -2, -1]));
    assert_eq!(Vec3([1, 2, 3]) - Vec3([4, 5, 6]), Vec3([-3, -3, -3]));

    assert_eq!(Vec4([1, 2, 3, 4]) - 5, Vec4([-4, -3, -2, -1]));
    assert_eq!(Vec4([1, 2, 3, 4]) - Vec4([5, 6, 7, 8]), Vec4([-4, -4, -4, -4]));
}

#[test]
fn test_mul() {
    assert_eq!(Vec2([1, 2]) * 3, Vec2([3, 6]));
    assert_eq!(Vec2([1, 2]) * Vec2([3, 4]), Vec2([3, 8]));

    assert_eq!(Vec3([1, 2, 3]) * 4, Vec3([4, 8, 12]));
    assert_eq!(Vec3([1, 2, 3]) * Vec3([4, 5, 6]), Vec3([4, 10, 18]));

    assert_eq!(Vec4([1, 2, 3, 4]) * 5, Vec4([5, 10, 15, 20]));
    assert_eq!(Vec4([1, 2, 3, 4]) * Vec4([5, 6, 7, 8]), Vec4([5, 12, 21, 32]));
}

#[test]
fn test_div() {
    assert_eq!(Vec2([12, 24]) / 3, Vec2([4, 8]));
    assert_eq!(Vec2([12, 24]) / Vec2([3, 4]), Vec2([4, 6]));

    assert_eq!(Vec3([12, 24, 32]) / 4, Vec3([3, 6, 8]));
    assert_eq!(Vec3([12, 24, 32]) / Vec3([2, 3, 4]), Vec3([6, 8, 8]));

    assert_eq!(Vec4([12, 24, 32, 40]) / 4, Vec4([3, 6, 8, 10]));
    assert_eq!(Vec4([12, 24, 32, 40]) / Vec4([2, 3, 4, 5]), Vec4([6, 8, 8, 8]));
}

#[test]
fn test_construct() {
    assert_eq!(Vec2::all(11), Vec2([11, 11]));
    assert_eq!(Vec3::all(111), Vec3([111, 111, 111]));
    assert_eq!(Vec4::all(1111), Vec4([1111, 1111, 1111, 1111]));
}

#[test]
fn test_selector() {
    assert_eq!(Vec2([1, 2]).x(), 1);
    assert_eq!(Vec2([1, 2]).y(), 2);

    assert_eq!(Vec3([1, 2, 3]).x(), 1);
    assert_eq!(Vec3([1, 2, 3]).y(), 2);
    assert_eq!(Vec3([1, 2, 3]).z(), 3);
    assert_eq!(Vec3([1, 2, 3]).xy(), Vec2([1, 2]));
    assert_eq!(Vec3([1, 2, 3]).yz(), Vec2([2, 3]));

    assert_eq!(Vec4([1, 2, 3, 4]).x(), 1);
    assert_eq!(Vec4([1, 2, 3, 4]).y(), 2);
    assert_eq!(Vec4([1, 2, 3, 4]).z(), 3);
    assert_eq!(Vec4([1, 2, 3, 4]).w(), 4);
    assert_eq!(Vec4([1, 2, 3, 4]).xy(), Vec2([1, 2]));
    assert_eq!(Vec4([1, 2, 3, 4]).yz(), Vec2([2, 3]));
    assert_eq!(Vec4([1, 2, 3, 4]).zw(), Vec2([3, 4]));
    assert_eq!(Vec4([1, 2, 3, 4]).xyz(), Vec3([1, 2, 3]));
    assert_eq!(Vec4([1, 2, 3, 4]).yzw(), Vec3([2, 3, 4]));
}

#[test]
fn index_reads_each_component() {
    let v = Vec4([7, 8, 9, 10]);
    assert_eq!(v[0], 7);
    assert_eq!(v[1], 8);
    assert_eq!(v[2], 9);
    assert_eq!(v[3], 10);
    assert_eq!(Vec2([5, 6])[1], 6);
    assert_eq!(Vec3([5, 6, 7])[2], 7);
}

#[test]
fn set_replaces_one_component() {
    let mut v = Vec3([1, 2, 3]);
    v.set(1, 20);
    assert_eq!(v, Vec3([1, 20, 3]));
    let mut w = Vec2([1, 2]);
    w.set(0, -1);
    assert_eq!(w, Vec2([-1, 2]));
    let mut u = Vec4([1, 2, 3, 4]);
    u.set(3, 0);
    assert_eq!(u, Vec4([1, 2, 3, 0]));
}

#[test]
fn compound_assignment_with_scalar_and_vector() {
    let mut v = Vec2([1, 2]);
    v.add_assign(3);
    assert_eq!(v, Vec2([4, 5]));
    v.add_assign(Vec2([1, 1]));
    assert_eq!(v, Vec2([5, 6]));
    v.sub_assign(1);
    assert_eq!(v, Vec2([4, 5]));
    v.sub_assign(Vec2([4, 0]));
    assert_eq!(v, Vec2([0, 5]));
    v.mul_assign(3);
    assert_eq!(v, Vec2([0, 15]));
    v.mul_assign(Vec2([7, 2]));
    assert_eq!(v, Vec2([0, 30]));
    v.div_assign(5);
    assert_eq!(v, Vec2([0, 6]));
    v.div_assign(Vec2([1, 4]));
    assert_eq!(v, Vec2([0, 1]));

    let mut w = Vec3([1, 2, 3]);
    w.mul_assign(Vec3([2, 3, 4]));
    assert_eq!(w, Vec3([2, 6, 12]));
    w.sub_assign(2);
    assert_eq!(w, Vec3([0, 4, 10]));

    let mut u = Vec4([10, 20, 30, 40]);
    u.div_assign(10);
    assert_eq!(u, Vec4([1, 2, 3, 4]));
    u.add_assign(Vec4([1, 1, 1, 1]));
    assert_eq!(u, Vec4([2, 3, 4, 5]));
}

#[test]
fn integer_division_truncates_toward_zero() {
    assert_eq!(Vec2([-7, 7]) / 2, Vec2([-3, 3]));
    assert_eq!(Vec3([-7, 7, -8]) / Vec3([2, -2, 3]), Vec3([-3, -3, -2]));
}

#[test]
fn dot_products() {
    assert_eq!(Vec2([1, 2]).dot(&Vec2([3, 4])), 11);
    assert_eq!(Vec3([1, 2, 3]).dot(&Vec3([4, 5, 6])), 32);
    assert_eq!(Vec4([1, 2, 3, 4]).dot(&Vec4([5, 6, 7, 8])), 70);
}

#[test]
fn square_lengths() {
    assert_eq!(Vec2([3, 4]).square_length(), 25);
    assert_eq!(Vec3([1, 2, 2]).square_length(), 9);
    assert_eq!(Vec4([1, 1, 1, 1]).square_length(), 4);
    assert_eq!(Vec2([3.0, 4.0]).square_length(), 25.0);
}

#[test]
fn cross_products() {
    assert_eq!(Vec3([1, 2, 3]).cross(&Vec3([4, 5, 6])), Vec3([-3, 6, -3]));
    assert_eq!(Vec3([1, 0, 0]).cross(&Vec3([0, 1, 0])), Vec3([0, 0, 1]));
    assert_eq!(Vec2([2, 5]).cross(&Vec2([3, 4])), Vec3([0, 0, -7]));
    assert_eq!(Vec2([1, 0]).cross(&Vec2([0, 1])), Vec3([0, 0, 1]));
}

#[test]
fn cross_is_anticommutative() {
    let a = Vec3([1, -2, 7]);
    let b = Vec3([4, 5, -6]);
    assert_eq!(a.cross(&b), -(b.cross(&a)));
}

#[test]
fn negation() {
    assert_eq!(-Vec2([1, -2]), Vec2([-1, 2]));
    assert_eq!(-Vec3([1, -2, 0]), Vec3([-1, 2, 0]));
    assert_eq!(-Vec4([1, -2, 3, -4]), Vec4([-1, 2, -3, 4]));
}

#[test]
fn quarter_turns() {
    let v = Vec2([1, 2]);
    assert_eq!(v.rotate_left_90(), Vec2([-2, 1]));
    assert_eq!(v.rotate_right_90(), Vec2([2, -1]));
    assert_eq!(v.rotate_left_90().rotate_right_90(), v);
    assert_eq!(v.rotate_right_90().rotate_left_90(), v);
    let f = Vec2([1.5, -2.0]);
    assert_eq!(f.rotate_left_90(), Vec2([2.0, 1.5]));
    assert_eq!(f.rotate_left_90().rotate_right_90(), f);
}

#[test]
fn addition_commutes_and_associates() {
    let (a, b, c) = (Vec3([1, -2, 3]), Vec3([10, 20, 30]), Vec3([-5, 0, 5]));
    assert_eq!(a + b, b + a);
    assert_eq!((a + b) + c, a + (b + c));
    let (p, q) = (Vec2([1, 2]), Vec2([3, 4]));
    assert_eq!(p + q, q + p);
    let (r, s, t) = (Vec4([1, 2, 3, 4]), Vec4([5, 6, 7, 8]), Vec4([9, 10, 11, 12]));
    assert_eq!((r + s) + t, r + (s + t));
}

#[test]
fn scalar_operand_acts_as_all() {
    let a = Vec4([12, 24, 36, 48]);
    assert_eq!(a + 6, a + Vec4::all(6));
    assert_eq!(a - 6, a - Vec4::all(6));
    assert_eq!(a * 6, a * Vec4::all(6));
    assert_eq!(a / 6, a / Vec4::all(6));
    let b = Vec2([5, -5]);
    assert_eq!(b / 2, b / Vec2::all(2));
}

#[test]
fn default_is_all_zero() {
    assert_eq!(Vec2::<i64>::default(), Vec2::all(0));
    assert_eq!(Vec3::<u8>::default(), Vec3::all(0));
    assert_eq!(Vec4::<f64>::default(), Vec4::all(0.0));
}

#[test]
fn add_then_sub_round_trips() {
    let a = Vec3([i32::MAX - 10, -4, 0]);
    let b = Vec3([10, 9, -1]);
    assert_eq!((a + b) - b, a);
    let c = Vec2([3u8, 250]);
    let d = Vec2([200u8, 5]);
    assert_eq!((c + d) - d, c);
}

#[test]
fn dividing_by_the_length_gives_a_unit_vector() {
    let v: Vec3<f64> = Vec3([3.0, -4.0, 12.0]);
    let unit = v / v.square_length().sqrt();
    assert!((unit.square_length() - 1.0).abs() < 1e-12);
    assert_eq!(unit, Vec3([3.0 / 13.0, -4.0 / 13.0, 12.0 / 13.0]));
    let again = unit / unit.square_length().sqrt();
    assert!((again.x() - unit.x()).abs() < 1e-12);
}
