use vecmath::mat::{Mat2, Mat3, Mat4};
use vecmath::vec::{Vec2, Vec3, Vec4};

fn mat2(a: i32, b: i32, c: i32, d: i32) -> Mat2<i32> {
    Mat2(Vec2([Vec2([a, b]), Vec2([c, d])]))
}

#[test]
fn test_mat_default() {
    let m: Mat2<f64> = Mat2::default();
    assert_eq!(m[0][0] == 0.0, true)
}

#[test]
fn default_is_all_zero_not_identity() {
    let m3: Mat3<i32> = Mat3::default();
    assert_eq!(m3, Mat3(Vec3::all(Vec3::all(0))));
    let m4: Mat4<i64> = Mat4::default();
    assert_eq!(m4[3][3], 0);
    assert_eq!(m4[0][0], 0);
}

#[test]
fn index_yields_rows_and_elements() {
    let m = mat2(1, 2, 3, 4);
    assert_eq!(m[0], Vec2([1, 2]));
    assert_eq!(m[1], Vec2([3, 4]));
    assert_eq!(m[1][0], 3);
}

#[test]
fn mat2_elementwise_operators() {
    let m = mat2(12, 24, 36, 48);
    assert_eq!(m + 1, mat2(13, 25, 37, 49));
    assert_eq!(m - 2, mat2(10, 22, 34, 46));
    assert_eq!(m * 2, mat2(24, 48, 72, 96));
    assert_eq!(m / 12, mat2(1, 2, 3, 4));
    let n = mat2(1, 2, 3, 4);
    assert_eq!(m + n, mat2(13, 26, 39, 52));
    assert_eq!(m - n, mat2(11, 22, 33, 44));
    assert_eq!(m * n, mat2(12, 48, 108, 192));
    assert_eq!(m / n, mat2(12, 12, 12, 12));
}

#[test]
fn mat3_elementwise_operators() {
    let m = Mat3(Vec3([Vec3([1, 2, 3]), Vec3([4, 5, 6]), Vec3([7, 8, 9])]));
    let id = Mat3(Vec3([Vec3([1, 0, 0]), Vec3([0, 1, 0]), Vec3([0, 0, 1])]));
    assert_eq!(m * id, Mat3(Vec3([Vec3([1, 0, 0]), Vec3([0, 5, 0]), Vec3([0, 0, 9])])));
    assert_eq!(m + id, Mat3(Vec3([Vec3([2, 2, 3]), Vec3([4, 6, 6]), Vec3([7, 8, 10])])));
    assert_eq!(m - 1, Mat3(Vec3([Vec3([0, 1, 2]), Vec3([3, 4, 5]), Vec3([6, 7, 8])])));
    assert_eq!(m / Mat3(Vec3::all(Vec3::all(2))), Mat3(Vec3([Vec3([0, 1, 1]), Vec3([2, 2, 3]), Vec3([3, 4, 4])])));
}

#[test]
fn mat4_elementwise_operators() {
    let m = Mat4(Vec4::all(Vec4([1, 2, 3, 4])));
    assert_eq!(m * 10, Mat4(Vec4::all(Vec4([10, 20, 30, 40]))));
    assert_eq!(m - m, Mat4::default());
    assert_eq!((m + m) / 2, m);
    assert_eq!(m * m, Mat4(Vec4::all(Vec4([1, 4, 9, 16]))));
}
