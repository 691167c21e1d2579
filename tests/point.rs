use vecmath::point::{Point2, Point3};
use vecmath::vec::{Vec2, Vec3};

#[test]
fn point_plus_vector_is_a_point() {
    assert_eq!(Point2::new(1.0, 1.0) + Vec2([2.0, 3.0]), Point2::new(3.0, 4.0));
    assert_eq!(Point2::new(1, 1) + Vec2([2, 3]), Point2::new(3, 4));
    assert_eq!(Point3::new(1, 2, 3) + Vec3([-1, 0, 10]), Point3::new(0, 2, 13));
}

#[test]
fn point_add_assign_moves_the_point() {
    let mut p = Point2::new(1.5, -1.0);
    p.add_assign(Vec2([0.5, 1.0]));
    assert_eq!(p, Point2::new(2.0, 0.0));
    let mut q = Point3::new(1, 2, 3);
    q.add_assign(Vec3([1, 1, 1]));
    assert_eq!(q, Point3::new(2, 3, 4));
}

#[test]
fn point_accessors_and_setters() {
    let mut p = Point2::new(1.0, 2.0);
    assert_eq!(p.x(), 1.0);
    assert_eq!(p.y(), 2.0);
    assert_eq!(p[1], 2.0);
    p.set_x(5.0);
    p.set_y(6.0);
    assert_eq!(p, Point2::new(5.0, 6.0));
    p.set(7.0, 8.0);
    assert_eq!(p, Point2::new(7.0, 8.0));

    let mut q = Point3::new(1, 2, 3);
    assert_eq!((q.x(), q.y(), q.z()), (1, 2, 3));
    assert_eq!(q[2], 3);
    q.set_x(-1);
    q.set_y(-2);
    q.set_z(-3);
    assert_eq!(q, Point3::new(-1, -2, -3));
    q.set(0, 0, 1);
    assert_eq!(q, Point3([0, 0, 1]));
}
