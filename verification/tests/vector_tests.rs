//! Vector arithmetic over integer components.

use v39::vector::Vector;

#[test]
fn componentwise_sums_and_differences() {
    let a: Vector<3, u32> = Vector::new([1, 2, 3]);
    let b: Vector<3, u32> = Vector::new([10, 20, 30]);
    assert_eq!(a.add_vec(&b).buffer(), &[11, 22, 33]);
    assert_eq!(b.sub_vec(&a).buffer(), &[9, 18, 27]);
    assert_eq!(a.add_scalar(5).buffer(), &[6, 7, 8]);
    assert_eq!(b.sub_scalar(10).buffer(), &[0, 10, 20]);
}

#[test]
fn in_place_variants_match() {
    let mut a: Vector<4, i64> = Vector::new([1, -2, 3, -4]);
    a.add_scalar_inplace(10);
    assert_eq!(a.buffer(), &[11, 8, 13, 6]);
    a.sub_scalar_inplace(6);
    assert_eq!(a.buffer(), &[5, 2, 7, 0]);
    let b: Vector<4, i64> = Vector::new([1, 1, 1, 1]);
    a.add_vec_inplace(&b);
    assert_eq!(a.buffer(), &[6, 3, 8, 1]);
    a.sub_vec_inplace(&b);
    assert_eq!(a.buffer(), &[5, 2, 7, 0]);
}

#[test]
fn scaling() {
    let a: Vector<2, i64> = Vector::new([3, -5]);
    assert_eq!(a.mul_scalar(4).buffer(), &[12, -20]);
    assert_eq!(a.div_scalar(3).buffer(), &[1, -1]);
    let mut b = a;
    b.mul_scalar_inplace(2);
    assert_eq!(b.buffer(), &[6, -10]);
    b.div_scalar_inplace(2);
    assert_eq!(b.buffer(), &[3, -5]);
}

#[test]
fn dot_product() {
    let a: Vector<3, u64> = Vector::new([1, 2, 3]);
    let b: Vector<3, u64> = Vector::new([4, 5, 6]);
    assert_eq!(a.dot(&b), 32);
}

#[test]
fn from_slice_checks_the_length() {
    let v: Option<Vector<3, u32>> = Vector::from_slice(&[1, 2, 3]);
    assert_eq!(v.unwrap().buffer(), &[1, 2, 3]);
    let short: Option<Vector<3, u32>> = Vector::from_slice(&[1, 2]);
    assert!(short.is_none());
    let long: Option<Vector<3, u32>> = Vector::from_slice(&[1, 2, 3, 4]);
    assert!(long.is_none());
}

#[test]
fn shorthand_accessors() {
    let mut v: Vector<2, i32> = Vector::new_2d(1, 2);
    assert_eq!((*v.x(), *v.y()), (1, 2));
    v.set_x(7);
    v.set_y(8);
    assert_eq!(v.buffer(), &[7, 8]);

    let mut w: Vector<3, i32> = Vector::new_3d(1, 2, 3);
    assert_eq!((*w.x(), *w.y(), *w.z()), (1, 2, 3));
    w.set_z(9);
    assert_eq!(*w.z(), 9);
    let c: Vector<3, u32> = Vector::new_rgb(255, 128, 0);
    assert_eq!((*c.r(), *c.g(), *c.b()), (255, 128, 0));

    let mut q: Vector<4, u32> = Vector::new_rgba(1, 2, 3, 4);
    assert_eq!((*q.r(), *q.g(), *q.b(), *q.a()), (1, 2, 3, 4));
    q.set_r(10);
    q.set_g(20);
    q.set_b(30);
    q.set_a(40);
    assert_eq!(q.buffer(), &[10, 20, 30, 40]);

    let mut p: Vector<3, u8> = Vector::new_rgb(0, 0, 0);
    p.set_r(1);
    p.set_g(2);
    p.set_b(3);
    assert_eq!(p.buffer(), &[1, 2, 3]);
    let mut s: Vector<2, u8> = Vector::new_2d(0, 0);
    s.set_x(1);
    assert_eq!(*s.x(), 1);
    assert_eq!(*s.y(), 0);
}

#[test]
fn vectors_of_floats_work_through_the_generic_ops() {
    // Floating-point components go through the same generic operators.
    let a: Vector<3, f32> = Vector::new([1.0, 2.0, 3.0]);
    let b: Vector<3, f32> = Vector::new([0.5, 0.5, 0.5]);
    let sum = a.add_vec(&b);
    assert_eq!(sum.buffer(), &[1.5, 2.5, 3.5]);
}
