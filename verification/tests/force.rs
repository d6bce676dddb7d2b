use dynamics::body::Body;
use dynamics::force::{Force1D, Force2D, Force3D, Force4D};
use dynamics::rat::Rat;
use dynamics::vector::Vector;

#[test]
fn test_force() {
    let force = Force1D::default();
    assert_eq!(*force.x(), Rat::zero());
}

#[test]
fn force_named_axes_read_stored_components() {
    let force = Force3D::new([Rat::new(1, 1), Rat::new(2, 1), Rat::new(3, 1)]);
    assert_eq!(*force.x(), Rat::new(1, 1));
    assert_eq!(*force.y(), Rat::new(2, 1));
    assert_eq!(*force.z(), Rat::new(3, 1));
    let wide = Force4D::new([Rat::new(4, 1), Rat::new(5, 1), Rat::new(6, 1), Rat::new(7, 1)]);
    assert_eq!(*wide.x(), Rat::new(4, 1));
    assert_eq!(*wide.y(), Rat::new(5, 1));
    assert_eq!(*wide.z(), Rat::new(6, 1));
    assert_eq!(*wide.vector.get(3), Rat::new(7, 1));
}

#[test]
fn force_default_is_zero_on_every_axis() {
    let d2 = Force2D::default();
    assert_eq!(*d2.x(), Rat::zero());
    assert_eq!(*d2.y(), Rat::zero());
    let d4 = Force4D::default();
    for i in 0..4 {
        assert_eq!(*d4.vector.get(i), Rat::zero());
    }
}

#[test]
fn force_from_vector() {
    let v = Vector::<2>::new([Rat::new(8, 1), Rat::new(9, 1)]);
    let force = Force2D::from(v);
    assert_eq!(*force.x(), Rat::new(8, 1));
    assert_eq!(*force.y(), Rat::new(9, 1));
}

#[test]
fn force_apply_1st_ord_scenario() {
    // force 10, mass 2, dt 1/2 from rest: velocity becomes 10/2 * 1/2 == 5/2
    let force = Force1D::new([Rat::new(10, 1)]);
    let mut body = Body::<1, 1>::new(Rat::new(2, 1));
    force.apply_1st_ord(&mut body, Rat::new(1, 2));
    assert!(body.spatial_state(1).get(0).eq_val(Rat::new(5, 2)));
    // position and the angular chain are untouched
    assert_eq!(*body.spatial_state(0).get(0), Rat::zero());
    assert_eq!(*body.angular_state(1).get(0), Rat::zero());
}

#[test]
fn force_zero_apply_1st_ord_keeps_velocity() {
    let force = Force2D::default();
    let mut body = Body::<2, 1>::new(Rat::new(5, 1));
    body.set_spatial_state(1, Vector::new([Rat::new(3, 1), Rat::new(-2, 1)]));
    force.apply_1st_ord(&mut body, Rat::new(1, 3));
    assert!(body.spatial_state(1).get(0).eq_val(Rat::new(3, 1)));
    assert!(body.spatial_state(1).get(1).eq_val(Rat::new(-2, 1)));
    // the other dimensions, from rest
    let f1 = Force1D::default();
    let mut b1 = Body::<1, 1>::new(Rat::new(2, 1));
    f1.apply_1st_ord(&mut b1, Rat::new(1, 2));
    assert!(b1.spatial_state(1).get(0).eq_val(Rat::zero()));
    let f3 = Force3D::default();
    let mut b3 = Body::<3, 1>::new(Rat::new(2, 1));
    f3.apply_1st_ord(&mut b3, Rat::new(1, 2));
    let f4 = Force4D::default();
    let mut b4 = Body::<4, 1>::new(Rat::new(2, 1));
    f4.apply_1st_ord(&mut b4, Rat::new(1, 2));
    for i in 0..3 {
        assert!(b3.spatial_state(1).get(i).eq_val(Rat::zero()));
    }
    for i in 0..4 {
        assert!(b4.spatial_state(1).get(i).eq_val(Rat::zero()));
    }
}

#[test]
fn force_repeated_apply_1st_ord_accumulates_linearly() {
    // force 6, mass 2, dt 1/2, three steps from rest: velocity == 3 * 3/2 == 9/2
    let force = Force1D::new([Rat::new(6, 1)]);
    let mut body = Body::<1, 1>::new(Rat::new(2, 1));
    for _step in 0..3 {
        force.apply_1st_ord(&mut body, Rat::new(1, 2));
    }
    assert!(body.spatial_state(1).get(0).eq_val(Rat::new(9, 2)));
}

#[test]
fn force_apply_2nd_ord_overwrites_acceleration() {
    // force 6, mass 3: stored acceleration becomes 2; velocity is untouched
    let force = Force1D::new([Rat::new(6, 1)]);
    let mut body = Body::<1, 2>::new(Rat::new(3, 1));
    body.set_spatial_state(1, Vector::new([Rat::new(4, 1)]));
    force.apply_2nd_ord(&mut body);
    assert!(body.spatial_state(2).get(0).eq_val(Rat::new(2, 1)));
    assert_eq!(*body.spatial_state(1).get(0), Rat::new(4, 1));
}

#[test]
fn force_apply_2nd_ord_twice_equals_once() {
    let force = Force2D::new([Rat::new(6, 1), Rat::new(9, 1)]);
    let mut once = Body::<2, 2>::new(Rat::new(3, 1));
    let mut twice = Body::<2, 2>::new(Rat::new(3, 1));
    force.apply_2nd_ord(&mut once);
    force.apply_2nd_ord(&mut twice);
    force.apply_2nd_ord(&mut twice);
    for i in 0..2 {
        assert_eq!(*twice.spatial_state(2).get(i), *once.spatial_state(2).get(i));
    }
}

#[test]
fn force_apply_cascades_through_higher_orders() {
    // ORD == 3: mass 2, force 4 gives acceleration 2; jerk 2, dt 1/2:
    // acceleration becomes 2 + 2 * 1/2 == 3; jerk and velocity are untouched
    let force = Force1D::new([Rat::new(4, 1)]);
    let mut body = Body::<1, 3>::new(Rat::new(2, 1));
    body.set_spatial_state(3, Vector::new([Rat::new(2, 1)]));
    force.apply(&mut body, Rat::new(1, 2));
    assert!(body.spatial_state(2).get(0).eq_val(Rat::new(3, 1)));
    assert!(body.spatial_state(3).get(0).eq_val(Rat::new(2, 1)));
    assert_eq!(*body.spatial_state(1).get(0), Rat::zero());
    assert_eq!(*body.spatial_state(0).get(0), Rat::zero());
}

#[test]
fn force_apply_order_four_advances_jerk_first() {
    // ORD == 4: mass 1, force 1 gives acceleration 1; jerk 1, snap 2, dt 1/2:
    // jerk becomes 1 + 2 * 1/2 == 2, then acceleration 1 + 2 * 1/2 == 2
    let force = Force1D::new([Rat::new(1, 1)]);
    let mut body = Body::<1, 4>::new(Rat::new(1, 1));
    body.set_spatial_state(3, Vector::new([Rat::new(1, 1)]));
    body.set_spatial_state(4, Vector::new([Rat::new(2, 1)]));
    force.apply(&mut body, Rat::new(1, 2));
    assert!(body.spatial_state(2).get(0).eq_val(Rat::new(2, 1)));
    assert!(body.spatial_state(3).get(0).eq_val(Rat::new(2, 1)));
    assert_eq!(*body.spatial_state(4).get(0), Rat::new(2, 1));
}
