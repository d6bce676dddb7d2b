use dynamics::body::Body;
use dynamics::rat::Rat;
use dynamics::torque::{Torque1D, Torque2D, Torque3D, Torque4D};
use dynamics::vector::Vector;

#[test]
fn test_torque() {
    let force = Torque1D::default();
    assert_eq!(*force.u(), Rat::zero());
}

#[test]
fn torque_named_axes_read_stored_components() {
    let torque = Torque3D::new([Rat::new(1, 1), Rat::new(2, 1), Rat::new(3, 1)]);
    assert_eq!(*torque.u(), Rat::new(1, 1));
    assert_eq!(*torque.v(), Rat::new(2, 1));
    assert_eq!(*torque.w(), Rat::new(3, 1));
    let wide = Torque4D::new([Rat::new(4, 1), Rat::new(5, 1), Rat::new(6, 1), Rat::new(7, 1)]);
    assert_eq!(*wide.u(), Rat::new(4, 1));
    assert_eq!(*wide.v(), Rat::new(5, 1));
    assert_eq!(*wide.w(), Rat::new(6, 1));
    assert_eq!(*wide.vector.get(3), Rat::new(7, 1));
}

#[test]
fn torque_default_is_zero_on_every_axis() {
    let d2 = Torque2D::default();
    assert_eq!(*d2.u(), Rat::zero());
    assert_eq!(*d2.v(), Rat::zero());
    let d4 = Torque4D::default();
    for i in 0..4 {
        assert_eq!(*d4.vector.get(i), Rat::zero());
    }
}

#[test]
fn torque_from_vector() {
    let v = Vector::<2>::new([Rat::new(8, 1), Rat::new(9, 1)]);
    let torque = Torque2D::from(v);
    assert_eq!(*torque.u(), Rat::new(8, 1));
    assert_eq!(*torque.v(), Rat::new(9, 1));
}

#[test]
fn torque_apply_2nd_ord_scenario() {
    // torque [0, 0, 6] on a body of inertia 3: stored angular acceleration
    // becomes [0, 0, 2]; angular velocity is unchanged
    let torque = Torque3D::new([Rat::new(0, 1), Rat::new(0, 1), Rat::new(6, 1)]);
    let mut body = Body::<3, 2>::new(Rat::new(3, 1));
    torque.apply_2nd_ord(&mut body);
    assert!(body.angular_state(2).get(0).eq_val(Rat::zero()));
    assert!(body.angular_state(2).get(1).eq_val(Rat::zero()));
    assert!(body.angular_state(2).get(2).eq_val(Rat::new(2, 1)));
    for i in 0..3 {
        assert_eq!(*body.angular_state(1).get(i), Rat::zero());
        // and the spatial chain is untouched
        assert_eq!(*body.spatial_state(2).get(i), Rat::zero());
    }
}

#[test]
fn torque_apply_1st_ord_integrates_angular_velocity() {
    // torque 10, inertia 2, dt 1/2 from rest: angular velocity becomes 5/2
    let torque = Torque1D::new([Rat::new(10, 1)]);
    let mut body = Body::<1, 1>::new(Rat::new(2, 1));
    torque.apply_1st_ord(&mut body, Rat::new(1, 2));
    assert!(body.angular_state(1).get(0).eq_val(Rat::new(5, 2)));
    assert_eq!(*body.angular_state(0).get(0), Rat::zero());
    assert_eq!(*body.spatial_state(1).get(0), Rat::zero());
}

#[test]
fn torque_zero_apply_1st_ord_keeps_angular_velocity() {
    let torque = Torque2D::default();
    let mut body = Body::<2, 1>::new(Rat::new(5, 1));
    body.set_angular_state(1, Vector::new([Rat::new(3, 1), Rat::new(-2, 1)]));
    torque.apply_1st_ord(&mut body, Rat::new(1, 3));
    assert!(body.angular_state(1).get(0).eq_val(Rat::new(3, 1)));
    assert!(body.angular_state(1).get(1).eq_val(Rat::new(-2, 1)));
}

#[test]
fn torque_repeated_apply_1st_ord_accumulates_linearly() {
    // torque 6, inertia 2, dt 1/2, three steps from rest: velocity == 9/2
    let torque = Torque1D::new([Rat::new(6, 1)]);
    let mut body = Body::<1, 1>::new(Rat::new(2, 1));
    for _step in 0..3 {
        torque.apply_1st_ord(&mut body, Rat::new(1, 2));
    }
    assert!(body.angular_state(1).get(0).eq_val(Rat::new(9, 2)));
}

#[test]
fn torque_apply_2nd_ord_twice_equals_once() {
    let torque = Torque2D::new([Rat::new(6, 1), Rat::new(9, 1)]);
    let mut once = Body::<2, 2>::new(Rat::new(3, 1));
    let mut twice = Body::<2, 2>::new(Rat::new(3, 1));
    torque.apply_2nd_ord(&mut once);
    torque.apply_2nd_ord(&mut twice);
    torque.apply_2nd_ord(&mut twice);
    for i in 0..2 {
        assert_eq!(*twice.angular_state(2).get(i), *once.angular_state(2).get(i));
    }
}

#[test]
fn torque_apply_cascades_through_higher_orders() {
    // ORD == 3: inertia 2, torque 4 gives acceleration 2; jerk 2, dt 1/2:
    // angular acceleration becomes 2 + 2 * 1/2 == 3; jerk stays
    let torque = Torque1D::new([Rat::new(4, 1)]);
    let mut body = Body::<1, 3>::new(Rat::new(2, 1));
    body.set_angular_state(3, Vector::new([Rat::new(2, 1)]));
    torque.apply(&mut body, Rat::new(1, 2));
    assert!(body.angular_state(2).get(0).eq_val(Rat::new(3, 1)));
    assert!(body.angular_state(3).get(0).eq_val(Rat::new(2, 1)));
    assert_eq!(*body.angular_state(1).get(0), Rat::zero());
    assert_eq!(*body.spatial_state(2).get(0), Rat::zero());
}
