use dynamics::body::Body;
use dynamics::rat::Rat;
use dynamics::vector::Vector;

#[test]
fn body_new_is_at_rest() {
    let body = Body::<3, 2>::new(Rat::new(5, 1));
    assert_eq!(*body.mass(), Rat::new(5, 1));
    for order in 0..3 {
        for axis in 0..3 {
            assert_eq!(*body.spatial_state(order).get(axis), Rat::zero());
            assert_eq!(*body.angular_state(order).get(axis), Rat::zero());
        }
    }
}

#[test]
fn body_set_states() {
    let mut body = Body::<2, 1>::new(Rat::new(1, 1));
    body.set_spatial_state(1, Vector::new([Rat::new(3, 1), Rat::new(-2, 1)]));
    body.set_angular_state(0, Vector::new([Rat::new(1, 2), Rat::new(0, 1)]));
    assert_eq!(*body.spatial_state(1).get(0), Rat::new(3, 1));
    assert_eq!(*body.spatial_state(1).get(1), Rat::new(-2, 1));
    assert_eq!(*body.angular_state(0).get(0), Rat::new(1, 2));
    // the other slots stay at rest
    assert_eq!(*body.spatial_state(0).get(0), Rat::zero());
    assert_eq!(*body.angular_state(1).get(1), Rat::zero());
}

#[test]
fn body_update_spatial_acceleration_overwrites_and_cascades() {
    // ORD == 3: jerk 2, new acceleration 3, dt 1/2
    // afterwards: acceleration == 3 + jerk * dt == 4, jerk unchanged
    let mut body = Body::<1, 3>::new(Rat::new(1, 1));
    body.set_spatial_state(3, Vector::new([Rat::new(2, 1)]));
    body.update_spatial_acceleration(Vector::new([Rat::new(3, 1)]), Rat::new(1, 2));
    assert!(body.spatial_state(2).get(0).eq_val(Rat::new(4, 1)));
    assert!(body.spatial_state(3).get(0).eq_val(Rat::new(2, 1)));
    assert_eq!(*body.spatial_state(1).get(0), Rat::zero());
    assert_eq!(*body.spatial_state(0).get(0), Rat::zero());
}

#[test]
fn body_update_angular_acceleration_at_order_two_is_plain_overwrite() {
    // ORD == 2: no higher derivative exists, so the new value is stored as is
    let mut body = Body::<1, 2>::new(Rat::new(1, 1));
    body.update_angular_acceleration(Vector::new([Rat::new(7, 3)]), Rat::new(1, 2));
    assert_eq!(*body.angular_state(2).get(0), Rat::new(7, 3));
    assert_eq!(*body.angular_state(1).get(0), Rat::zero());
}
