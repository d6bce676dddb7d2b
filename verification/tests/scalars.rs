use dynamics::rat::Rat;
use dynamics::vector::Vector;

#[test]
fn rat_new_and_from_int() {
    assert_eq!(Rat::from_int(5), Rat::new(5, 1));
    assert_eq!(Rat::zero(), Rat::new(0, 1));
}

#[test]
fn rat_add_exact() {
    // 1/2 + 1/3 == 5/6, computed as the exact pair (5, 6)
    let r = Rat::new(1, 2).add(Rat::new(1, 3));
    assert_eq!(r, Rat::new(5, 6));
}

#[test]
fn rat_mul_exact() {
    // 1/2 * 2/3 == (2, 6), equal in value to 1/3
    let r = Rat::new(1, 2).mul(Rat::new(2, 3));
    assert_eq!(r, Rat::new(2, 6));
    assert!(r.eq_val(Rat::new(1, 3)));
}

#[test]
fn rat_div_exact() {
    // (1/2) / (3/4) == (4, 6), equal in value to 2/3
    let r = Rat::new(1, 2).div(Rat::new(3, 4));
    assert_eq!(r, Rat::new(4, 6));
    assert!(r.eq_val(Rat::new(2, 3)));
}

#[test]
fn rat_eq_val_cross_multiplies() {
    assert!(Rat::new(1, 2).eq_val(Rat::new(2, 4)));
    assert!(!Rat::new(1, 2).eq_val(Rat::new(2, 3)));
    assert!(Rat::new(-3, 6).eq_val(Rat::new(-1, 2)));
}

#[test]
fn rat_is_zero() {
    assert!(Rat::zero().is_zero());
    assert!(Rat::new(0, 7).is_zero());
    assert!(!Rat::new(1, 7).is_zero());
}

#[test]
fn vector_new_and_get() {
    let v = Vector::<3>::new([Rat::new(1, 1), Rat::new(2, 1), Rat::new(3, 1)]);
    assert_eq!(*v.get(0), Rat::new(1, 1));
    assert_eq!(*v.get(1), Rat::new(2, 1));
    assert_eq!(*v.get(2), Rat::new(3, 1));
}

#[test]
fn vector_set_replaces_one_axis() {
    let mut v = Vector::<2>::zero();
    v.set(1, Rat::new(7, 2));
    assert_eq!(*v.get(0), Rat::zero());
    assert_eq!(*v.get(1), Rat::new(7, 2));
}

#[test]
fn vector_zero_all_axes() {
    let v = Vector::<4>::zero();
    for i in 0..4 {
        assert_eq!(*v.get(i), Rat::zero());
    }
}

#[test]
fn vector_add_componentwise() {
    let a = Vector::<2>::new([Rat::new(1, 2), Rat::new(1, 1)]);
    let b = Vector::<2>::new([Rat::new(1, 3), Rat::new(2, 1)]);
    let r = a.add(&b);
    assert!(r.get(0).eq_val(Rat::new(5, 6)));
    assert!(r.get(1).eq_val(Rat::new(3, 1)));
}

#[test]
fn vector_scale_componentwise() {
    let v = Vector::<2>::new([Rat::new(3, 4), Rat::new(2, 1)]);
    let r = v.scale(Rat::new(2, 5));
    assert!(r.get(0).eq_val(Rat::new(3, 10)));
    assert!(r.get(1).eq_val(Rat::new(4, 5)));
}

#[test]
fn vector_div_scalar_componentwise() {
    let v = Vector::<2>::new([Rat::new(3, 4), Rat::new(1, 1)]);
    let r = v.div_scalar(Rat::new(2, 1));
    assert!(r.get(0).eq_val(Rat::new(3, 8)));
    assert!(r.get(1).eq_val(Rat::new(1, 2)));
}
