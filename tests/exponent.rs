use phys_calc::{Exponent, Five, Invalid, NegFive, NegOne, Number, One, Two, Zero};

fn all_exponents() -> Vec<Exponent> {
    let mut v: Vec<Exponent> = (-5i8..=5).map(Exponent::Value).collect();
    v.push(Exponent::Invalid);
    v
}

#[test]
fn exponent_add_table_is_clipped_integer_addition() {
    let all = all_exponents();
    assert_eq!(all.len(), 12);
    let mut checked = 0;
    for &a in &all {
        for &b in &all {
            let expected = match (a, b) {
                (Exponent::Value(x), Exponent::Value(y)) => {
                    let s = x as i32 + y as i32;
                    if (-5..=5).contains(&s) {
                        Exponent::Value(s as i8)
                    } else {
                        Exponent::Invalid
                    }
                }
                _ => Exponent::Invalid,
            };
            assert_eq!(a.add(b), expected, "{:?} + {:?}", a, b);
            assert_eq!(a.add(b), b.add(a));
            checked += 1;
        }
    }
    assert_eq!(checked, 144);
}

#[test]
fn exponent_negate_is_an_involution() {
    for x in -5i8..=5 {
        let e = Exponent::Value(x);
        assert_eq!(e.negate(), Exponent::Value(-x));
        assert_eq!(e.negate().negate(), e);
    }
    assert_eq!(Exponent::Value(0).negate(), Exponent::Value(0));
    assert_eq!(Exponent::Invalid.negate(), Exponent::Invalid);
}

#[test]
fn exponent_edges() {
    assert_eq!(Exponent::Value(5).add(Exponent::Value(1)), Exponent::Invalid);
    assert_eq!(Exponent::Value(-5).add(Exponent::Value(-1)), Exponent::Invalid);
    assert_eq!(Exponent::Value(5).add(Exponent::Value(-5)), Exponent::Value(0));
    assert_eq!(Exponent::Value(2).add(Exponent::Value(3)), Exponent::Value(5));
    assert_eq!(Exponent::Value(3).add(Exponent::Value(3)), Exponent::Invalid);
    assert_eq!(Exponent::Invalid.add(Exponent::Value(0)), Exponent::Invalid);
}

#[test]
fn exponent_from_int_clips() {
    assert_eq!(Exponent::from_int(4), Exponent::Value(4));
    assert_eq!(Exponent::from_int(-5), Exponent::Value(-5));
    assert_eq!(Exponent::from_int(6), Exponent::Invalid);
    assert_eq!(Exponent::from_int(-6), Exponent::Invalid);
    assert_eq!(Exponent::from_int(i8::MAX), Exponent::Invalid);
}

#[test]
fn exponent_zero_test() {
    assert!(Exponent::Value(0).is_zero());
    assert!(!Exponent::Value(1).is_zero());
    assert!(!Exponent::Invalid.is_zero());
}

#[test]
fn exponent_marker_types() {
    assert_eq!(NegFive::exponent(), Exponent::Value(-5));
    assert_eq!(NegOne::exponent(), Exponent::Value(-1));
    assert_eq!(Zero::exponent(), Exponent::Value(0));
    assert_eq!(One::exponent(), Exponent::Value(1));
    assert_eq!(Two::exponent(), Exponent::Value(2));
    assert_eq!(Five::exponent(), Exponent::Value(5));
    assert_eq!(Invalid::exponent(), Exponent::Invalid);
    assert_eq!(One::exponent().add(Two::exponent()), Exponent::Value(3));
}
