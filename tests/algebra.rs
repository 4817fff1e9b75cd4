use phys_calc::markers::{Foot, Kilometer, Meter, Second};
use phys_calc::{
    check_convert, combine, divide, multiply, overflowed, resolve, AngleUnit,
    DigitalInformationUnit, Dimension, DimensionError, DimensionVector, Exponent, Kind,
    LengthUnit, Operation, TempUnit, TimeUnit, UnitId, UnitSlot,
};

fn km() -> UnitId {
    UnitId::Length(LengthUnit::Kilometer)
}

fn sec() -> UnitId {
    UnitId::Time(TimeUnit::Second)
}

#[test]
fn length_times_length_is_area_in_the_same_unit() {
    let l = DimensionVector::of_unit(km());
    let r = multiply(&l, &l).unwrap();
    assert_eq!(r.kind, Kind::Area);
    assert_eq!(r.vector.exponent_in(Dimension::Length), Exponent::Value(2));
    assert_eq!(r.vector.unit_in(Dimension::Length), UnitSlot::Unit(km()));
    assert_eq!(r.vector.exponent_in(Dimension::Time), Exponent::Value(0));
    assert_eq!(r.vector.unit_in(Dimension::Time), UnitSlot::Unconstrained);
}

#[test]
fn length_over_time_is_speed() {
    let l = DimensionVector::of_unit(km());
    let t = DimensionVector::of_unit(sec());
    let r = divide(&l, &t).unwrap();
    assert_eq!(r.kind, Kind::Speed);
    assert_eq!(r.vector.exponent_in(Dimension::Length), Exponent::Value(1));
    assert_eq!(r.vector.exponent_in(Dimension::Time), Exponent::Value(-1));
    assert_eq!(r.vector.unit_in(Dimension::Length), UnitSlot::Unit(km()));
    assert_eq!(r.vector.unit_in(Dimension::Time), UnitSlot::Unit(sec()));
}

#[test]
fn speed_times_time_is_length() {
    let l = DimensionVector::of_unit(km());
    let t = DimensionVector::of_unit(sec());
    let speed = divide(&l, &t).unwrap();
    let back = multiply(&speed.vector, &t).unwrap();
    assert_eq!(back.kind, Kind::Length);
    assert!(back.vector.same_as(&l));
    assert_eq!(back.vector.unit_in(Dimension::Time), UnitSlot::Unconstrained);
    for d in 1..10 {
        let dim = Dimension::at(d);
        assert_eq!(back.vector.exponent_in(dim), Exponent::Value(0));
    }
}

#[test]
fn meter_times_foot_is_a_unit_conflict() {
    let m = DimensionVector::of::<Meter>();
    let ft = DimensionVector::of::<Foot>();
    assert_eq!(multiply(&m, &ft).unwrap_err(), DimensionError::UnitConflict);
    assert_eq!(divide(&m, &ft).unwrap_err(), DimensionError::UnitConflict);
    assert_eq!(
        combine(&m, &ft, Operation::Multiply).unwrap_err(),
        DimensionError::UnitConflict
    );
}

#[test]
fn marker_types_name_their_units() {
    let a = DimensionVector::of::<Kilometer>();
    let b = DimensionVector::of_unit(km());
    assert!(a.same_as(&b));
    let s = DimensionVector::of::<Second>();
    assert_eq!(s.unit_in(Dimension::Time), UnitSlot::Unit(sec()));
}

#[test]
fn dimensionless_operand_leaves_the_other_unchanged() {
    let one = DimensionVector::dimensionless();
    let l = DimensionVector::of_unit(km());
    let t = DimensionVector::of_unit(sec());
    let speed = divide(&l, &t).unwrap().vector;
    for q in [&l, &t, &speed] {
        let left = multiply(&one, q).unwrap();
        let right = multiply(q, &one).unwrap();
        assert!(left.vector.same_as(q));
        assert!(right.vector.same_as(q));
    }
    assert_eq!(multiply(&one, &l).unwrap().kind, Kind::Length);
    assert_eq!(resolve(&one).unwrap(), Kind::Derived);
}

#[test]
fn cancelled_dimension_goes_back_to_unconstrained() {
    let l = DimensionVector::of_unit(km());
    let r = divide(&l, &l).unwrap();
    assert_eq!(r.kind, Kind::Derived);
    assert!(r.vector.same_as(&DimensionVector::dimensionless()));
}

#[test]
fn exponent_overflow_is_detected_and_terminal() {
    let l = DimensionVector::of_unit(km());
    let mut v = l.clone();
    for _ in 0..4 {
        v = multiply(&v, &l).unwrap().vector;
    }
    assert_eq!(v.exponent_in(Dimension::Length), Exponent::Value(5));
    assert_eq!(resolve(&v).unwrap(), Kind::Derived);
    assert_eq!(multiply(&v, &l).unwrap_err(), DimensionError::ExponentOverflow);
    let over = combine(&v, &l, Operation::Multiply).unwrap();
    assert_eq!(over.exponent_in(Dimension::Length), Exponent::Invalid);
    assert!(overflowed(&over));
    assert_eq!(resolve(&over).unwrap_err(), DimensionError::ExponentOverflow);
    let t = DimensionVector::of_unit(sec());
    let further = combine(&over, &t, Operation::Divide).unwrap();
    assert_eq!(further.exponent_in(Dimension::Length), Exponent::Invalid);
    assert_eq!(resolve(&further).unwrap_err(), DimensionError::ExponentOverflow);
    let undo = combine(&over, &l, Operation::Divide).unwrap();
    assert_eq!(undo.exponent_in(Dimension::Length), Exponent::Invalid);
}

#[test]
fn negative_edge_overflows_under_division() {
    let t = DimensionVector::of_unit(sec());
    let mut v = DimensionVector::dimensionless();
    for _ in 0..5 {
        v = combine(&v, &t, Operation::Divide).unwrap();
    }
    assert_eq!(v.exponent_in(Dimension::Time), Exponent::Value(-5));
    assert_eq!(divide(&v, &t).unwrap_err(), DimensionError::ExponentOverflow);
    assert_eq!(multiply(&v, &t).unwrap().vector.exponent_in(Dimension::Time), Exponent::Value(-4));
}

#[test]
fn every_base_unit_resolves_to_its_own_kind() {
    let kinds = [
        Kind::Length,
        Kind::Time,
        Kind::Temperature,
        Kind::Mass,
        Kind::Current,
        Kind::LuminousIntensity,
        Kind::SubstanceQuantity,
        Kind::Angle,
        Kind::SolidAngle,
        Kind::DigitalInformation,
    ];
    for i in 0..10 {
        let d = Dimension::at(i);
        assert_eq!(d.index(), i);
        let u = d.base_unit();
        assert_eq!(u.dimension(), d);
        assert!(u.is_base());
        assert_eq!(resolve(&DimensionVector::of_unit(u)).unwrap(), kinds[i]);
    }
}

#[test]
fn unknown_pattern_resolves_to_derived() {
    let l = DimensionVector::of_unit(km());
    let t = DimensionVector::of_unit(sec());
    let lt = multiply(&l, &t).unwrap();
    assert_eq!(lt.kind, Kind::Derived);
    let area = multiply(&l, &l).unwrap().vector;
    let volume = multiply(&area, &l).unwrap();
    assert_eq!(volume.kind, Kind::Derived);
    assert_eq!(volume.vector.exponent_in(Dimension::Length), Exponent::Value(3));
}

#[test]
fn construction_rejects_placeholder_and_foreign_units() {
    let ok = DimensionVector::for_unit(Dimension::Length, UnitSlot::Unit(km())).unwrap();
    assert!(ok.same_as(&DimensionVector::of_unit(km())));
    assert_eq!(
        DimensionVector::for_unit(Dimension::Length, UnitSlot::Unconstrained).unwrap_err(),
        DimensionError::UnregisteredUnit
    );
    assert_eq!(
        DimensionVector::for_unit(Dimension::Time, UnitSlot::Unit(km())).unwrap_err(),
        DimensionError::UnregisteredUnit
    );
}

#[test]
fn add_and_convert_need_matching_dimensions() {
    let l = DimensionVector::of_unit(km());
    let m = DimensionVector::of_unit(UnitId::Length(LengthUnit::Meter));
    let t = DimensionVector::of_unit(sec());
    assert_eq!(l.check_same(&l.clone()), Ok(()));
    assert_eq!(l.check_same(&m), Err(DimensionError::DimensionMismatch));
    assert_eq!(l.check_same(&t), Err(DimensionError::DimensionMismatch));
    assert_eq!(check_convert(km(), UnitId::Length(LengthUnit::Foot)), Ok(()));
    assert_eq!(
        check_convert(UnitId::Angle(AngleUnit::Degree), UnitId::Angle(AngleUnit::Radian)),
        Ok(())
    );
    assert_eq!(
        check_convert(
            UnitId::DigitalInformation(DigitalInformationUnit::Kibibyte),
            UnitId::DigitalInformation(DigitalInformationUnit::Bit)
        ),
        Ok(())
    );
    assert_eq!(
        check_convert(UnitId::Temperature(TempUnit::Celsius), UnitId::Temperature(TempUnit::Kelvin)),
        Ok(())
    );
    assert_eq!(check_convert(km(), sec()), Err(DimensionError::DimensionMismatch));
}

#[test]
fn unit_symbols() {
    assert_eq!(km().symbol(), "km");
    assert_eq!(sec().symbol(), "s");
    assert_eq!(UnitId::Temperature(TempUnit::Celsius).symbol(), "°C");
    assert_eq!(UnitId::DigitalInformation(DigitalInformationUnit::Kibibyte).symbol(), "KiB");
    assert_eq!(UnitId::Angle(AngleUnit::Degree).symbol(), "°");
    assert!(!km().is_base());
    assert_eq!(Dimension::DigitalInformation.base_unit().symbol(), "bit");
    assert_eq!(Dimension::Temperature.base_unit().symbol(), "K");
}

#[test]
fn resolved_unit_of_single_dimension_kinds() {
    let l = DimensionVector::of_unit(km());
    let t = DimensionVector::of_unit(sec());
    let area = multiply(&l, &l).unwrap();
    assert_eq!(area.unit(), Some(km()));
    let speed = divide(&l, &t).unwrap();
    assert_eq!(speed.unit(), None);
    let back = multiply(&speed.vector, &t).unwrap();
    assert_eq!(back.unit(), Some(km()));
    let lt = multiply(&l, &t).unwrap();
    assert_eq!(lt.unit(), None);
}

#[test]
fn kinds_of_dimensions() {
    assert_eq!(Kind::of_dimension(Dimension::Length), Kind::Length);
    assert_eq!(Kind::of_dimension(Dimension::SolidAngle), Kind::SolidAngle);
    assert_eq!(Kind::of_dimension(Dimension::DigitalInformation), Kind::DigitalInformation);
    assert_eq!(Kind::Area.single_dimension(), Some(Dimension::Length));
    assert_eq!(Kind::Mass.single_dimension(), Some(Dimension::Mass));
    assert_eq!(Kind::Speed.single_dimension(), None);
    assert_eq!(Kind::Derived.single_dimension(), None);
}

#[test]
fn registered_unit_lookup() {
    assert_eq!(UnitSlot::Unit(km()).registered_in(Dimension::Length), Ok(km()));
    assert_eq!(
        UnitSlot::Unit(km()).registered_in(Dimension::Mass),
        Err(DimensionError::UnregisteredUnit)
    );
    assert_eq!(
        UnitSlot::Unconstrained.registered_in(Dimension::Time),
        Err(DimensionError::UnregisteredUnit)
    );
}

#[test]
fn conversion_applies_to_base_kinds_only() {
    let l = DimensionVector::of_unit(km());
    let t = DimensionVector::of_unit(sec());
    let length = multiply(&l, &DimensionVector::dimensionless()).unwrap();
    let foot = UnitId::Length(LengthUnit::Foot);
    assert_eq!(length.conversion_source(foot), Ok(km()));
    assert_eq!(length.conversion_source(sec()), Err(DimensionError::DimensionMismatch));
    let area = multiply(&l, &l).unwrap();
    assert_eq!(area.conversion_source(foot), Err(DimensionError::DimensionMismatch));
    let speed = divide(&l, &t).unwrap();
    assert_eq!(speed.conversion_source(foot), Err(DimensionError::DimensionMismatch));
    let deg = DimensionVector::of_unit(UnitId::Angle(AngleUnit::Degree));
    let angle = multiply(&deg, &DimensionVector::dimensionless()).unwrap();
    assert_eq!(
        angle.conversion_source(UnitId::Angle(AngleUnit::Radian)),
        Ok(UnitId::Angle(AngleUnit::Degree))
    );
    assert!(Kind::Angle.is_base_kind());
    assert!(!Kind::Area.is_base_kind());
    assert!(!Kind::Derived.is_base_kind());
}
