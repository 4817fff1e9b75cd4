//! Zero-sized marker types, one per unit, for callers that name a unit by its type.
use vstd::prelude::*;

use crate::units::{
    AngleUnit, CurrentUnit, DigitalInformationUnit, LengthUnit, LuminousIntensityUnit, MassUnit,
    QuantityUnit, SolidAngleUnit, TempUnit, TimeUnit, UnitId,
};

verus! {

/// A type that names one concrete unit.
pub trait Unit {
    /// The unit this type names.
    spec fn id_spec() -> UnitId;

    fn id() -> (r: UnitId)
        ensures
            r == Self::id_spec(),
    ;
}

/// Marker for `LengthUnit::Picometer`.
#[derive(Clone, Copy, Debug)]
pub struct Picometer;

impl Unit for Picometer {
    open spec fn id_spec() -> UnitId {
        UnitId::Length(LengthUnit::Picometer)
    }

    fn id() -> (r: UnitId) {
        UnitId::Length(LengthUnit::Picometer)
    }
}

/// Marker for `LengthUnit::Nanometer`.
#[derive(Clone, Copy, Debug)]
pub struct Nanometer;

impl Unit for Nanometer {
    open spec fn id_spec() -> UnitId {
        UnitId::Length(LengthUnit::Nanometer)
    }

    fn id() -> (r: UnitId) {
        UnitId::Length(LengthUnit::Nanometer)
    }
}

/// Marker for `LengthUnit::Micrometer`.
#[derive(Clone, Copy, Debug)]
pub struct Micrometer;

impl Unit for Micrometer {
    open spec fn id_spec() -> UnitId {
        UnitId::Length(LengthUnit::Micrometer)
    }

    fn id() -> (r: UnitId) {
        UnitId::Length(LengthUnit::Micrometer)
    }
}

/// Marker for `LengthUnit::Millimeter`.
#[derive(Clone, Copy, Debug)]
pub struct Millimeter;

impl Unit for Millimeter {
    open spec fn id_spec() -> UnitId {
        UnitId::Length(LengthUnit::Millimeter)
    }

    fn id() -> (r: UnitId) {
        UnitId::Length(LengthUnit::Millimeter)
    }
}

/// Marker for `LengthUnit::Centimeter`.
#[derive(Clone, Copy, Debug)]
pub struct Centimeter;

impl Unit for Centimeter {
    open spec fn id_spec() -> UnitId {
        UnitId::Length(LengthUnit::Centimeter)
    }

    fn id() -> (r: UnitId) {
        UnitId::Length(LengthUnit::Centimeter)
    }
}

/// Marker for `LengthUnit::Decimeter`.
#[derive(Clone, Copy, Debug)]
pub struct Decimeter;

impl Unit for Decimeter {
    open spec fn id_spec() -> UnitId {
        UnitId::Length(LengthUnit::Decimeter)
    }

    fn id() -> (r: UnitId) {
        UnitId::Length(LengthUnit::Decimeter)
    }
}

/// Marker for `LengthUnit::Meter`.
#[derive(Clone, Copy, Debug)]
pub struct Meter;

impl Unit for Meter {
    open spec fn id_spec() -> UnitId {
        UnitId::Length(LengthUnit::Meter)
    }

    fn id() -> (r: UnitId) {
        UnitId::Length(LengthUnit::Meter)
    }
}

/// Marker for `LengthUnit::Kilometer`.
#[derive(Clone, Copy, Debug)]
pub struct Kilometer;

impl Unit for Kilometer {
    open spec fn id_spec() -> UnitId {
        UnitId::Length(LengthUnit::Kilometer)
    }

    fn id() -> (r: UnitId) {
        UnitId::Length(LengthUnit::Kilometer)
    }
}

/// Marker for `LengthUnit::AstronomicalUnit`.
#[derive(Clone, Copy, Debug)]
pub struct AstronomicalUnit;

impl Unit for AstronomicalUnit {
    open spec fn id_spec() -> UnitId {
        UnitId::Length(LengthUnit::AstronomicalUnit)
    }

    fn id() -> (r: UnitId) {
        UnitId::Length(LengthUnit::AstronomicalUnit)
    }
}

/// Marker for `LengthUnit::Lightyear`.
#[derive(Clone, Copy, Debug)]
pub struct Lightyear;

impl Unit for Lightyear {
    open spec fn id_spec() -> UnitId {
        UnitId::Length(LengthUnit::Lightyear)
    }

    fn id() -> (r: UnitId) {
        UnitId::Length(LengthUnit::Lightyear)
    }
}

/// Marker for `LengthUnit::Parsec`.
#[derive(Clone, Copy, Debug)]
pub struct Parsec;

impl Unit for Parsec {
    open spec fn id_spec() -> UnitId {
        UnitId::Length(LengthUnit::Parsec)
    }

    fn id() -> (r: UnitId) {
        UnitId::Length(LengthUnit::Parsec)
    }
}

/// Marker for `LengthUnit::Inch`.
#[derive(Clone, Copy, Debug)]
pub struct Inch;

impl Unit for Inch {
    open spec fn id_spec() -> UnitId {
        UnitId::Length(LengthUnit::Inch)
    }

    fn id() -> (r: UnitId) {
        UnitId::Length(LengthUnit::Inch)
    }
}

/// Marker for `LengthUnit::Foot`.
#[derive(Clone, Copy, Debug)]
pub struct Foot;

impl Unit for Foot {
    open spec fn id_spec() -> UnitId {
        UnitId::Length(LengthUnit::Foot)
    }

    fn id() -> (r: UnitId) {
        UnitId::Length(LengthUnit::Foot)
    }
}

/// Marker for `LengthUnit::Yard`.
#[derive(Clone, Copy, Debug)]
pub struct Yard;

impl Unit for Yard {
    open spec fn id_spec() -> UnitId {
        UnitId::Length(LengthUnit::Yard)
    }

    fn id() -> (r: UnitId) {
        UnitId::Length(LengthUnit::Yard)
    }
}

/// Marker for `LengthUnit::Mile`.
#[derive(Clone, Copy, Debug)]
pub struct Mile;

impl Unit for Mile {
    open spec fn id_spec() -> UnitId {
        UnitId::Length(LengthUnit::Mile)
    }

    fn id() -> (r: UnitId) {
        UnitId::Length(LengthUnit::Mile)
    }
}

/// Marker for `TimeUnit::Picosecond`.
#[derive(Clone, Copy, Debug)]
pub struct Picosecond;

impl Unit for Picosecond {
    open spec fn id_spec() -> UnitId {
        UnitId::Time(TimeUnit::Picosecond)
    }

    fn id() -> (r: UnitId) {
        UnitId::Time(TimeUnit::Picosecond)
    }
}

/// Marker for `TimeUnit::Nanosecond`.
#[derive(Clone, Copy, Debug)]
pub struct Nanosecond;

impl Unit for Nanosecond {
    open spec fn id_spec() -> UnitId {
        UnitId::Time(TimeUnit::Nanosecond)
    }

    fn id() -> (r: UnitId) {
        UnitId::Time(TimeUnit::Nanosecond)
    }
}

/// Marker for `TimeUnit::Microsecond`.
#[derive(Clone, Copy, Debug)]
pub struct Microsecond;

impl Unit for Microsecond {
    open spec fn id_spec() -> UnitId {
        UnitId::Time(TimeUnit::Microsecond)
    }

    fn id() -> (r: UnitId) {
        UnitId::Time(TimeUnit::Microsecond)
    }
}

/// Marker for `TimeUnit::Millisecond`.
#[derive(Clone, Copy, Debug)]
pub struct Millisecond;

impl Unit for Millisecond {
    open spec fn id_spec() -> UnitId {
        UnitId::Time(TimeUnit::Millisecond)
    }

    fn id() -> (r: UnitId) {
        UnitId::Time(TimeUnit::Millisecond)
    }
}

/// Marker for `TimeUnit::Second`.
#[derive(Clone, Copy, Debug)]
pub struct Second;

impl Unit for Second {
    open spec fn id_spec() -> UnitId {
        UnitId::Time(TimeUnit::Second)
    }

    fn id() -> (r: UnitId) {
        UnitId::Time(TimeUnit::Second)
    }
}

/// Marker for `TimeUnit::Minute`.
#[derive(Clone, Copy, Debug)]
pub struct Minute;

impl Unit for Minute {
    open spec fn id_spec() -> UnitId {
        UnitId::Time(TimeUnit::Minute)
    }

    fn id() -> (r: UnitId) {
        UnitId::Time(TimeUnit::Minute)
    }
}

/// Marker for `TimeUnit::Hour`.
#[derive(Clone, Copy, Debug)]
pub struct Hour;

impl Unit for Hour {
    open spec fn id_spec() -> UnitId {
        UnitId::Time(TimeUnit::Hour)
    }

    fn id() -> (r: UnitId) {
        UnitId::Time(TimeUnit::Hour)
    }
}

/// Marker for `TimeUnit::Day`.
#[derive(Clone, Copy, Debug)]
pub struct Day;

impl Unit for Day {
    open spec fn id_spec() -> UnitId {
        UnitId::Time(TimeUnit::Day)
    }

    fn id() -> (r: UnitId) {
        UnitId::Time(TimeUnit::Day)
    }
}

/// Marker for `TimeUnit::Month`.
#[derive(Clone, Copy, Debug)]
pub struct Month;

impl Unit for Month {
    open spec fn id_spec() -> UnitId {
        UnitId::Time(TimeUnit::Month)
    }

    fn id() -> (r: UnitId) {
        UnitId::Time(TimeUnit::Month)
    }
}

/// Marker for `TimeUnit::Year`.
#[derive(Clone, Copy, Debug)]
pub struct Year;

impl Unit for Year {
    open spec fn id_spec() -> UnitId {
        UnitId::Time(TimeUnit::Year)
    }

    fn id() -> (r: UnitId) {
        UnitId::Time(TimeUnit::Year)
    }
}

/// Marker for `TimeUnit::AgeOfUniverse`.
#[derive(Clone, Copy, Debug)]
pub struct AgeOfUniverse;

impl Unit for AgeOfUniverse {
    open spec fn id_spec() -> UnitId {
        UnitId::Time(TimeUnit::AgeOfUniverse)
    }

    fn id() -> (r: UnitId) {
        UnitId::Time(TimeUnit::AgeOfUniverse)
    }
}

/// Marker for `TempUnit::Kelvin`.
#[derive(Clone, Copy, Debug)]
pub struct Kelvin;

impl Unit for Kelvin {
    open spec fn id_spec() -> UnitId {
        UnitId::Temperature(TempUnit::Kelvin)
    }

    fn id() -> (r: UnitId) {
        UnitId::Temperature(TempUnit::Kelvin)
    }
}

/// Marker for `TempUnit::Celsius`.
#[derive(Clone, Copy, Debug)]
pub struct Celsius;

impl Unit for Celsius {
    open spec fn id_spec() -> UnitId {
        UnitId::Temperature(TempUnit::Celsius)
    }

    fn id() -> (r: UnitId) {
        UnitId::Temperature(TempUnit::Celsius)
    }
}

/// Marker for `TempUnit::Fahrenheit`.
#[derive(Clone, Copy, Debug)]
pub struct Fahrenheit;

impl Unit for Fahrenheit {
    open spec fn id_spec() -> UnitId {
        UnitId::Temperature(TempUnit::Fahrenheit)
    }

    fn id() -> (r: UnitId) {
        UnitId::Temperature(TempUnit::Fahrenheit)
    }
}

/// Marker for `MassUnit::Picogram`.
#[derive(Clone, Copy, Debug)]
pub struct Picogram;

impl Unit for Picogram {
    open spec fn id_spec() -> UnitId {
        UnitId::Mass(MassUnit::Picogram)
    }

    fn id() -> (r: UnitId) {
        UnitId::Mass(MassUnit::Picogram)
    }
}

/// Marker for `MassUnit::Nanogram`.
#[derive(Clone, Copy, Debug)]
pub struct Nanogram;

impl Unit for Nanogram {
    open spec fn id_spec() -> UnitId {
        UnitId::Mass(MassUnit::Nanogram)
    }

    fn id() -> (r: UnitId) {
        UnitId::Mass(MassUnit::Nanogram)
    }
}

/// Marker for `MassUnit::Microgram`.
#[derive(Clone, Copy, Debug)]
pub struct Microgram;

impl Unit for Microgram {
    open spec fn id_spec() -> UnitId {
        UnitId::Mass(MassUnit::Microgram)
    }

    fn id() -> (r: UnitId) {
        UnitId::Mass(MassUnit::Microgram)
    }
}

/// Marker for `MassUnit::Milligram`.
#[derive(Clone, Copy, Debug)]
pub struct Milligram;

impl Unit for Milligram {
    open spec fn id_spec() -> UnitId {
        UnitId::Mass(MassUnit::Milligram)
    }

    fn id() -> (r: UnitId) {
        UnitId::Mass(MassUnit::Milligram)
    }
}

/// Marker for `MassUnit::Gram`.
#[derive(Clone, Copy, Debug)]
pub struct Gram;

impl Unit for Gram {
    open spec fn id_spec() -> UnitId {
        UnitId::Mass(MassUnit::Gram)
    }

    fn id() -> (r: UnitId) {
        UnitId::Mass(MassUnit::Gram)
    }
}

/// Marker for `MassUnit::Kilogram`.
#[derive(Clone, Copy, Debug)]
pub struct Kilogram;

impl Unit for Kilogram {
    open spec fn id_spec() -> UnitId {
        UnitId::Mass(MassUnit::Kilogram)
    }

    fn id() -> (r: UnitId) {
        UnitId::Mass(MassUnit::Kilogram)
    }
}

/// Marker for `MassUnit::Tonne`.
#[derive(Clone, Copy, Debug)]
pub struct Tonne;

impl Unit for Tonne {
    open spec fn id_spec() -> UnitId {
        UnitId::Mass(MassUnit::Tonne)
    }

    fn id() -> (r: UnitId) {
        UnitId::Mass(MassUnit::Tonne)
    }
}

/// Marker for `MassUnit::Ounce`.
#[derive(Clone, Copy, Debug)]
pub struct Ounce;

impl Unit for Ounce {
    open spec fn id_spec() -> UnitId {
        UnitId::Mass(MassUnit::Ounce)
    }

    fn id() -> (r: UnitId) {
        UnitId::Mass(MassUnit::Ounce)
    }
}

/// Marker for `MassUnit::Pound`.
#[derive(Clone, Copy, Debug)]
pub struct Pound;

impl Unit for Pound {
    open spec fn id_spec() -> UnitId {
        UnitId::Mass(MassUnit::Pound)
    }

    fn id() -> (r: UnitId) {
        UnitId::Mass(MassUnit::Pound)
    }
}

/// Marker for `MassUnit::ShortTon`.
#[derive(Clone, Copy, Debug)]
pub struct ShortTon;

impl Unit for ShortTon {
    open spec fn id_spec() -> UnitId {
        UnitId::Mass(MassUnit::ShortTon)
    }

    fn id() -> (r: UnitId) {
        UnitId::Mass(MassUnit::ShortTon)
    }
}

/// Marker for `MassUnit::LongTon`.
#[derive(Clone, Copy, Debug)]
pub struct LongTon;

impl Unit for LongTon {
    open spec fn id_spec() -> UnitId {
        UnitId::Mass(MassUnit::LongTon)
    }

    fn id() -> (r: UnitId) {
        UnitId::Mass(MassUnit::LongTon)
    }
}

/// Marker for `CurrentUnit::Nanoampere`.
#[derive(Clone, Copy, Debug)]
pub struct Nanoampere;

impl Unit for Nanoampere {
    open spec fn id_spec() -> UnitId {
        UnitId::Current(CurrentUnit::Nanoampere)
    }

    fn id() -> (r: UnitId) {
        UnitId::Current(CurrentUnit::Nanoampere)
    }
}

/// Marker for `CurrentUnit::Microampere`.
#[derive(Clone, Copy, Debug)]
pub struct Microampere;

impl Unit for Microampere {
    open spec fn id_spec() -> UnitId {
        UnitId::Current(CurrentUnit::Microampere)
    }

    fn id() -> (r: UnitId) {
        UnitId::Current(CurrentUnit::Microampere)
    }
}

/// Marker for `CurrentUnit::Milliampere`.
#[derive(Clone, Copy, Debug)]
pub struct Milliampere;

impl Unit for Milliampere {
    open spec fn id_spec() -> UnitId {
        UnitId::Current(CurrentUnit::Milliampere)
    }

    fn id() -> (r: UnitId) {
        UnitId::Current(CurrentUnit::Milliampere)
    }
}

/// Marker for `CurrentUnit::Ampere`.
#[derive(Clone, Copy, Debug)]
pub struct Ampere;

impl Unit for Ampere {
    open spec fn id_spec() -> UnitId {
        UnitId::Current(CurrentUnit::Ampere)
    }

    fn id() -> (r: UnitId) {
        UnitId::Current(CurrentUnit::Ampere)
    }
}

/// Marker for `CurrentUnit::Kiloampere`.
#[derive(Clone, Copy, Debug)]
pub struct Kiloampere;

impl Unit for Kiloampere {
    open spec fn id_spec() -> UnitId {
        UnitId::Current(CurrentUnit::Kiloampere)
    }

    fn id() -> (r: UnitId) {
        UnitId::Current(CurrentUnit::Kiloampere)
    }
}

/// Marker for `LuminousIntensityUnit::Candela`.
#[derive(Clone, Copy, Debug)]
pub struct Candela;

impl Unit for Candela {
    open spec fn id_spec() -> UnitId {
        UnitId::LuminousIntensity(LuminousIntensityUnit::Candela)
    }

    fn id() -> (r: UnitId) {
        UnitId::LuminousIntensity(LuminousIntensityUnit::Candela)
    }
}

/// Marker for `LuminousIntensityUnit::CandlePower`.
#[derive(Clone, Copy, Debug)]
pub struct CandlePower;

impl Unit for CandlePower {
    open spec fn id_spec() -> UnitId {
        UnitId::LuminousIntensity(LuminousIntensityUnit::CandlePower)
    }

    fn id() -> (r: UnitId) {
        UnitId::LuminousIntensity(LuminousIntensityUnit::CandlePower)
    }
}

/// Marker for `LuminousIntensityUnit::HefnerLamp`.
#[derive(Clone, Copy, Debug)]
pub struct HefnerLamp;

impl Unit for HefnerLamp {
    open spec fn id_spec() -> UnitId {
        UnitId::LuminousIntensity(LuminousIntensityUnit::HefnerLamp)
    }

    fn id() -> (r: UnitId) {
        UnitId::LuminousIntensity(LuminousIntensityUnit::HefnerLamp)
    }
}

/// Marker for `QuantityUnit::Single`.
#[derive(Clone, Copy, Debug)]
pub struct Single;

impl Unit for Single {
    open spec fn id_spec() -> UnitId {
        UnitId::SubstanceQuantity(QuantityUnit::Single)
    }

    fn id() -> (r: UnitId) {
        UnitId::SubstanceQuantity(QuantityUnit::Single)
    }
}

/// Marker for `QuantityUnit::Mole`.
#[derive(Clone, Copy, Debug)]
pub struct Mole;

impl Unit for Mole {
    open spec fn id_spec() -> UnitId {
        UnitId::SubstanceQuantity(QuantityUnit::Mole)
    }

    fn id() -> (r: UnitId) {
        UnitId::SubstanceQuantity(QuantityUnit::Mole)
    }
}

/// Marker for `AngleUnit::Arcsecond`.
#[derive(Clone, Copy, Debug)]
pub struct Arcsecond;

impl Unit for Arcsecond {
    open spec fn id_spec() -> UnitId {
        UnitId::Angle(AngleUnit::Arcsecond)
    }

    fn id() -> (r: UnitId) {
        UnitId::Angle(AngleUnit::Arcsecond)
    }
}

/// Marker for `AngleUnit::Arcminute`.
#[derive(Clone, Copy, Debug)]
pub struct Arcminute;

impl Unit for Arcminute {
    open spec fn id_spec() -> UnitId {
        UnitId::Angle(AngleUnit::Arcminute)
    }

    fn id() -> (r: UnitId) {
        UnitId::Angle(AngleUnit::Arcminute)
    }
}

/// Marker for `AngleUnit::Degree`.
#[derive(Clone, Copy, Debug)]
pub struct Degree;

impl Unit for Degree {
    open spec fn id_spec() -> UnitId {
        UnitId::Angle(AngleUnit::Degree)
    }

    fn id() -> (r: UnitId) {
        UnitId::Angle(AngleUnit::Degree)
    }
}

/// Marker for `AngleUnit::MilliRadian`.
#[derive(Clone, Copy, Debug)]
pub struct MilliRadian;

impl Unit for MilliRadian {
    open spec fn id_spec() -> UnitId {
        UnitId::Angle(AngleUnit::MilliRadian)
    }

    fn id() -> (r: UnitId) {
        UnitId::Angle(AngleUnit::MilliRadian)
    }
}

/// Marker for `AngleUnit::Radian`.
#[derive(Clone, Copy, Debug)]
pub struct Radian;

impl Unit for Radian {
    open spec fn id_spec() -> UnitId {
        UnitId::Angle(AngleUnit::Radian)
    }

    fn id() -> (r: UnitId) {
        UnitId::Angle(AngleUnit::Radian)
    }
}

/// Marker for `AngleUnit::Gradian`.
#[derive(Clone, Copy, Debug)]
pub struct Gradian;

impl Unit for Gradian {
    open spec fn id_spec() -> UnitId {
        UnitId::Angle(AngleUnit::Gradian)
    }

    fn id() -> (r: UnitId) {
        UnitId::Angle(AngleUnit::Gradian)
    }
}

/// Marker for `SolidAngleUnit::SquareSecond`.
#[derive(Clone, Copy, Debug)]
pub struct SquareSecond;

impl Unit for SquareSecond {
    open spec fn id_spec() -> UnitId {
        UnitId::SolidAngle(SolidAngleUnit::SquareSecond)
    }

    fn id() -> (r: UnitId) {
        UnitId::SolidAngle(SolidAngleUnit::SquareSecond)
    }
}

/// Marker for `SolidAngleUnit::SquareMinute`.
#[derive(Clone, Copy, Debug)]
pub struct SquareMinute;

impl Unit for SquareMinute {
    open spec fn id_spec() -> UnitId {
        UnitId::SolidAngle(SolidAngleUnit::SquareMinute)
    }

    fn id() -> (r: UnitId) {
        UnitId::SolidAngle(SolidAngleUnit::SquareMinute)
    }
}

/// Marker for `SolidAngleUnit::SquareDegree`.
#[derive(Clone, Copy, Debug)]
pub struct SquareDegree;

impl Unit for SquareDegree {
    open spec fn id_spec() -> UnitId {
        UnitId::SolidAngle(SolidAngleUnit::SquareDegree)
    }

    fn id() -> (r: UnitId) {
        UnitId::SolidAngle(SolidAngleUnit::SquareDegree)
    }
}

/// Marker for `SolidAngleUnit::Steradian`.
#[derive(Clone, Copy, Debug)]
pub struct Steradian;

impl Unit for Steradian {
    open spec fn id_spec() -> UnitId {
        UnitId::SolidAngle(SolidAngleUnit::Steradian)
    }

    fn id() -> (r: UnitId) {
        UnitId::SolidAngle(SolidAngleUnit::Steradian)
    }
}

/// Marker for `DigitalInformationUnit::Bit`.
#[derive(Clone, Copy, Debug)]
pub struct Bit;

impl Unit for Bit {
    open spec fn id_spec() -> UnitId {
        UnitId::DigitalInformation(DigitalInformationUnit::Bit)
    }

    fn id() -> (r: UnitId) {
        UnitId::DigitalInformation(DigitalInformationUnit::Bit)
    }
}

/// Marker for `DigitalInformationUnit::Byte`.
#[derive(Clone, Copy, Debug)]
pub struct Byte;

impl Unit for Byte {
    open spec fn id_spec() -> UnitId {
        UnitId::DigitalInformation(DigitalInformationUnit::Byte)
    }

    fn id() -> (r: UnitId) {
        UnitId::DigitalInformation(DigitalInformationUnit::Byte)
    }
}

/// Marker for `DigitalInformationUnit::Kilobit`.
#[derive(Clone, Copy, Debug)]
pub struct Kilobit;

impl Unit for Kilobit {
    open spec fn id_spec() -> UnitId {
        UnitId::DigitalInformation(DigitalInformationUnit::Kilobit)
    }

    fn id() -> (r: UnitId) {
        UnitId::DigitalInformation(DigitalInformationUnit::Kilobit)
    }
}

/// Marker for `DigitalInformationUnit::Kibibit`.
#[derive(Clone, Copy, Debug)]
pub struct Kibibit;

impl Unit for Kibibit {
    open spec fn id_spec() -> UnitId {
        UnitId::DigitalInformation(DigitalInformationUnit::Kibibit)
    }

    fn id() -> (r: UnitId) {
        UnitId::DigitalInformation(DigitalInformationUnit::Kibibit)
    }
}

/// Marker for `DigitalInformationUnit::Kilobyte`.
#[derive(Clone, Copy, Debug)]
pub struct Kilobyte;

impl Unit for Kilobyte {
    open spec fn id_spec() -> UnitId {
        UnitId::DigitalInformation(DigitalInformationUnit::Kilobyte)
    }

    fn id() -> (r: UnitId) {
        UnitId::DigitalInformation(DigitalInformationUnit::Kilobyte)
    }
}

/// Marker for `DigitalInformationUnit::Kibibyte`.
#[derive(Clone, Copy, Debug)]
pub struct Kibibyte;

impl Unit for Kibibyte {
    open spec fn id_spec() -> UnitId {
        UnitId::DigitalInformation(DigitalInformationUnit::Kibibyte)
    }

    fn id() -> (r: UnitId) {
        UnitId::DigitalInformation(DigitalInformationUnit::Kibibyte)
    }
}

/// Marker for `DigitalInformationUnit::Megabit`.
#[derive(Clone, Copy, Debug)]
pub struct Megabit;

impl Unit for Megabit {
    open spec fn id_spec() -> UnitId {
        UnitId::DigitalInformation(DigitalInformationUnit::Megabit)
    }

    fn id() -> (r: UnitId) {
        UnitId::DigitalInformation(DigitalInformationUnit::Megabit)
    }
}

/// Marker for `DigitalInformationUnit::Mebibit`.
#[derive(Clone, Copy, Debug)]
pub struct Mebibit;

impl Unit for Mebibit {
    open spec fn id_spec() -> UnitId {
        UnitId::DigitalInformation(DigitalInformationUnit::Mebibit)
    }

    fn id() -> (r: UnitId) {
        UnitId::DigitalInformation(DigitalInformationUnit::Mebibit)
    }
}

/// Marker for `DigitalInformationUnit::Megabyte`.
#[derive(Clone, Copy, Debug)]
pub struct Megabyte;

impl Unit for Megabyte {
    open spec fn id_spec() -> UnitId {
        UnitId::DigitalInformation(DigitalInformationUnit::Megabyte)
    }

    fn id() -> (r: UnitId) {
        UnitId::DigitalInformation(DigitalInformationUnit::Megabyte)
    }
}

/// Marker for `DigitalInformationUnit::Mebibyte`.
#[derive(Clone, Copy, Debug)]
pub struct Mebibyte;

impl Unit for Mebibyte {
    open spec fn id_spec() -> UnitId {
        UnitId::DigitalInformation(DigitalInformationUnit::Mebibyte)
    }

    fn id() -> (r: UnitId) {
        UnitId::DigitalInformation(DigitalInformationUnit::Mebibyte)
    }
}

/// Marker for `DigitalInformationUnit::Gigabit`.
#[derive(Clone, Copy, Debug)]
pub struct Gigabit;

impl Unit for Gigabit {
    open spec fn id_spec() -> UnitId {
        UnitId::DigitalInformation(DigitalInformationUnit::Gigabit)
    }

    fn id() -> (r: UnitId) {
        UnitId::DigitalInformation(DigitalInformationUnit::Gigabit)
    }
}

/// Marker for `DigitalInformationUnit::Gibibit`.
#[derive(Clone, Copy, Debug)]
pub struct Gibibit;

impl Unit for Gibibit {
    open spec fn id_spec() -> UnitId {
        UnitId::DigitalInformation(DigitalInformationUnit::Gibibit)
    }

    fn id() -> (r: UnitId) {
        UnitId::DigitalInformation(DigitalInformationUnit::Gibibit)
    }
}

/// Marker for `DigitalInformationUnit::Gigabyte`.
#[derive(Clone, Copy, Debug)]
pub struct Gigabyte;

impl Unit for Gigabyte {
    open spec fn id_spec() -> UnitId {
        UnitId::DigitalInformation(DigitalInformationUnit::Gigabyte)
    }

    fn id() -> (r: UnitId) {
        UnitId::DigitalInformation(DigitalInformationUnit::Gigabyte)
    }
}

/// Marker for `DigitalInformationUnit::Gibibyte`.
#[derive(Clone, Copy, Debug)]
pub struct Gibibyte;

impl Unit for Gibibyte {
    open spec fn id_spec() -> UnitId {
        UnitId::DigitalInformation(DigitalInformationUnit::Gibibyte)
    }

    fn id() -> (r: UnitId) {
        UnitId::DigitalInformation(DigitalInformationUnit::Gibibyte)
    }
}

/// Marker for `DigitalInformationUnit::Terabit`.
#[derive(Clone, Copy, Debug)]
pub struct Terabit;

impl Unit for Terabit {
    open spec fn id_spec() -> UnitId {
        UnitId::DigitalInformation(DigitalInformationUnit::Terabit)
    }

    fn id() -> (r: UnitId) {
        UnitId::DigitalInformation(DigitalInformationUnit::Terabit)
    }
}

/// Marker for `DigitalInformationUnit::Tebibit`.
#[derive(Clone, Copy, Debug)]
pub struct Tebibit;

impl Unit for Tebibit {
    open spec fn id_spec() -> UnitId {
        UnitId::DigitalInformation(DigitalInformationUnit::Tebibit)
    }

    fn id() -> (r: UnitId) {
        UnitId::DigitalInformation(DigitalInformationUnit::Tebibit)
    }
}

/// Marker for `DigitalInformationUnit::Terabyte`.
#[derive(Clone, Copy, Debug)]
pub struct Terabyte;

impl Unit for Terabyte {
    open spec fn id_spec() -> UnitId {
        UnitId::DigitalInformation(DigitalInformationUnit::Terabyte)
    }

    fn id() -> (r: UnitId) {
        UnitId::DigitalInformation(DigitalInformationUnit::Terabyte)
    }
}

/// Marker for `DigitalInformationUnit::Tebibyte`.
#[derive(Clone, Copy, Debug)]
pub struct Tebibyte;

impl Unit for Tebibyte {
    open spec fn id_spec() -> UnitId {
        UnitId::DigitalInformation(DigitalInformationUnit::Tebibyte)
    }

    fn id() -> (r: UnitId) {
        UnitId::DigitalInformation(DigitalInformationUnit::Tebibyte)
    }
}

/// Marker for `DigitalInformationUnit::Petabit`.
#[derive(Clone, Copy, Debug)]
pub struct Petabit;

impl Unit for Petabit {
    open spec fn id_spec() -> UnitId {
        UnitId::DigitalInformation(DigitalInformationUnit::Petabit)
    }

    fn id() -> (r: UnitId) {
        UnitId::DigitalInformation(DigitalInformationUnit::Petabit)
    }
}

/// Marker for `DigitalInformationUnit::Pebibit`.
#[derive(Clone, Copy, Debug)]
pub struct Pebibit;

impl Unit for Pebibit {
    open spec fn id_spec() -> UnitId {
        UnitId::DigitalInformation(DigitalInformationUnit::Pebibit)
    }

    fn id() -> (r: UnitId) {
        UnitId::DigitalInformation(DigitalInformationUnit::Pebibit)
    }
}

/// Marker for `DigitalInformationUnit::Petabyte`.
#[derive(Clone, Copy, Debug)]
pub struct Petabyte;

impl Unit for Petabyte {
    open spec fn id_spec() -> UnitId {
        UnitId::DigitalInformation(DigitalInformationUnit::Petabyte)
    }

    fn id() -> (r: UnitId) {
        UnitId::DigitalInformation(DigitalInformationUnit::Petabyte)
    }
}

/// Marker for `DigitalInformationUnit::Pebibyte`.
#[derive(Clone, Copy, Debug)]
pub struct Pebibyte;

impl Unit for Pebibyte {
    open spec fn id_spec() -> UnitId {
        UnitId::DigitalInformation(DigitalInformationUnit::Pebibyte)
    }

    fn id() -> (r: UnitId) {
        UnitId::DigitalInformation(DigitalInformationUnit::Pebibyte)
    }
}

/// Marker for `DigitalInformationUnit::Exabit`.
#[derive(Clone, Copy, Debug)]
pub struct Exabit;

impl Unit for Exabit {
    open spec fn id_spec() -> UnitId {
        UnitId::DigitalInformation(DigitalInformationUnit::Exabit)
    }

    fn id() -> (r: UnitId) {
        UnitId::DigitalInformation(DigitalInformationUnit::Exabit)
    }
}

/// Marker for `DigitalInformationUnit::Exbibit`.
#[derive(Clone, Copy, Debug)]
pub struct Exbibit;

impl Unit for Exbibit {
    open spec fn id_spec() -> UnitId {
        UnitId::DigitalInformation(DigitalInformationUnit::Exbibit)
    }

    fn id() -> (r: UnitId) {
        UnitId::DigitalInformation(DigitalInformationUnit::Exbibit)
    }
}

/// Marker for `DigitalInformationUnit::Exabyte`.
#[derive(Clone, Copy, Debug)]
pub struct Exabyte;

impl Unit for Exabyte {
    open spec fn id_spec() -> UnitId {
        UnitId::DigitalInformation(DigitalInformationUnit::Exabyte)
    }

    fn id() -> (r: UnitId) {
        UnitId::DigitalInformation(DigitalInformationUnit::Exabyte)
    }
}

/// Marker for `DigitalInformationUnit::Exbibyte`.
#[derive(Clone, Copy, Debug)]
pub struct Exbibyte;

impl Unit for Exbibyte {
    open spec fn id_spec() -> UnitId {
        UnitId::DigitalInformation(DigitalInformationUnit::Exbibyte)
    }

    fn id() -> (r: UnitId) {
        UnitId::DigitalInformation(DigitalInformationUnit::Exbibyte)
    }
}

} // verus!
