//! The unit catalog: the ten base dimensions, the units of each, their display
//! symbols and the base unit that each dimension converts through.
use vstd::prelude::*;

verus! {

/// One of the ten base dimensions, in the order of a dimension vector's slots.
#[derive(Clone, Copy, Debug, PartialEq, Eq, Structural)]
pub enum Dimension {
    Length,
    Time,
    Temperature,
    Mass,
    Current,
    LuminousIntensity,
    SubstanceQuantity,
    Angle,
    SolidAngle,
    DigitalInformation,
}

/// Number of base dimensions, the length of every dimension vector.
pub const DIMENSIONS: usize = 10;

impl Dimension {
    /// The slot of this dimension in a dimension vector.
    pub open spec fn index_spec(self) -> usize {
        match self {
            Dimension::Length => 0,
            Dimension::Time => 1,
            Dimension::Temperature => 2,
            Dimension::Mass => 3,
            Dimension::Current => 4,
            Dimension::LuminousIntensity => 5,
            Dimension::SubstanceQuantity => 6,
            Dimension::Angle => 7,
            Dimension::SolidAngle => 8,
            Dimension::DigitalInformation => 9,
        }
    }

    /// The dimension of slot `i`.
    pub open spec fn at_spec(i: int) -> Dimension {
        if i == 0 {
            Dimension::Length
        } else if i == 1 {
            Dimension::Time
        } else if i == 2 {
            Dimension::Temperature
        } else if i == 3 {
            Dimension::Mass
        } else if i == 4 {
            Dimension::Current
        } else if i == 5 {
            Dimension::LuminousIntensity
        } else if i == 6 {
            Dimension::SubstanceQuantity
        } else if i == 7 {
            Dimension::Angle
        } else if i == 8 {
            Dimension::SolidAngle
        } else {
            Dimension::DigitalInformation
        }
    }

    #[verifier::when_used_as_spec(index_spec)]
    pub fn index(self) -> (r: usize)
        ensures
            r == self.index_spec(),
            r < DIMENSIONS,
    {
        match self {
            Dimension::Length => 0,
            Dimension::Time => 1,
            Dimension::Temperature => 2,
            Dimension::Mass => 3,
            Dimension::Current => 4,
            Dimension::LuminousIntensity => 5,
            Dimension::SubstanceQuantity => 6,
            Dimension::Angle => 7,
            Dimension::SolidAngle => 8,
            Dimension::DigitalInformation => 9,
        }
    }

    /// The dimension of slot `i`.
    pub fn at(i: usize) -> (r: Dimension)
        requires
            i < DIMENSIONS,
        ensures
            r == Dimension::at_spec(i as int),
            r.index_spec() == i,
    {
        if i == 0 {
            Dimension::Length
        } else if i == 1 {
            Dimension::Time
        } else if i == 2 {
            Dimension::Temperature
        } else if i == 3 {
            Dimension::Mass
        } else if i == 4 {
            Dimension::Current
        } else if i == 5 {
            Dimension::LuminousIntensity
        } else if i == 6 {
            Dimension::SubstanceQuantity
        } else if i == 7 {
            Dimension::Angle
        } else if i == 8 {
            Dimension::SolidAngle
        } else {
            Dimension::DigitalInformation
        }
    }

    /// The unit with multiplier one, through which this dimension converts.
    pub open spec fn base_unit_spec(self) -> UnitId {
        match self {
            Dimension::Length => UnitId::Length(LengthUnit::Meter),
            Dimension::Time => UnitId::Time(TimeUnit::Second),
            Dimension::Temperature => UnitId::Temperature(TempUnit::Kelvin),
            Dimension::Mass => UnitId::Mass(MassUnit::Kilogram),
            Dimension::Current => UnitId::Current(CurrentUnit::Ampere),
            Dimension::LuminousIntensity => UnitId::LuminousIntensity(LuminousIntensityUnit::Candela),
            Dimension::SubstanceQuantity => UnitId::SubstanceQuantity(QuantityUnit::Single),
            Dimension::Angle => UnitId::Angle(AngleUnit::Radian),
            Dimension::SolidAngle => UnitId::SolidAngle(SolidAngleUnit::Steradian),
            Dimension::DigitalInformation => UnitId::DigitalInformation(DigitalInformationUnit::Bit),
        }
    }

    #[verifier::when_used_as_spec(base_unit_spec)]
    pub fn base_unit(self) -> (r: UnitId)
        ensures
            r == self.base_unit_spec(),
            r.dimension() == self,
    {
        match self {
            Dimension::Length => UnitId::Length(LengthUnit::Meter),
            Dimension::Time => UnitId::Time(TimeUnit::Second),
            Dimension::Temperature => UnitId::Temperature(TempUnit::Kelvin),
            Dimension::Mass => UnitId::Mass(MassUnit::Kilogram),
            Dimension::Current => UnitId::Current(CurrentUnit::Ampere),
            Dimension::LuminousIntensity => UnitId::LuminousIntensity(LuminousIntensityUnit::Candela),
            Dimension::SubstanceQuantity => UnitId::SubstanceQuantity(QuantityUnit::Single),
            Dimension::Angle => UnitId::Angle(AngleUnit::Radian),
            Dimension::SolidAngle => UnitId::SolidAngle(SolidAngleUnit::Steradian),
            Dimension::DigitalInformation => UnitId::DigitalInformation(DigitalInformationUnit::Bit),
        }
    }
}

/// A unit of length.
#[derive(Clone, Copy, Debug, PartialEq, Eq, Structural)]
pub enum LengthUnit {
    Picometer,
    Nanometer,
    Micrometer,
    Millimeter,
    Centimeter,
    Decimeter,
    Meter,
    Kilometer,
    AstronomicalUnit,
    Lightyear,
    Parsec,
    Inch,
    Foot,
    Yard,
    Mile,
}

/// A unit of time.
#[derive(Clone, Copy, Debug, PartialEq, Eq, Structural)]
pub enum TimeUnit {
    Picosecond,
    Nanosecond,
    Microsecond,
    Millisecond,
    Second,
    Minute,
    Hour,
    Day,
    Month,
    Year,
    AgeOfUniverse,
}

/// A unit of temperature.
#[derive(Clone, Copy, Debug, PartialEq, Eq, Structural)]
pub enum TempUnit {
    Kelvin,
    Celsius,
    Fahrenheit,
}

/// A unit of mass.
#[derive(Clone, Copy, Debug, PartialEq, Eq, Structural)]
pub enum MassUnit {
    Picogram,
    Nanogram,
    Microgram,
    Milligram,
    Gram,
    Kilogram,
    Tonne,
    Ounce,
    Pound,
    ShortTon,
    LongTon,
}

/// A unit of electric current.
#[derive(Clone, Copy, Debug, PartialEq, Eq, Structural)]
pub enum CurrentUnit {
    Nanoampere,
    Microampere,
    Milliampere,
    Ampere,
    Kiloampere,
}

/// A unit of luminous intensity.
#[derive(Clone, Copy, Debug, PartialEq, Eq, Structural)]
pub enum LuminousIntensityUnit {
    Candela,
    CandlePower,
    HefnerLamp,
}

/// A unit of amount of substance.
#[derive(Clone, Copy, Debug, PartialEq, Eq, Structural)]
pub enum QuantityUnit {
    Single,
    Mole,
}

/// A unit of plane angle.
#[derive(Clone, Copy, Debug, PartialEq, Eq, Structural)]
pub enum AngleUnit {
    Arcsecond,
    Arcminute,
    Degree,
    MilliRadian,
    Radian,
    Gradian,
}

/// A unit of solid angle.
#[derive(Clone, Copy, Debug, PartialEq, Eq, Structural)]
pub enum SolidAngleUnit {
    SquareSecond,
    SquareMinute,
    SquareDegree,
    Steradian,
}

/// A unit of digital information.
#[derive(Clone, Copy, Debug, PartialEq, Eq, Structural)]
pub enum DigitalInformationUnit {
    Bit,
    Byte,
    Kilobit,
    Kibibit,
    Kilobyte,
    Kibibyte,
    Megabit,
    Mebibit,
    Megabyte,
    Mebibyte,
    Gigabit,
    Gibibit,
    Gigabyte,
    Gibibyte,
    Terabit,
    Tebibit,
    Terabyte,
    Tebibyte,
    Petabit,
    Pebibit,
    Petabyte,
    Pebibyte,
    Exabit,
    Exbibit,
    Exabyte,
    Exbibyte,
}

/// A concrete unit, tagged with its dimension.
#[derive(Clone, Copy, Debug, PartialEq, Eq, Structural)]
pub enum UnitId {
    Length(LengthUnit),
    Time(TimeUnit),
    Temperature(TempUnit),
    Mass(MassUnit),
    Current(CurrentUnit),
    LuminousIntensity(LuminousIntensityUnit),
    SubstanceQuantity(QuantityUnit),
    Angle(AngleUnit),
    SolidAngle(SolidAngleUnit),
    DigitalInformation(DigitalInformationUnit),
}

/// The display symbol of a unit.
pub open spec fn symbol_of(u: UnitId) -> Seq<char> {
    match u {
        UnitId::Length(LengthUnit::Picometer) => "pm"@,
        UnitId::Length(LengthUnit::Nanometer) => "nm"@,
        UnitId::Length(LengthUnit::Micrometer) => "μm"@,
        UnitId::Length(LengthUnit::Millimeter) => "mm"@,
        UnitId::Length(LengthUnit::Centimeter) => "cm"@,
        UnitId::Length(LengthUnit::Decimeter) => "dm"@,
        UnitId::Length(LengthUnit::Meter) => "m"@,
        UnitId::Length(LengthUnit::Kilometer) => "km"@,
        UnitId::Length(LengthUnit::AstronomicalUnit) => "au"@,
        UnitId::Length(LengthUnit::Lightyear) => "ly"@,
        UnitId::Length(LengthUnit::Parsec) => "pc"@,
        UnitId::Length(LengthUnit::Inch) => "in"@,
        UnitId::Length(LengthUnit::Foot) => "ft"@,
        UnitId::Length(LengthUnit::Yard) => "yd"@,
        UnitId::Length(LengthUnit::Mile) => "mi"@,
        UnitId::Time(TimeUnit::Picosecond) => "ps"@,
        UnitId::Time(TimeUnit::Nanosecond) => "ns"@,
        UnitId::Time(TimeUnit::Microsecond) => "μs"@,
        UnitId::Time(TimeUnit::Millisecond) => "ms"@,
        UnitId::Time(TimeUnit::Second) => "s"@,
        UnitId::Time(TimeUnit::Minute) => "min"@,
        UnitId::Time(TimeUnit::Hour) => "hr"@,
        UnitId::Time(TimeUnit::Day) => "day"@,
        UnitId::Time(TimeUnit::Month) => "month"@,
        UnitId::Time(TimeUnit::Year) => "yr"@,
        UnitId::Time(TimeUnit::AgeOfUniverse) => "AgeOfUniverse"@,
        UnitId::Temperature(TempUnit::Kelvin) => "K"@,
        UnitId::Temperature(TempUnit::Celsius) => "°C"@,
        UnitId::Temperature(TempUnit::Fahrenheit) => "°F"@,
        UnitId::Mass(MassUnit::Picogram) => "pg"@,
        UnitId::Mass(MassUnit::Nanogram) => "ng"@,
        UnitId::Mass(MassUnit::Microgram) => "μg"@,
        UnitId::Mass(MassUnit::Milligram) => "mg"@,
        UnitId::Mass(MassUnit::Gram) => "g"@,
        UnitId::Mass(MassUnit::Kilogram) => "kg"@,
        UnitId::Mass(MassUnit::Tonne) => "t"@,
        UnitId::Mass(MassUnit::Ounce) => "oz"@,
        UnitId::Mass(MassUnit::Pound) => "lb"@,
        UnitId::Mass(MassUnit::ShortTon) => "shortton"@,
        UnitId::Mass(MassUnit::LongTon) => "longton"@,
        UnitId::Current(CurrentUnit::Nanoampere) => "nA"@,
        UnitId::Current(CurrentUnit::Microampere) => "μA"@,
        UnitId::Current(CurrentUnit::Milliampere) => "mA"@,
        UnitId::Current(CurrentUnit::Ampere) => "A"@,
        UnitId::Current(CurrentUnit::Kiloampere) => "kA"@,
        UnitId::LuminousIntensity(LuminousIntensityUnit::Candela) => "cd"@,
        UnitId::LuminousIntensity(LuminousIntensityUnit::CandlePower) => "cp"@,
        UnitId::LuminousIntensity(LuminousIntensityUnit::HefnerLamp) => "HK"@,
        UnitId::SubstanceQuantity(QuantityUnit::Single) => ""@,
        UnitId::SubstanceQuantity(QuantityUnit::Mole) => "mol"@,
        UnitId::Angle(AngleUnit::Arcsecond) => "″"@,
        UnitId::Angle(AngleUnit::Arcminute) => "′"@,
        UnitId::Angle(AngleUnit::Degree) => "°"@,
        UnitId::Angle(AngleUnit::MilliRadian) => "mrad"@,
        UnitId::Angle(AngleUnit::Radian) => "rad"@,
        UnitId::Angle(AngleUnit::Gradian) => "grad"@,
        UnitId::SolidAngle(SolidAngleUnit::SquareSecond) => "arcsec²"@,
        UnitId::SolidAngle(SolidAngleUnit::SquareMinute) => "arcmin²"@,
        UnitId::SolidAngle(SolidAngleUnit::SquareDegree) => "deg²"@,
        UnitId::SolidAngle(SolidAngleUnit::Steradian) => "sr"@,
        UnitId::DigitalInformation(DigitalInformationUnit::Bit) => "bit"@,
        UnitId::DigitalInformation(DigitalInformationUnit::Byte) => "B"@,
        UnitId::DigitalInformation(DigitalInformationUnit::Kilobit) => "Kb"@,
        UnitId::DigitalInformation(DigitalInformationUnit::Kibibit) => "Kib"@,
        UnitId::DigitalInformation(DigitalInformationUnit::Kilobyte) => "KB"@,
        UnitId::DigitalInformation(DigitalInformationUnit::Kibibyte) => "KiB"@,
        UnitId::DigitalInformation(DigitalInformationUnit::Megabit) => "Mb"@,
        UnitId::DigitalInformation(DigitalInformationUnit::Mebibit) => "Mib"@,
        UnitId::DigitalInformation(DigitalInformationUnit::Megabyte) => "MB"@,
        UnitId::DigitalInformation(DigitalInformationUnit::Mebibyte) => "MiB"@,
        UnitId::DigitalInformation(DigitalInformationUnit::Gigabit) => "Gb"@,
        UnitId::DigitalInformation(DigitalInformationUnit::Gibibit) => "Gib"@,
        UnitId::DigitalInformation(DigitalInformationUnit::Gigabyte) => "GB"@,
        UnitId::DigitalInformation(DigitalInformationUnit::Gibibyte) => "GiB"@,
        UnitId::DigitalInformation(DigitalInformationUnit::Terabit) => "Tb"@,
        UnitId::DigitalInformation(DigitalInformationUnit::Tebibit) => "Tib"@,
        UnitId::DigitalInformation(DigitalInformationUnit::Terabyte) => "TB"@,
        UnitId::DigitalInformation(DigitalInformationUnit::Tebibyte) => "TiB"@,
        UnitId::DigitalInformation(DigitalInformationUnit::Petabit) => "Pb"@,
        UnitId::DigitalInformation(DigitalInformationUnit::Pebibit) => "Pib"@,
        UnitId::DigitalInformation(DigitalInformationUnit::Petabyte) => "PB"@,
        UnitId::DigitalInformation(DigitalInformationUnit::Pebibyte) => "PiB"@,
        UnitId::DigitalInformation(DigitalInformationUnit::Exabit) => "Eb"@,
        UnitId::DigitalInformation(DigitalInformationUnit::Exbibit) => "Eib"@,
        UnitId::DigitalInformation(DigitalInformationUnit::Exabyte) => "EB"@,
        UnitId::DigitalInformation(DigitalInformationUnit::Exbibyte) => "EiB"@,
    }
}

impl UnitId {
    /// The dimension this unit measures.
    pub open spec fn dimension_spec(self) -> Dimension {
        match self {
            UnitId::Length(_) => Dimension::Length,
            UnitId::Time(_) => Dimension::Time,
            UnitId::Temperature(_) => Dimension::Temperature,
            UnitId::Mass(_) => Dimension::Mass,
            UnitId::Current(_) => Dimension::Current,
            UnitId::LuminousIntensity(_) => Dimension::LuminousIntensity,
            UnitId::SubstanceQuantity(_) => Dimension::SubstanceQuantity,
            UnitId::Angle(_) => Dimension::Angle,
            UnitId::SolidAngle(_) => Dimension::SolidAngle,
            UnitId::DigitalInformation(_) => Dimension::DigitalInformation,
        }
    }

    #[verifier::when_used_as_spec(dimension_spec)]
    pub fn dimension(self) -> (r: Dimension)
        ensures
            r == self.dimension_spec(),
    {
        match self {
            UnitId::Length(_) => Dimension::Length,
            UnitId::Time(_) => Dimension::Time,
            UnitId::Temperature(_) => Dimension::Temperature,
            UnitId::Mass(_) => Dimension::Mass,
            UnitId::Current(_) => Dimension::Current,
            UnitId::LuminousIntensity(_) => Dimension::LuminousIntensity,
            UnitId::SubstanceQuantity(_) => Dimension::SubstanceQuantity,
            UnitId::Angle(_) => Dimension::Angle,
            UnitId::SolidAngle(_) => Dimension::SolidAngle,
            UnitId::DigitalInformation(_) => Dimension::DigitalInformation,
        }
    }

    /// The symbol a caller renders after the magnitude.
    pub fn symbol(self) -> (r: &'static str)
        ensures
            r@ == symbol_of(self),
    {
        match self {
            UnitId::Length(LengthUnit::Picometer) => "pm",
            UnitId::Length(LengthUnit::Nanometer) => "nm",
            UnitId::Length(LengthUnit::Micrometer) => "μm",
            UnitId::Length(LengthUnit::Millimeter) => "mm",
            UnitId::Length(LengthUnit::Centimeter) => "cm",
            UnitId::Length(LengthUnit::Decimeter) => "dm",
            UnitId::Length(LengthUnit::Meter) => "m",
            UnitId::Length(LengthUnit::Kilometer) => "km",
            UnitId::Length(LengthUnit::AstronomicalUnit) => "au",
            UnitId::Length(LengthUnit::Lightyear) => "ly",
            UnitId::Length(LengthUnit::Parsec) => "pc",
            UnitId::Length(LengthUnit::Inch) => "in",
            UnitId::Length(LengthUnit::Foot) => "ft",
            UnitId::Length(LengthUnit::Yard) => "yd",
            UnitId::Length(LengthUnit::Mile) => "mi",
            UnitId::Time(TimeUnit::Picosecond) => "ps",
            UnitId::Time(TimeUnit::Nanosecond) => "ns",
            UnitId::Time(TimeUnit::Microsecond) => "μs",
            UnitId::Time(TimeUnit::Millisecond) => "ms",
            UnitId::Time(TimeUnit::Second) => "s",
            UnitId::Time(TimeUnit::Minute) => "min",
            UnitId::Time(TimeUnit::Hour) => "hr",
            UnitId::Time(TimeUnit::Day) => "day",
            UnitId::Time(TimeUnit::Month) => "month",
            UnitId::Time(TimeUnit::Year) => "yr",
            UnitId::Time(TimeUnit::AgeOfUniverse) => "AgeOfUniverse",
            UnitId::Temperature(TempUnit::Kelvin) => "K",
            UnitId::Temperature(TempUnit::Celsius) => "°C",
            UnitId::Temperature(TempUnit::Fahrenheit) => "°F",
            UnitId::Mass(MassUnit::Picogram) => "pg",
            UnitId::Mass(MassUnit::Nanogram) => "ng",
            UnitId::Mass(MassUnit::Microgram) => "μg",
            UnitId::Mass(MassUnit::Milligram) => "mg",
            UnitId::Mass(MassUnit::Gram) => "g",
            UnitId::Mass(MassUnit::Kilogram) => "kg",
            UnitId::Mass(MassUnit::Tonne) => "t",
            UnitId::Mass(MassUnit::Ounce) => "oz",
            UnitId::Mass(MassUnit::Pound) => "lb",
            UnitId::Mass(MassUnit::ShortTon) => "shortton",
            UnitId::Mass(MassUnit::LongTon) => "longton",
            UnitId::Current(CurrentUnit::Nanoampere) => "nA",
            UnitId::Current(CurrentUnit::Microampere) => "μA",
            UnitId::Current(CurrentUnit::Milliampere) => "mA",
            UnitId::Current(CurrentUnit::Ampere) => "A",
            UnitId::Current(CurrentUnit::Kiloampere) => "kA",
            UnitId::LuminousIntensity(LuminousIntensityUnit::Candela) => "cd",
            UnitId::LuminousIntensity(LuminousIntensityUnit::CandlePower) => "cp",
            UnitId::LuminousIntensity(LuminousIntensityUnit::HefnerLamp) => "HK",
            UnitId::SubstanceQuantity(QuantityUnit::Single) => "",
            UnitId::SubstanceQuantity(QuantityUnit::Mole) => "mol",
            UnitId::Angle(AngleUnit::Arcsecond) => "″",
            UnitId::Angle(AngleUnit::Arcminute) => "′",
            UnitId::Angle(AngleUnit::Degree) => "°",
            UnitId::Angle(AngleUnit::MilliRadian) => "mrad",
            UnitId::Angle(AngleUnit::Radian) => "rad",
            UnitId::Angle(AngleUnit::Gradian) => "grad",
            UnitId::SolidAngle(SolidAngleUnit::SquareSecond) => "arcsec²",
            UnitId::SolidAngle(SolidAngleUnit::SquareMinute) => "arcmin²",
            UnitId::SolidAngle(SolidAngleUnit::SquareDegree) => "deg²",
            UnitId::SolidAngle(SolidAngleUnit::Steradian) => "sr",
            UnitId::DigitalInformation(DigitalInformationUnit::Bit) => "bit",
            UnitId::DigitalInformation(DigitalInformationUnit::Byte) => "B",
            UnitId::DigitalInformation(DigitalInformationUnit::Kilobit) => "Kb",
            UnitId::DigitalInformation(DigitalInformationUnit::Kibibit) => "Kib",
            UnitId::DigitalInformation(DigitalInformationUnit::Kilobyte) => "KB",
            UnitId::DigitalInformation(DigitalInformationUnit::Kibibyte) => "KiB",
            UnitId::DigitalInformation(DigitalInformationUnit::Megabit) => "Mb",
            UnitId::DigitalInformation(DigitalInformationUnit::Mebibit) => "Mib",
            UnitId::DigitalInformation(DigitalInformationUnit::Megabyte) => "MB",
            UnitId::DigitalInformation(DigitalInformationUnit::Mebibyte) => "MiB",
            UnitId::DigitalInformation(DigitalInformationUnit::Gigabit) => "Gb",
            UnitId::DigitalInformation(DigitalInformationUnit::Gibibit) => "Gib",
            UnitId::DigitalInformation(DigitalInformationUnit::Gigabyte) => "GB",
            UnitId::DigitalInformation(DigitalInformationUnit::Gibibyte) => "GiB",
            UnitId::DigitalInformation(DigitalInformationUnit::Terabit) => "Tb",
            UnitId::DigitalInformation(DigitalInformationUnit::Tebibit) => "Tib",
            UnitId::DigitalInformation(DigitalInformationUnit::Terabyte) => "TB",
            UnitId::DigitalInformation(DigitalInformationUnit::Tebibyte) => "TiB",
            UnitId::DigitalInformation(DigitalInformationUnit::Petabit) => "Pb",
            UnitId::DigitalInformation(DigitalInformationUnit::Pebibit) => "Pib",
            UnitId::DigitalInformation(DigitalInformationUnit::Petabyte) => "PB",
            UnitId::DigitalInformation(DigitalInformationUnit::Pebibyte) => "PiB",
            UnitId::DigitalInformation(DigitalInformationUnit::Exabit) => "Eb",
            UnitId::DigitalInformation(DigitalInformationUnit::Exbibit) => "Eib",
            UnitId::DigitalInformation(DigitalInformationUnit::Exabyte) => "EB",
            UnitId::DigitalInformation(DigitalInformationUnit::Exbibyte) => "EiB",
        }
    }

    /// Whether this is the base unit of its dimension.
    pub fn is_base(self) -> (r: bool)
        ensures
            r == (self == self.dimension().base_unit()),
    {
        self == self.dimension().base_unit()
    }
}

} // verus!
