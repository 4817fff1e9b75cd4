//! Dimensional analysis over runtime tags: bounded exponents, dimension vectors,
//! the rule that combines two vectors under multiplication or division, and the
//! resolver that names the kind of a combined vector.

pub mod combine;
pub mod exponent;
pub mod markers;
pub mod resolve;
pub mod units;
pub mod vector;

pub use combine::{combine, combine_power, Operation};
pub use exponent::{
    Exponent, Five, Four, Invalid, NegFive, NegFour, NegOne, NegThree, NegTwo, Number, One,
    Three, Two, Zero,
};
pub use markers::Unit;
pub use resolve::{divide, multiply, overflowed, resolve, Kind, Resolved};
pub use units::{
    AngleUnit, CurrentUnit, DigitalInformationUnit, Dimension, LengthUnit, LuminousIntensityUnit,
    MassUnit, QuantityUnit, SolidAngleUnit, TempUnit, TimeUnit, UnitId, DIMENSIONS,
};
pub use vector::{check_convert, DimensionError, DimensionVector, Power, UnitSlot};

