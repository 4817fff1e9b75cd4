//! Dimension vectors: one exponent and one unit slot per base dimension.
use vstd::prelude::*;

use crate::exponent::Exponent;
use crate::markers::Unit;
use crate::units::{Dimension, UnitId, DIMENSIONS};

verus! {

/// What can go wrong when quantities are built, compared, combined or resolved.
#[derive(Clone, Copy, Debug, PartialEq, Eq, Structural)]
pub enum DimensionError {
    /// A unit that is not registered for the dimension, or the unconstrained placeholder.
    UnregisteredUnit,
    /// Operands of different dimensions or units where they must agree.
    DimensionMismatch,
    /// Both operands carry the same dimension with different units.
    UnitConflict,
    /// An exponent left `[-5, 5]`.
    ExponentOverflow,
}

/// The unit of one slot: a concrete unit, or none where the exponent is zero.
#[derive(Clone, Copy, Debug, PartialEq, Eq, Structural)]
pub enum UnitSlot {
    Unconstrained,
    Unit(UnitId),
}

impl UnitSlot {
    /// The concrete unit of this slot, provided it is registered for dimension `d`;
    /// the placeholder and units of other dimensions fail with `UnregisteredUnit`.
    pub fn registered_in(self, d: Dimension) -> (r: Result<UnitId, DimensionError>)
        ensures
            match r {
                Ok(u) => self == UnitSlot::Unit(u) && u.dimension() == d,
                Err(e) => e == DimensionError::UnregisteredUnit && !(self matches UnitSlot::Unit(
                    u,
                ) && u.dimension() == d),
            },
    {
        match self {
            UnitSlot::Unit(u) => {
                if u.dimension() == d {
                    Ok(u)
                } else {
                    Err(DimensionError::UnregisteredUnit)
                }
            },
            UnitSlot::Unconstrained => Err(DimensionError::UnregisteredUnit),
        }
    }
}

/// The exponent of one base dimension together with the unit it is expressed in.
#[derive(Clone, Copy, Debug, PartialEq, Eq, Structural)]
pub struct Power {
    pub exponent: Exponent,
    pub unit: UnitSlot,
}

/// The power of a dimension that does not occur.
pub open spec fn zero_power() -> Power {
    Power { exponent: Exponent::Value(0), unit: UnitSlot::Unconstrained }
}

impl Power {
    /// A valid power for slot `i`: the exponent is in range, a zero exponent goes with
    /// the unconstrained slot and only with it, and a concrete unit belongs to slot `i`.
    pub open spec fn wf_at(self, i: int) -> bool {
        &&& self.exponent.wf()
        &&& (self.exponent == Exponent::Value(0) <==> self.unit is Unconstrained)
        &&& (self.unit matches UnitSlot::Unit(u) ==> u.dimension().index_spec() == i)
    }
}

/// A valid dimension vector: ten powers, each valid for its slot.
pub open spec fn powers_wf(p: Seq<Power>) -> bool {
    &&& p.len() == DIMENSIONS
    &&& forall|i: int| 0 <= i < DIMENSIONS ==> #[trigger] p[i].wf_at(i)
}

/// All exponents zero.
pub open spec fn dimensionless_spec() -> Seq<Power> {
    Seq::new(DIMENSIONS as nat, |i: int| zero_power())
}

/// Exponent one in the slot of `u`'s dimension, expressed in `u`; zero elsewhere.
pub open spec fn unit_vector(u: UnitId) -> Seq<Power> {
    Seq::new(
        DIMENSIONS as nat,
        |i: int|
            if i == u.dimension().index_spec() {
                Power { exponent: Exponent::Value(1), unit: UnitSlot::Unit(u) }
            } else {
                zero_power()
            },
    )
}

/// The exponents and units of a quantity, one power per base dimension.
#[derive(Clone, Debug)]
pub struct DimensionVector {
    pub powers: Vec<Power>,
}

impl View for DimensionVector {
    type V = Seq<Power>;

    open spec fn view(&self) -> Seq<Power> {
        self.powers@
    }
}

impl DimensionVector {
    pub open spec fn wf(&self) -> bool {
        powers_wf(self@)
    }

    /// The vector of a pure number.
    pub fn dimensionless() -> (r: DimensionVector)
        ensures
            r.wf(),
            r@ == dimensionless_spec(),
    {
        let mut powers: Vec<Power> = Vec::new();
        let mut i: usize = 0;
        while i < DIMENSIONS
            invariant
                i <= DIMENSIONS,
                powers@.len() == i,
                forall|j: int| 0 <= j < i ==> powers@[j] == zero_power(),
            decreases DIMENSIONS - i,
        {
            powers.push(Power { exponent: Exponent::Value(0), unit: UnitSlot::Unconstrained });
            i = i + 1;
        }
        let r = DimensionVector { powers };
        assert(r@ =~= dimensionless_spec());
        r
    }

    /// The vector of a quantity measured in `u`: exponent one in `u`'s dimension.
    pub fn of_unit(u: UnitId) -> (r: DimensionVector)
        ensures
            r.wf(),
            r@ == unit_vector(u),
    {
        let k = u.dimension().index();
        let mut powers: Vec<Power> = Vec::new();
        let mut i: usize = 0;
        while i < DIMENSIONS
            invariant
                i <= DIMENSIONS,
                k == u.dimension().index_spec(),
                powers@.len() == i,
                forall|j: int| 0 <= j < i ==> powers@[j] == unit_vector(u)[j],
            decreases DIMENSIONS - i,
        {
            if i == k {
                powers.push(Power { exponent: Exponent::Value(1), unit: UnitSlot::Unit(u) });
            } else {
                powers.push(Power { exponent: Exponent::Value(0), unit: UnitSlot::Unconstrained });
            }
            i = i + 1;
        }
        let r = DimensionVector { powers };
        assert(r@ =~= unit_vector(u));
        r
    }

    /// The vector of a quantity measured in the unit that the marker type `U` names.
    pub fn of<U: Unit>() -> (r: DimensionVector)
        ensures
            r.wf(),
            r@ == unit_vector(U::id_spec()),
    {
        DimensionVector::of_unit(U::id())
    }

    /// The vector of a quantity of dimension `d` measured in `slot`; fails when `slot`
    /// is the placeholder or a unit of another dimension.
    pub fn for_unit(d: Dimension, slot: UnitSlot) -> (r: Result<DimensionVector, DimensionError>)
        ensures
            match r {
                Ok(v) => slot matches UnitSlot::Unit(u) && u.dimension() == d && v.wf() && v@
                    == unit_vector(u),
                Err(e) => e == DimensionError::UnregisteredUnit && !(slot matches UnitSlot::Unit(
                    u,
                ) && u.dimension() == d),
            },
    {
        let u = slot.registered_in(d)?;
        Ok(DimensionVector::of_unit(u))
    }

    /// The exponent of dimension `d`.
    pub fn exponent_in(&self, d: Dimension) -> (r: Exponent)
        requires
            self.wf(),
        ensures
            r == self@[d.index_spec() as int].exponent,
    {
        self.powers[d.index()].exponent
    }

    /// The unit of dimension `d`.
    pub fn unit_in(&self, d: Dimension) -> (r: UnitSlot)
        requires
            self.wf(),
        ensures
            r == self@[d.index_spec() as int].unit,
    {
        self.powers[d.index()].unit
    }

    /// Whether both vectors have the same exponent and unit in every dimension.
    pub fn same_as(&self, other: &DimensionVector) -> (r: bool)
        requires
            self.wf(),
            other.wf(),
        ensures
            r == (self@ == other@),
    {
        let mut i: usize = 0;
        while i < DIMENSIONS
            invariant
                i <= DIMENSIONS,
                self.wf(),
                other.wf(),
                forall|j: int| 0 <= j < i ==> self@[j] == other@[j],
            decreases DIMENSIONS - i,
        {
            if self.powers[i] != other.powers[i] {
                return false;
            }
            i = i + 1;
        }
        assert(self@ =~= other@);
        true
    }

    /// Addition and subtraction need operands of the same dimensions in the same units.
    pub fn check_same(&self, other: &DimensionVector) -> (r: Result<(), DimensionError>)
        requires
            self.wf(),
            other.wf(),
        ensures
            r is Ok <==> self@ == other@,
            r matches Err(e) ==> e == DimensionError::DimensionMismatch,
    {
        if self.same_as(other) {
            Ok(())
        } else {
            Err(DimensionError::DimensionMismatch)
        }
    }
}

/// Conversion stays inside one dimension: it succeeds exactly when both units measure it.
pub fn check_convert(from: UnitId, to: UnitId) -> (r: Result<(), DimensionError>)
    ensures
        r is Ok <==> from.dimension() == to.dimension(),
        r matches Err(e) ==> e == DimensionError::DimensionMismatch,
{
    if from.dimension() == to.dimension() {
        Ok(())
    } else {
        Err(DimensionError::DimensionMismatch)
    }
}

} // verus!
