//! The combination rule: the dimension vector of a product or a quotient.
use vstd::prelude::*;

use crate::exponent::{add_spec, negate_spec, Exponent};
use crate::units::DIMENSIONS;
use crate::vector::{
    dimensionless_spec, powers_wf, zero_power, DimensionError, DimensionVector, Power, UnitSlot,
};

verus! {

/// Multiplication adds exponents, division subtracts them.
#[derive(Clone, Copy, Debug, PartialEq, Eq, Structural)]
pub enum Operation {
    Multiply,
    Divide,
}

/// The unit of a slot after combination, `None` on a conflict: an operand with a zero
/// exponent imposes no unit, and two nonzero exponents must share their unit.
pub open spec fn merged_unit(pa: Power, pb: Power) -> Option<UnitSlot> {
    if pa.exponent == Exponent::Value(0) {
        Some(pb.unit)
    } else if pb.exponent == Exponent::Value(0) {
        Some(pa.unit)
    } else if pa.unit == pb.unit {
        Some(pa.unit)
    } else {
        None
    }
}

/// The exponent of a slot after combination.
pub open spec fn combined_exponent(pa: Power, pb: Power, op: Operation) -> Exponent {
    match op {
        Operation::Multiply => add_spec(pa.exponent, pb.exponent),
        Operation::Divide => add_spec(pa.exponent, negate_spec(pb.exponent)),
    }
}

/// The power of a slot after combination, `None` on a unit conflict. A slot whose
/// exponent cancels to zero goes back to the unconstrained unit.
pub open spec fn combined_power(pa: Power, pb: Power, op: Operation) -> Option<Power> {
    match merged_unit(pa, pb) {
        None => None,
        Some(u) => {
            let e = combined_exponent(pa, pb, op);
            Some(
                Power {
                    exponent: e,
                    unit: if e == Exponent::Value(0) {
                        UnitSlot::Unconstrained
                    } else {
                        u
                    },
                },
            )
        },
    }
}

/// No dimension holds a unit conflict between `a` and `b`.
pub open spec fn conflict_free(a: Seq<Power>, b: Seq<Power>) -> bool {
    forall|i: int| 0 <= i < DIMENSIONS ==> (#[trigger] merged_unit(a[i], b[i])) is Some
}

/// The combined vector, slot by slot; meaningful where `conflict_free(a, b)`.
pub open spec fn combine_spec(a: Seq<Power>, b: Seq<Power>, op: Operation) -> Seq<Power> {
    Seq::new(DIMENSIONS as nat, |i: int| combined_power(a[i], b[i], op)->0)
}

proof fn lemma_combined_power_wf(pa: Power, pb: Power, op: Operation, i: int)
    requires
        pa.wf_at(i),
        pb.wf_at(i),
        merged_unit(pa, pb) is Some,
    ensures
        combined_power(pa, pb, op)->0.wf_at(i),
{
    let e = combined_exponent(pa, pb, op);
    assert(e.wf());
    if e != Exponent::Value(0) {
        // A nonzero result needs a nonzero operand, whose unit is the merged one.
        if pa.exponent == Exponent::Value(0) {
            assert(pb.exponent != Exponent::Value(0));
        }
    }
}

/// The power of one slot after combination, or `None` on a unit conflict.
pub fn combine_power(pa: Power, pb: Power, op: Operation) -> (r: Option<Power>)
    requires
        pa.exponent.wf(),
        pb.exponent.wf(),
    ensures
        r == combined_power(pa, pb, op),
{
    let unit = if pa.exponent.is_zero() {
        pb.unit
    } else if pb.exponent.is_zero() {
        pa.unit
    } else if pa.unit == pb.unit {
        pa.unit
    } else {
        return None;
    };
    let exponent = match op {
        Operation::Multiply => pa.exponent.add(pb.exponent),
        Operation::Divide => pa.exponent.add(pb.exponent.negate()),
    };
    if exponent.is_zero() {
        Some(Power { exponent, unit: UnitSlot::Unconstrained })
    } else {
        Some(Power { exponent, unit })
    }
}

/// Combines two dimension vectors under `op`. Fails with `UnitConflict` exactly when
/// some dimension has nonzero exponents in both operands with differing units.
pub fn combine(a: &DimensionVector, b: &DimensionVector, op: Operation) -> (r: Result<
    DimensionVector,
    DimensionError,
>)
    requires
        a.wf(),
        b.wf(),
    ensures
        match r {
            Ok(v) => conflict_free(a@, b@) && v.wf() && v@ == combine_spec(a@, b@, op),
            Err(e) => !conflict_free(a@, b@) && e == DimensionError::UnitConflict,
        },
{
    let mut powers: Vec<Power> = Vec::new();
    let mut i: usize = 0;
    while i < DIMENSIONS
        invariant
            i <= DIMENSIONS,
            a.wf(),
            b.wf(),
            powers@.len() == i,
            forall|j: int| 0 <= j < i ==> (#[trigger] merged_unit(a@[j], b@[j])) is Some,
            forall|j: int|
                0 <= j < i ==> Some(#[trigger] powers@[j]) == combined_power(a@[j], b@[j], op),
            forall|j: int| 0 <= j < i ==> (#[trigger] powers@[j]).wf_at(j),
        decreases DIMENSIONS - i,
    {
        assert(a@[i as int].wf_at(i as int));
        assert(b@[i as int].wf_at(i as int));
        match combine_power(a.powers[i], b.powers[i], op) {
            Some(p) => {
                proof {
                    lemma_combined_power_wf(a@[i as int], b@[i as int], op, i as int);
                }
                powers.push(p);
            },
            None => {
                return Err(DimensionError::UnitConflict);
            },
        }
        i = i + 1;
    }
    let v = DimensionVector { powers };
    assert(v@ =~= combine_spec(a@, b@, op));
    Ok(v)
}

/// All exponents of `a` are zero, whatever units its slots nominally carry.
pub open spec fn all_zero(a: Seq<Power>) -> bool {
    &&& a.len() == DIMENSIONS
    &&& forall|i: int| 0 <= i < DIMENSIONS ==> #[trigger] a[i].exponent == Exponent::Value(0)
}

/// Multiplying by a vector whose exponents are all zero, on either side, leaves the
/// other operand's vector unchanged, whatever placeholder units the first carries.
pub proof fn lemma_dimensionless_identity(one: Seq<Power>, q: Seq<Power>)
    requires
        all_zero(one),
        powers_wf(q),
    ensures
        conflict_free(one, q),
        combine_spec(one, q, Operation::Multiply) == q,
        conflict_free(q, one),
        combine_spec(q, one, Operation::Multiply) == q,
{
    assert forall|i: int| 0 <= i < DIMENSIONS implies (#[trigger] merged_unit(one[i], q[i])) is Some
        && merged_unit(q[i], one[i]) is Some by {
        assert(one[i].exponent == Exponent::Value(0));
    }
    assert forall|i: int| 0 <= i < DIMENSIONS implies #[trigger] combine_spec(
        one,
        q,
        Operation::Multiply,
    )[i] == q[i] && combine_spec(q, one, Operation::Multiply)[i] == q[i] by {
        assert(one[i].exponent == Exponent::Value(0));
        assert(q[i].wf_at(i));
    }
    assert(combine_spec(one, q, Operation::Multiply) =~= q);
    assert(combine_spec(q, one, Operation::Multiply) =~= q);
}

/// The vector of a pure number has all exponents zero.
pub proof fn lemma_dimensionless_all_zero()
    ensures
        all_zero(dimensionless_spec()),
{
    assert forall|i: int| 0 <= i < DIMENSIONS implies #[trigger] dimensionless_spec()[i].exponent
        == Exponent::Value(0) by {
        assert(dimensionless_spec()[i] == zero_power());
    }
}

} // verus!
