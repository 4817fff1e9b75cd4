//! The resolver: names the kind of a dimension vector, or falls back to `Derived`.
use vstd::prelude::*;

use crate::combine::{
    combine, combine_spec, combined_exponent, conflict_free, merged_unit, Operation,
};
use crate::exponent::Exponent;
use crate::units::{Dimension, UnitId, DIMENSIONS};
use crate::vector::{powers_wf, unit_vector, DimensionError, DimensionVector, Power, UnitSlot};

verus! {

/// Number of registered named kinds.
pub const NAMED_KINDS: usize = 12;

/// The kind of a quantity: a registered exponent pattern, or `Derived` for any other.
#[derive(Clone, Copy, Debug, PartialEq, Eq, Structural)]
pub enum Kind {
    Length,
    Time,
    Temperature,
    Mass,
    Current,
    LuminousIntensity,
    SubstanceQuantity,
    Angle,
    SolidAngle,
    DigitalInformation,
    Area,
    Speed,
    Derived,
}

impl Kind {
    /// The exponent that this kind's pattern has in slot `i`.
    pub open spec fn pattern_spec(self, i: int) -> i8 {
        match self {
            Kind::Length => if i == 0 { 1 } else { 0 },
            Kind::Time => if i == 1 { 1 } else { 0 },
            Kind::Temperature => if i == 2 { 1 } else { 0 },
            Kind::Mass => if i == 3 { 1 } else { 0 },
            Kind::Current => if i == 4 { 1 } else { 0 },
            Kind::LuminousIntensity => if i == 5 { 1 } else { 0 },
            Kind::SubstanceQuantity => if i == 6 { 1 } else { 0 },
            Kind::Angle => if i == 7 { 1 } else { 0 },
            Kind::SolidAngle => if i == 8 { 1 } else { 0 },
            Kind::DigitalInformation => if i == 9 { 1 } else { 0 },
            Kind::Area => if i == 0 { 2 } else { 0 },
            Kind::Speed => if i == 0 { 1 } else if i == 1 { -1i8 } else { 0 },
            Kind::Derived => 0,
        }
    }

    /// Every kind but the fallback has a registered pattern.
    pub open spec fn is_named(self) -> bool {
        self != Kind::Derived
    }

    /// One of the ten kinds that measure a single base dimension to the first power.
    pub open spec fn is_base(self) -> bool {
        self.ordinal() < 10
    }

    #[verifier::when_used_as_spec(is_base)]
    pub fn is_base_kind(self) -> (r: bool)
        ensures
            r == self.is_base(),
    {
        match self {
            Kind::Area | Kind::Speed | Kind::Derived => false,
            _ => true,
        }
    }

    /// The position of a named kind in the registry.
    pub open spec fn ordinal(self) -> int {
        match self {
            Kind::Length => 0,
            Kind::Time => 1,
            Kind::Temperature => 2,
            Kind::Mass => 3,
            Kind::Current => 4,
            Kind::LuminousIntensity => 5,
            Kind::SubstanceQuantity => 6,
            Kind::Angle => 7,
            Kind::SolidAngle => 8,
            Kind::DigitalInformation => 9,
            Kind::Area => 10,
            Kind::Speed => 11,
            Kind::Derived => 12,
        }
    }

    /// The named kind at position `j` of the registry.
    pub open spec fn registered_spec(j: int) -> Kind {
        if j == 0 {
            Kind::Length
        } else if j == 1 {
            Kind::Time
        } else if j == 2 {
            Kind::Temperature
        } else if j == 3 {
            Kind::Mass
        } else if j == 4 {
            Kind::Current
        } else if j == 5 {
            Kind::LuminousIntensity
        } else if j == 6 {
            Kind::SubstanceQuantity
        } else if j == 7 {
            Kind::Angle
        } else if j == 8 {
            Kind::SolidAngle
        } else if j == 9 {
            Kind::DigitalInformation
        } else if j == 10 {
            Kind::Area
        } else {
            Kind::Speed
        }
    }

    /// The named kind at position `j` of the registry.
    pub fn registered(j: usize) -> (r: Kind)
        requires
            j < NAMED_KINDS,
        ensures
            r == Kind::registered_spec(j as int),
            r.is_named(),
    {
        if j == 0 {
            Kind::Length
        } else if j == 1 {
            Kind::Time
        } else if j == 2 {
            Kind::Temperature
        } else if j == 3 {
            Kind::Mass
        } else if j == 4 {
            Kind::Current
        } else if j == 5 {
            Kind::LuminousIntensity
        } else if j == 6 {
            Kind::SubstanceQuantity
        } else if j == 7 {
            Kind::Angle
        } else if j == 8 {
            Kind::SolidAngle
        } else if j == 9 {
            Kind::DigitalInformation
        } else if j == 10 {
            Kind::Area
        } else {
            Kind::Speed
        }
    }

    /// The kind of a quantity measured in one base dimension.
    pub open spec fn of_dimension_spec(d: Dimension) -> Kind {
        Kind::registered_spec(d.index_spec() as int)
    }

    #[verifier::when_used_as_spec(of_dimension_spec)]
    pub fn of_dimension(d: Dimension) -> (r: Kind)
        ensures
            r == Kind::of_dimension_spec(d),
    {
        Kind::registered(d.index())
    }

    /// The one dimension a kind's pattern uses, for kinds expressed in a single unit.
    pub open spec fn single_dimension_spec(self) -> Option<Dimension> {
        match self {
            Kind::Speed | Kind::Derived => None,
            Kind::Area => Some(Dimension::Length),
            _ => Some(Dimension::at_spec(self.ordinal())),
        }
    }

    #[verifier::when_used_as_spec(single_dimension_spec)]
    pub fn single_dimension(self) -> (r: Option<Dimension>)
        ensures
            r == self.single_dimension_spec(),
    {
        match self {
            Kind::Speed | Kind::Derived => None,
            Kind::Area => Some(Dimension::Length),
            Kind::Length => Some(Dimension::Length),
            Kind::Time => Some(Dimension::Time),
            Kind::Temperature => Some(Dimension::Temperature),
            Kind::Mass => Some(Dimension::Mass),
            Kind::Current => Some(Dimension::Current),
            Kind::LuminousIntensity => Some(Dimension::LuminousIntensity),
            Kind::SubstanceQuantity => Some(Dimension::SubstanceQuantity),
            Kind::Angle => Some(Dimension::Angle),
            Kind::SolidAngle => Some(Dimension::SolidAngle),
            Kind::DigitalInformation => Some(Dimension::DigitalInformation),
        }
    }

    /// The exponent that this kind's pattern has in slot `i`.
    pub fn pattern(self, i: usize) -> (r: i8)
        ensures
            r == self.pattern_spec(i as int),
    {
        match self {
            Kind::Length => if i == 0 { 1 } else { 0 },
            Kind::Time => if i == 1 { 1 } else { 0 },
            Kind::Temperature => if i == 2 { 1 } else { 0 },
            Kind::Mass => if i == 3 { 1 } else { 0 },
            Kind::Current => if i == 4 { 1 } else { 0 },
            Kind::LuminousIntensity => if i == 5 { 1 } else { 0 },
            Kind::SubstanceQuantity => if i == 6 { 1 } else { 0 },
            Kind::Angle => if i == 7 { 1 } else { 0 },
            Kind::SolidAngle => if i == 8 { 1 } else { 0 },
            Kind::DigitalInformation => if i == 9 { 1 } else { 0 },
            Kind::Area => if i == 0 { 2 } else { 0 },
            Kind::Speed => if i == 0 { 1 } else if i == 1 { -1 } else { 0 },
            Kind::Derived => 0,
        }
    }
}

/// The exponents of `v` are exactly the pattern of `k`.
pub open spec fn matches_kind(v: Seq<Power>, k: Kind) -> bool {
    forall|i: int| 0 <= i < DIMENSIONS ==> #[trigger] v[i].exponent == Exponent::Value(k.pattern_spec(i))
}

/// Some exponent of `v` left the range.
pub open spec fn has_overflow(v: Seq<Power>) -> bool {
    exists|i: int| 0 <= i < DIMENSIONS && #[trigger] v[i].exponent is Invalid
}

/// The named kind whose pattern `v` has, `Derived` when there is none.
pub open spec fn kind_of(v: Seq<Power>) -> Kind {
    if exists|k: Kind| k.is_named() && #[trigger] matches_kind(v, k) {
        choose|k: Kind| k.is_named() && #[trigger] matches_kind(v, k)
    } else {
        Kind::Derived
    }
}

/// What resolving `v` gives: an overflow error, else the kind of `v`.
pub open spec fn resolve_spec(v: Seq<Power>) -> Result<Kind, DimensionError> {
    if has_overflow(v) {
        Err(DimensionError::ExponentOverflow)
    } else {
        Ok(kind_of(v))
    }
}

/// The registry is unambiguous: two different named kinds never share a pattern.
pub proof fn lemma_patterns_distinct(k1: Kind, k2: Kind)
    requires
        k1.is_named(),
        k2.is_named(),
        k1 != k2,
    ensures
        exists|i: int| 0 <= i < DIMENSIONS && #[trigger] k1.pattern_spec(i) != k2.pattern_spec(i),
{
    let w1 = if k1.ordinal() < 10 { k1.ordinal() } else { 0 };
    let w2 = if k2.ordinal() < 10 { k2.ordinal() } else { 0 };
    if k1.pattern_spec(w1) != k2.pattern_spec(w1) {
    } else if k1.pattern_spec(w2) != k2.pattern_spec(w2) {
    } else {
        assert(k1.pattern_spec(1) != k2.pattern_spec(1));
    }
}

/// At most one named kind matches a vector.
pub proof fn lemma_match_unique(v: Seq<Power>, k1: Kind, k2: Kind)
    requires
        k1.is_named(),
        k2.is_named(),
        matches_kind(v, k1),
        matches_kind(v, k2),
    ensures
        k1 == k2,
{
    if k1 != k2 {
        lemma_patterns_distinct(k1, k2);
        let i = choose|i: int| 0 <= i < DIMENSIONS && #[trigger] k1.pattern_spec(i) != k2.pattern_spec(i);
        assert(v[i].exponent == Exponent::Value(k1.pattern_spec(i)));
    }
}

/// An exponent already at the edge of `[-5, 5]`, combined with a nonzero exponent that
/// pushes it further out (same sign under multiplication, opposite sign under division),
/// becomes `Invalid`, and the combined vector can no longer be resolved.
pub proof fn lemma_overflow_at_edge(a: Seq<Power>, b: Seq<Power>, op: Operation, i: int)
    requires
        powers_wf(a),
        powers_wf(b),
        conflict_free(a, b),
        0 <= i < DIMENSIONS,
        b[i].exponent matches Exponent::Value(y) && ({
            let pushed = match op {
                Operation::Multiply => y as int,
                Operation::Divide => -y,
            };
            (a[i].exponent == Exponent::Value(5) && pushed > 0) || (a[i].exponent
                == Exponent::Value(-5i8) && pushed < 0)
        }),
    ensures
        combine_spec(a, b, op)[i].exponent is Invalid,
        resolve_spec(combine_spec(a, b, op)) == Err::<Kind, DimensionError>(
            DimensionError::ExponentOverflow,
        ),
{
    assert(merged_unit(a[i], b[i]) is Some);
    assert(b[i].wf_at(i));
    assert(combined_exponent(a[i], b[i], op) is Invalid);
    assert(combine_spec(a, b, op)[i].exponent is Invalid);
}

/// `Invalid` is terminal: once a vector holds it, every further combination that
/// succeeds holds it in the same dimension, whichever side the vector stands on, and
/// no such combination can be resolved.
pub proof fn lemma_invalid_absorbs(v: Seq<Power>, w: Seq<Power>, op: Operation, i: int)
    requires
        powers_wf(v),
        powers_wf(w),
        0 <= i < DIMENSIONS,
        v[i].exponent is Invalid,
    ensures
        resolve_spec(v) == Err::<Kind, DimensionError>(DimensionError::ExponentOverflow),
        conflict_free(v, w) ==> combine_spec(v, w, op)[i].exponent is Invalid,
        conflict_free(v, w) ==> resolve_spec(combine_spec(v, w, op)) == Err::<Kind, DimensionError>(
            DimensionError::ExponentOverflow,
        ),
        conflict_free(w, v) ==> combine_spec(w, v, op)[i].exponent is Invalid,
        conflict_free(w, v) ==> resolve_spec(combine_spec(w, v, op)) == Err::<Kind, DimensionError>(
            DimensionError::ExponentOverflow,
        ),
{
    assert(w[i].wf_at(i));
    if conflict_free(v, w) {
        assert(merged_unit(v[i], w[i]) is Some);
        assert(combine_spec(v, w, op)[i].exponent is Invalid);
    }
    if conflict_free(w, v) {
        assert(merged_unit(w[i], v[i]) is Some);
        assert(combine_spec(w, v, op)[i].exponent is Invalid);
    }
}

/// Away from overflow, the kind of `v` is the one named kind whose pattern `v` has, and
/// `Derived` exactly when no named kind's pattern fits.
pub proof fn lemma_kind_of(v: Seq<Power>)
    ensures
        forall|k: Kind| #[trigger] k.is_named() ==> (matches_kind(v, k) <==> kind_of(v) == k),
        kind_of(v) == Kind::Derived <==> forall|k: Kind| #[trigger] k.is_named() ==> !matches_kind(v, k),
{
    if exists|c: Kind| c.is_named() && #[trigger] matches_kind(v, c) {
        let c = choose|c: Kind| c.is_named() && #[trigger] matches_kind(v, c);
        assert forall|k: Kind| #[trigger] k.is_named() implies (matches_kind(v, k) <==> kind_of(v) == k) by {
            if matches_kind(v, k) {
                lemma_match_unique(v, k, c);
            }
        }
    }
}

/// Whether the exponents of `v` are exactly the pattern of `k`.
fn matches_pattern(v: &DimensionVector, k: Kind) -> (r: bool)
    requires
        v.wf(),
    ensures
        r == matches_kind(v@, k),
{
    let mut i: usize = 0;
    while i < DIMENSIONS
        invariant
            i <= DIMENSIONS,
            v.wf(),
            forall|j: int| 0 <= j < i ==> #[trigger] v@[j].exponent == Exponent::Value(k.pattern_spec(j)),
        decreases DIMENSIONS - i,
    {
        if v.powers[i].exponent != Exponent::Value(k.pattern(i)) {
            return false;
        }
        i = i + 1;
    }
    true
}

/// Whether some exponent of `v` is `Invalid`.
pub fn overflowed(v: &DimensionVector) -> (r: bool)
    requires
        v.wf(),
    ensures
        r == has_overflow(v@),
{
    let mut i: usize = 0;
    while i < DIMENSIONS
        invariant
            i <= DIMENSIONS,
            v.wf(),
            forall|j: int| 0 <= j < i ==> !(#[trigger] v@[j].exponent is Invalid),
        decreases DIMENSIONS - i,
    {
        if let Exponent::Invalid = v.powers[i].exponent {
            return true;
        }
        i = i + 1;
    }
    false
}

/// Resolves a vector to its kind: the one named kind whose pattern its exponents have,
/// else `Derived`. Fails with `ExponentOverflow` when an exponent is `Invalid`.
pub fn resolve(v: &DimensionVector) -> (r: Result<Kind, DimensionError>)
    requires
        v.wf(),
    ensures
        r == resolve_spec(v@),
        r matches Ok(k) ==> forall|k2: Kind| #[trigger] k2.is_named() ==> (matches_kind(v@, k2) <==> k2 == k),
{
    if overflowed(v) {
        return Err(DimensionError::ExponentOverflow);
    }
    let mut j: usize = 0;
    while j < NAMED_KINDS
        invariant
            j <= NAMED_KINDS,
            v.wf(),
            forall|m: int| 0 <= m < j ==> !matches_kind(v@, #[trigger] Kind::registered_spec(m)),
        decreases NAMED_KINDS - j,
    {
        let k = Kind::registered(j);
        if matches_pattern(v, k) {
            proof {
                assert forall|k2: Kind| #[trigger] k2.is_named() implies (matches_kind(v@, k2) <==> k2 == k) by {
                    if matches_kind(v@, k2) {
                        lemma_match_unique(v@, k, k2);
                    }
                }
                let c = choose|c: Kind| c.is_named() && #[trigger] matches_kind(v@, c);
                lemma_match_unique(v@, k, c);
            }
            return Ok(k);
        }
        j = j + 1;
    }
    proof {
        assert forall|k2: Kind| #[trigger] k2.is_named() implies !matches_kind(v@, k2) by {
            assert(Kind::registered_spec(k2.ordinal()) == k2);
        }
    }
    Ok(Kind::Derived)
}

/// A quantity's kind together with its dimension vector.
#[derive(Clone, Debug)]
pub struct Resolved {
    pub kind: Kind,
    pub vector: DimensionVector,
}

impl Resolved {
    /// The kind is the one the vector resolves to.
    pub open spec fn wf(&self) -> bool {
        &&& self.vector.wf()
        &&& resolve_spec(self.vector@) == Ok::<Kind, DimensionError>(self.kind)
    }

    /// The unit to convert from when converting to `to`: conversion applies to a
    /// quantity of one of the ten base kinds, and `to` must measure that kind's dimension.
    pub fn conversion_source(&self, to: UnitId) -> (r: Result<UnitId, DimensionError>)
        requires
            self.wf(),
        ensures
            match r {
                Ok(u) => {
                    &&& self.kind.is_base()
                    &&& Kind::of_dimension_spec(to.dimension()) == self.kind
                    &&& u.dimension() == to.dimension()
                    &&& self.vector@[u.dimension().index_spec() as int].unit == UnitSlot::Unit(u)
                },
                Err(e) => {
                    &&& e == DimensionError::DimensionMismatch
                    &&& !(self.kind.is_base() && Kind::of_dimension_spec(to.dimension()) == self.kind)
                },
            },
    {
        let d = to.dimension();
        if !self.kind.is_base_kind() || Kind::of_dimension(d) != self.kind {
            return Err(DimensionError::DimensionMismatch);
        }
        match self.unit() {
            Some(u) => Ok(u),
            None => Err(DimensionError::DimensionMismatch),
        }
    }

    /// The unit of a quantity whose kind uses a single dimension: the concrete unit in
    /// that dimension's slot. `None` for kinds that mix dimensions or are `Derived`.
    pub fn unit(&self) -> (r: Option<UnitId>)
        requires
            self.wf(),
        ensures
            match self.kind.single_dimension() {
                Some(d) => r matches Some(u) && self.vector@[d.index_spec() as int].unit
                    == UnitSlot::Unit(u) && u.dimension() == d,
                None => r is None,
            },
    {
        match self.kind.single_dimension() {
            Some(d) => {
                let i = d.index();
                proof {
                    let k = self.kind;
                    assert(k.is_named());
                    assert(matches_kind(self.vector@, k));
                    assert(self.vector@[i as int].exponent == Exponent::Value(k.pattern_spec(i as int)));
                    assert(self.vector@[i as int].wf_at(i as int));
                }
                match self.vector.unit_in(d) {
                    UnitSlot::Unit(u) => Some(u),
                    UnitSlot::Unconstrained => None,
                }
            },
            None => None,
        }
    }
}

/// Each base dimension's kind is the kind of a quantity measured in any of its units,
/// and distinct units give distinct vectors.
pub proof fn lemma_unit_vector_kind(u: UnitId, w: UnitId)
    ensures
        resolve_spec(unit_vector(u)) == Ok::<Kind, DimensionError>(Kind::of_dimension_spec(u.dimension())),
        unit_vector(u) == unit_vector(w) ==> u == w,
{
    let v = unit_vector(u);
    let k = Kind::of_dimension_spec(u.dimension());
    assert(matches_kind(v, k));
    assert(!has_overflow(v));
    assert(exists|c: Kind| c.is_named() && #[trigger] matches_kind(v, c));
    let c = choose|c: Kind| c.is_named() && #[trigger] matches_kind(v, c);
    lemma_match_unique(v, k, c);
    let i = u.dimension().index_spec() as int;
    if unit_vector(u) == unit_vector(w) {
        assert(unit_vector(u)[i].unit == UnitSlot::Unit(u));
        assert(unit_vector(w)[i] == unit_vector(u)[i]);
    }
}

/// Combines two vectors under `op` and resolves the result. Fails with `UnitConflict`
/// where the units clash, else with `ExponentOverflow` where an exponent left the range.
pub fn combine_and_resolve(a: &DimensionVector, b: &DimensionVector, op: Operation) -> (r: Result<
    Resolved,
    DimensionError,
>)
    requires
        a.wf(),
        b.wf(),
    ensures
        match r {
            Ok(q) => {
                &&& conflict_free(a@, b@)
                &&& q.vector.wf()
                &&& q.vector@ == combine_spec(a@, b@, op)
                &&& resolve_spec(q.vector@) == Ok::<Kind, DimensionError>(q.kind)
            },
            Err(e) => if !conflict_free(a@, b@) {
                e == DimensionError::UnitConflict
            } else {
                &&& e == DimensionError::ExponentOverflow
                &&& has_overflow(combine_spec(a@, b@, op))
            },
        },
{
    let vector = combine(a, b, op)?;
    let kind = resolve(&vector)?;
    Ok(Resolved { kind, vector })
}

/// The product of two quantities' dimensions, resolved to a kind.
pub fn multiply(a: &DimensionVector, b: &DimensionVector) -> (r: Result<Resolved, DimensionError>)
    requires
        a.wf(),
        b.wf(),
    ensures
        match r {
            Ok(q) => {
                &&& conflict_free(a@, b@)
                &&& q.vector.wf()
                &&& q.vector@ == combine_spec(a@, b@, Operation::Multiply)
                &&& resolve_spec(q.vector@) == Ok::<Kind, DimensionError>(q.kind)
            },
            Err(e) => if !conflict_free(a@, b@) {
                e == DimensionError::UnitConflict
            } else {
                &&& e == DimensionError::ExponentOverflow
                &&& has_overflow(combine_spec(a@, b@, Operation::Multiply))
            },
        },
{
    combine_and_resolve(a, b, Operation::Multiply)
}

/// The quotient of two quantities' dimensions, resolved to a kind.
pub fn divide(a: &DimensionVector, b: &DimensionVector) -> (r: Result<Resolved, DimensionError>)
    requires
        a.wf(),
        b.wf(),
    ensures
        match r {
            Ok(q) => {
                &&& conflict_free(a@, b@)
                &&& q.vector.wf()
                &&& q.vector@ == combine_spec(a@, b@, Operation::Divide)
                &&& resolve_spec(q.vector@) == Ok::<Kind, DimensionError>(q.kind)
            },
            Err(e) => if !conflict_free(a@, b@) {
                e == DimensionError::UnitConflict
            } else {
                &&& e == DimensionError::ExponentOverflow
                &&& has_overflow(combine_spec(a@, b@, Operation::Divide))
            },
        },
{
    combine_and_resolve(a, b, Operation::Divide)
}

} // verus!
