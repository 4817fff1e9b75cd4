//! Bounded exponent arithmetic: integers in `[-5, 5]` and an absorbing `Invalid`.
use vstd::prelude::*;

verus! {

/// Largest magnitude an exponent may have before it collapses to `Invalid`.
pub const MAX_EXPONENT: i8 = 5;

/// The power of one base dimension.
#[derive(Clone, Copy, Debug, PartialEq, Eq, Structural)]
pub enum Exponent {
    Value(i8),
    Invalid,
}

/// The exponent that the integer `n` stands for: itself inside the range, `Invalid` outside.
pub open spec fn clip(n: int) -> Exponent {
    if -MAX_EXPONENT <= n <= MAX_EXPONENT {
        Exponent::Value(n as i8)
    } else {
        Exponent::Invalid
    }
}

/// Sum of two exponents.
pub open spec fn add_spec(a: Exponent, b: Exponent) -> Exponent {
    match (a, b) {
        (Exponent::Value(x), Exponent::Value(y)) => clip(x + y),
        _ => Exponent::Invalid,
    }
}

/// Negation of an exponent.
pub open spec fn negate_spec(a: Exponent) -> Exponent {
    match a {
        Exponent::Value(x) => Exponent::Value((-x) as i8),
        Exponent::Invalid => Exponent::Invalid,
    }
}

impl Exponent {
    /// A concrete value lies in `[-5, 5]`.
    pub open spec fn wf(self) -> bool {
        match self {
            Exponent::Value(x) => -MAX_EXPONENT <= x <= MAX_EXPONENT,
            Exponent::Invalid => true,
        }
    }

    pub open spec fn is_zero_spec(self) -> bool {
        self == Exponent::Value(0)
    }

    /// The exponent for `n`, `Invalid` when `n` is out of range.
    pub fn from_int(n: i8) -> (r: Exponent)
        ensures
            r == clip(n as int),
            r.wf(),
    {
        if -MAX_EXPONENT <= n && n <= MAX_EXPONENT {
            Exponent::Value(n)
        } else {
            Exponent::Invalid
        }
    }

    /// `self + other`, `Invalid` when either is `Invalid` or the sum leaves the range.
    pub fn add(self, other: Exponent) -> (r: Exponent)
        requires
            self.wf(),
            other.wf(),
        ensures
            r == add_spec(self, other),
            r.wf(),
    {
        match (self, other) {
            (Exponent::Value(x), Exponent::Value(y)) => {
                let s: i8 = x + y;
                Exponent::from_int(s)
            },
            _ => Exponent::Invalid,
        }
    }

    /// `-self`; `Invalid` stays `Invalid`.
    pub fn negate(self) -> (r: Exponent)
        requires
            self.wf(),
        ensures
            r == negate_spec(self),
            r.wf(),
    {
        match self {
            Exponent::Value(x) => Exponent::Value(-x),
            Exponent::Invalid => Exponent::Invalid,
        }
    }

    pub fn is_zero(self) -> (r: bool)
        ensures
            r == self.is_zero_spec(),
    {
        match self {
            Exponent::Value(x) => x == 0,
            Exponent::Invalid => false,
        }
    }
}

/// The exponent table: on every pair of valid exponents `add` is integer addition
/// clipped to `Invalid` outside `[-5, 5]`, `Invalid` absorbs, `add` is commutative,
/// and `negate` is its own inverse on concrete values.
pub proof fn lemma_exponent_table(a: Exponent, b: Exponent)
    requires
        a.wf(),
        b.wf(),
    ensures
        a is Value && b is Value ==> add_spec(a, b) == (if -5 <= a->0 + b->0 <= 5 {
            Exponent::Value((a->0 + b->0) as i8)
        } else {
            Exponent::Invalid
        }),
        a is Invalid ==> add_spec(a, b) is Invalid,
        b is Invalid ==> add_spec(a, b) is Invalid,
        add_spec(a, b) == add_spec(b, a),
        add_spec(a, b).wf(),
        negate_spec(a).wf(),
        a is Value ==> negate_spec(negate_spec(a)) == a,
        negate_spec(Exponent::Value(0)) == Exponent::Value(0),
        negate_spec(Exponent::Invalid) == Exponent::Invalid,
{
}

/// A type that stands for one exponent value.
pub trait Number {
    fn exponent() -> (r: Exponent)
        ensures
            r.wf(),
    ;
}

/// The exponent -5.
#[derive(Clone, Copy, Debug)]
pub struct NegFive;

/// The exponent -4.
#[derive(Clone, Copy, Debug)]
pub struct NegFour;

/// The exponent -3.
#[derive(Clone, Copy, Debug)]
pub struct NegThree;

/// The exponent -2.
#[derive(Clone, Copy, Debug)]
pub struct NegTwo;

/// The exponent -1.
#[derive(Clone, Copy, Debug)]
pub struct NegOne;

/// The exponent 0.
#[derive(Clone, Copy, Debug)]
pub struct Zero;

/// The exponent 1.
#[derive(Clone, Copy, Debug)]
pub struct One;

/// The exponent 2.
#[derive(Clone, Copy, Debug)]
pub struct Two;

/// The exponent 3.
#[derive(Clone, Copy, Debug)]
pub struct Three;

/// The exponent 4.
#[derive(Clone, Copy, Debug)]
pub struct Four;

/// The exponent 5.
#[derive(Clone, Copy, Debug)]
pub struct Five;

/// The exponent that left the range.
#[derive(Clone, Copy, Debug)]
pub struct Invalid;

impl Number for NegFive {
    fn exponent() -> (r: Exponent)
        ensures
            r == Exponent::Value(-5i8),
    {
        Exponent::Value(-5i8)
    }
}

impl Number for NegFour {
    fn exponent() -> (r: Exponent)
        ensures
            r == Exponent::Value(-4i8),
    {
        Exponent::Value(-4i8)
    }
}

impl Number for NegThree {
    fn exponent() -> (r: Exponent)
        ensures
            r == Exponent::Value(-3i8),
    {
        Exponent::Value(-3i8)
    }
}

impl Number for NegTwo {
    fn exponent() -> (r: Exponent)
        ensures
            r == Exponent::Value(-2i8),
    {
        Exponent::Value(-2i8)
    }
}

impl Number for NegOne {
    fn exponent() -> (r: Exponent)
        ensures
            r == Exponent::Value(-1i8),
    {
        Exponent::Value(-1i8)
    }
}

impl Number for Zero {
    fn exponent() -> (r: Exponent)
        ensures
            r == Exponent::Value(0),
    {
        Exponent::Value(0)
    }
}

impl Number for One {
    fn exponent() -> (r: Exponent)
        ensures
            r == Exponent::Value(1),
    {
        Exponent::Value(1)
    }
}

impl Number for Two {
    fn exponent() -> (r: Exponent)
        ensures
            r == Exponent::Value(2),
    {
        Exponent::Value(2)
    }
}

impl Number for Three {
    fn exponent() -> (r: Exponent)
        ensures
            r == Exponent::Value(3),
    {
        Exponent::Value(3)
    }
}

impl Number for Four {
    fn exponent() -> (r: Exponent)
        ensures
            r == Exponent::Value(4),
    {
        Exponent::Value(4)
    }
}

impl Number for Five {
    fn exponent() -> (r: Exponent)
        ensures
            r == Exponent::Value(5),
    {
        Exponent::Value(5)
    }
}

impl Number for Invalid {
    fn exponent() -> (r: Exponent)
        ensures
            r == Exponent::Invalid,
    {
        Exponent::Invalid
    }
}

} // verus!
