//! The three-valued logic type and its operators.

use vstd::prelude::*;

verus! {

/// A balanced ternary digit: one of the three values -1, 0, +1.
#[derive(PartialEq, Eq, Structural, Clone, Copy, Debug)]
pub enum Trit {
    /// Positive, +1
    Pos,
    /// Neutral, 0
    Neu,
    /// Negative, -1
    Neg,
}

/// Side channel of [`Trit::add`]: reports whether the true sum of the two
/// operands fell outside the representable range {-1, 0, +1}, independently
/// of the (possibly lossy) returned digit.
#[derive(PartialEq, Eq, Structural, Clone, Copy, Debug)]
pub enum Overflow {
    /// The true sum exceeded +1.
    PosOverflow,
    /// The true sum was representable; no information was lost.
    NoOverflow,
    /// The true sum was below -1.
    NegOverflow,
}

impl Trit {
    /// The integer a trit stands for: +1, 0 or -1.
    pub open spec fn value(self) -> int {
        match self {
            Trit::Pos => 1,
            Trit::Neu => 0,
            Trit::Neg => -1,
        }
    }

    /// The trit an integer maps to: -1, 0 and +1 map to their digit, and
    /// every other integer falls back to `Neu`.
    pub open spec fn from_int(v: int) -> Trit {
        if v == -1 {
            Trit::Neg
        } else if v == 1 {
            Trit::Pos
        } else {
            Trit::Neu
        }
    }

    /// Builds a trit from its integer code. Out-of-range inputs are not an
    /// error: they are silently normalized to the neutral digit.
    pub fn from_i8(val: i8) -> (r: Self)
        ensures
            r == Trit::from_int(val as int),
    {
        match val {
            0 => Self::Neu,
            -1 => Self::Neg,
            1 => Self::Pos,
            _ => Self::Neu,
        }
    }

    /// Ternary negation: the poles swap and the neutral digit is fixed.
    pub open spec fn spec_not(self) -> Trit {
        match self {
            Trit::Pos => Trit::Neg,
            Trit::Neu => Trit::Neu,
            Trit::Neg => Trit::Pos,
        }
    }

    /// Logical not: `Pos` and `Neg` swap, `Neu` maps to itself.
    pub fn not(&self) -> (r: Self)
        ensures
            r == self.spec_not(),
            r.value() == -self.value(),
    {
        match self {
            Self::Pos => Self::Neg,
            Self::Neu => Self::Neu,
            Self::Neg => Self::Pos,
        }
    }

    /// Ternary conjunction: whichever operand stands for the smaller
    /// integer; on a tie the operands are equal, so either.
    pub open spec fn spec_and(a: Trit, b: Trit) -> Trit {
        if a.value() <= b.value() {
            a
        } else {
            b
        }
    }

    /// Logical and: yields the more negative operand.
    pub fn and(&self, rhs: Self) -> (r: Self)
        ensures
            r == Trit::spec_and(*self, rhs),
    {
        if *self == Self::Neg || rhs == Self::Neg {
            Self::Neg
        } else if *self == Self::Neu || rhs == Self::Neu {
            Self::Neu
        } else {
            Self::Pos
        }
    }

    /// Ternary disjunction: whichever operand stands for the larger
    /// integer; on a tie the operands are equal, so either.
    pub open spec fn spec_or(a: Trit, b: Trit) -> Trit {
        if a.value() >= b.value() {
            a
        } else {
            b
        }
    }

    /// Logical or: yields the more positive operand.
    pub fn or(&self, rhs: Self) -> (r: Self)
        ensures
            r == Trit::spec_or(*self, rhs),
    {
        if *self == Self::Pos || rhs == Self::Pos {
            Self::Pos
        } else if *self == Self::Neu || rhs == Self::Neu {
            Self::Neu
        } else {
            Self::Neg
        }
    }

    /// Ternary exclusive-or: the neutral digit dominates, agreement on a
    /// pole yields `Neg`, and disagreement between the poles yields `Pos`.
    /// This is not arithmetic xor.
    pub open spec fn spec_xor(a: Trit, b: Trit) -> Trit {
        if a == Trit::Neu || b == Trit::Neu {
            Trit::Neu
        } else if a == b {
            Trit::Neg
        } else {
            Trit::Pos
        }
    }

    /// Logical xor, per [`Trit::spec_xor`].
    pub fn xor(&self, rhs: Self) -> (r: Self)
        ensures
            r == Trit::spec_xor(*self, rhs),
    {
        if self.is_neu() || rhs.is_neu() {
            Self::Neu
        } else if *self == rhs {
            Self::Neg
        } else {
            Self::Pos
        }
    }

    /// The overflow indicator for a raw two-trit sum (a value in -2..=2):
    /// `PosOverflow` above +1, `NegOverflow` below -1, `NoOverflow` between.
    pub open spec fn spec_overflow(sum: int) -> Overflow {
        if sum > 1 {
            Overflow::PosOverflow
        } else if sum < -1 {
            Overflow::NegOverflow
        } else {
            Overflow::NoOverflow
        }
    }

    /// The integer code of a trit, for the arithmetic in [`Trit::add`].
    fn code(&self) -> (r: i8)
        ensures
            r as int == self.value(),
    {
        match self {
            Self::Pos => 1,
            Self::Neu => 0,
            Self::Neg => -1,
        }
    }

    /// Adds the integer codes of the two operands and reports, beside the
    /// resulting trit, whether the raw sum left the representable range.
    /// An out-of-range sum (±2) decodes through the [`Trit::from_int`]
    /// fallback, so the returned digit is then `Neu`: the overflow is
    /// reported separately, never by saturating or panicking.
    pub fn add(&self, other: Trit) -> (r: (Overflow, Trit))
        ensures
            r.0 == Trit::spec_overflow(self.value() + other.value()),
            r.1 == Trit::from_int(self.value() + other.value()),
    {
        let base = self.code();
        let other = other.code();

        let total = base + other;
        if total > 1 {
            (Overflow::PosOverflow, Self::from_i8(total))
        } else if total < -1 {
            (Overflow::NegOverflow, Self::from_i8(total))
        } else {
            (Overflow::NoOverflow, Self::from_i8(total))
        }
    }

    /// True exactly of the neutral digit.
    pub fn is_neu(&self) -> (r: bool)
        ensures
            r == (*self == Trit::Neu),
    {
        *self == Self::Neu
    }
}

/// Logical not is an involution: negating a trit twice returns the trit.
pub proof fn lemma_not_involution(t: Trit)
    ensures
        t.spec_not().spec_not() == t,
{
}

/// Conjunction and disjunction are commutative. Both break a tie toward the
/// left operand, but a tie means the operands stand for the same integer,
/// hence are the same trit, so the tie-break cannot be observed.
pub proof fn lemma_and_or_commutative(a: Trit, b: Trit)
    ensures
        Trit::spec_and(a, b) == Trit::spec_and(b, a),
        Trit::spec_or(a, b) == Trit::spec_or(b, a),
{
}

/// Integer round trip: a code in -1..=1 survives construction, so the built
/// trit stands for exactly that integer; any other code falls back to the
/// neutral digit, by design and without an error.
pub proof fn lemma_from_int_round_trip(v: int)
    ensures
        -1 <= v <= 1 ==> Trit::from_int(v).value() == v,
        !(-1 <= v <= 1) ==> Trit::from_int(v) == Trit::Neu,
{
}

} // verus!
