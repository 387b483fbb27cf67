//! Shared value types: tail modes, outcome shapes, and structured errors.

use vstd::prelude::*;
use vstd::string::StrSliceExecFns;

verus! {

/// Which side(s) of the reference distribution define a p-value.
#[derive(Clone, Copy, Debug, PartialEq, Eq, Structural)]
pub enum TailMode {
    TwoSided,
    Less,
    Greater,
}

/// A lower/upper confidence bound pair.
#[derive(Clone, Copy, Debug, PartialEq, Eq, Structural)]
pub struct Interval {
    pub lower: i128,
    pub upper: i128,
}

/// A test statistic together with its p-value, both fixed-point.
#[derive(Clone, Copy, Debug, PartialEq, Eq, Structural)]
pub struct TestOutcome {
    pub statistic: i128,
    pub p_value: i128,
}

/// Structured reasons for refusing a computation.
#[derive(Clone, Copy, Debug, PartialEq, Eq, Structural)]
pub enum StatError {
    /// The tail argument is none of the three recognized strings.
    InvalidTestType,
    /// A denominator of the requested formula is zero.
    DivisionByZero,
    /// A sample is too small for the requested formula.
    TooFewObservations,
    /// Paired samples whose lengths differ.
    UnequalLengths,
    /// An intermediate value left the fixed-point range.
    ArithmeticOverflow,
}

impl StatError {
    /// A human-readable message for each refusal.
    pub fn message(&self) -> (r: &'static str)
        ensures
            *self == StatError::InvalidTestType ==> r@ == "Invalid test type"@,
            *self == StatError::DivisionByZero ==> r@ == "Division by zero"@,
    {
        match self {
            StatError::InvalidTestType => "Invalid test type",
            StatError::DivisionByZero => "Division by zero",
            StatError::TooFewObservations => "Too few observations",
            StatError::UnequalLengths => "Samples differ in length",
            StatError::ArithmeticOverflow => "Arithmetic overflow",
        }
    }
}

/// Character-for-character string equality.
fn str_eq(a: &str, b: &str) -> (r: bool)
    ensures
        r == (a@ == b@),
{
    let la = a.unicode_len();
    let lb = b.unicode_len();
    if la != lb {
        proof {
            assert(a@ != b@);
        }
        return false;
    }
    let mut i: usize = 0;
    while i < la
        invariant
            la == a@.len(),
            la == b@.len(),
            i <= la,
            forall|j: int| 0 <= j < i ==> a@[j] == b@[j],
        decreases la - i,
    {
        if a.get_char(i) != b.get_char(i) {
            return false;
        }
        i = i + 1;
    }
    proof {
        assert(a@ =~= b@);
    }
    true
}

/// The tail mode named by a string, if any: exactly `"two-sided"`, `"less"`
/// and `"greater"` are recognized.
pub open spec fn parse_tail(s: Seq<char>) -> Option<TailMode> {
    if s == "two-sided"@ {
        Some(TailMode::TwoSided)
    } else if s == "less"@ {
        Some(TailMode::Less)
    } else if s == "greater"@ {
        Some(TailMode::Greater)
    } else {
        None
    }
}

impl TailMode {
    /// Parse a tail-mode string.
    pub fn from_text(s: &str) -> (r: Option<TailMode>)
        ensures
            r == parse_tail(s@),
    {
        if str_eq(s, "two-sided") {
            Some(TailMode::TwoSided)
        } else if str_eq(s, "less") {
            Some(TailMode::Less)
        } else if str_eq(s, "greater") {
            Some(TailMode::Greater)
        } else {
            None
        }
    }
}

} // verus!

