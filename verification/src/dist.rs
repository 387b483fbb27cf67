//! Reference-distribution requests.
//!
//! The engine never evaluates a distribution itself: a plan names the
//! distribution and the point or probability at which the caller is to
//! evaluate its CDF or quantile function, and the verified conclusion
//! functions consume the value the caller hands back.

use vstd::prelude::*;

verus! {

/// A reference distribution, identified by its parameters.
///
/// Degrees of freedom of Student's t are fixed-point, since the
/// Welch-Satterthwaite approximation yields fractional values; the two
/// Fisher-Snedecor degrees of freedom are always whole counts.
#[derive(Clone, Copy, Debug, PartialEq, Eq, Structural)]
pub enum Distribution {
    Normal,
    StudentsT { df: i128 },
    FisherSnedecor { df1: usize, df2: usize },
}

impl Distribution {
    /// Whether the distribution is symmetric about zero, which decides the
    /// two-sided p-value formula.
    pub open spec fn is_symmetric(self) -> bool {
        !(self is FisherSnedecor)
    }
}

} // verus!
