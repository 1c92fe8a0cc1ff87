//! The capability a type implements to say how its values are checked.

use vstd::prelude::*;

verus! {

/// Values that can be checked.
///
/// An implementation picks what a passed check hands out (`Ok`, often `Self`,
/// but possibly a stricter or smaller type) and what a failed one reports
/// (`Err`). The check consumes the candidate, so nothing half-checked is left
/// behind.
///
/// `check_spec` is the mathematical statement of the check; `check` is bound
/// to compute exactly it. Every contract of [`crate::Checked`] is stated over
/// `check_spec`, so what is proved about a wrapper holds for an implementation
/// exactly as far as its `check` meets this clause.
pub trait Check: Sized {
    /// The value handed out when the check passes.
    type Ok;

    /// The error reported when the check fails.
    type Err;

    /// What checking `self` yields.
    ///
    /// An implementation states it. Where one leaves it out, nothing is known
    /// of the outcome but its type, and so nothing can be proved of its
    /// `check` either.
    closed spec fn check_spec(self) -> Result<Self::Ok, Self::Err> {
        arbitrary()
    }

    /// Check `self`: `Ok` with the checked value if it is valid, `Err` with
    /// the reason otherwise.
    fn check(self) -> (outcome: Result<Self::Ok, Self::Err>)
        ensures
            outcome == self.check_spec(),
    ;
}

} // verus!
