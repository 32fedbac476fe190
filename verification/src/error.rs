use vstd::prelude::*;

verus! {

/// Why an operation did not take place. Any error means that nothing changed.
#[derive(Clone, Copy, Debug, PartialEq, Eq, Structural)]
pub enum CreditError {
    /// The administrator is not set yet, or was about to be set twice.
    Configuration,
    /// The caller is not the identity that the operation asks for.
    Authorization,
    /// The borrower has no credit line.
    NotFound,
    /// The borrower already has a credit line.
    AlreadyExists,
    /// The draw is not positive, does not fit under the limit, or the line is
    /// not active.
    InsufficientLimit,
}

} // verus!
