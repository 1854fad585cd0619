//! The error taxonomy of the presale operations.

use vstd::prelude::*;

verus! {

/// Every way an operation can refuse to run. Each precondition of an
/// operation fails fast with exactly one of these; no partial state change is
/// ever committed alongside an error.
#[derive(Clone, Copy, Debug, PartialEq, Eq, Structural)]
pub enum PresaleError {
    /// The administrator has switched the sale off.
    PresaleNotActive,
    /// The clock is before the start of the sale window.
    PresaleNotStarted,
    /// The clock is past the end of the sale window.
    PresaleEnded,
    /// The sale window has not closed yet, so unsold tokens stay put.
    PresaleNotEnded,
    /// The purchase spends less settlement currency than the minimum.
    BelowMinimumPurchase,
    /// The purchase spends more settlement currency than the maximum.
    AboveMaximumPurchase,
    /// Checked arithmetic overflowed the unsigned 64-bit domain.
    CalculationError,
    /// The caller is not the administrator recorded at creation.
    Unauthorized,
    /// An explicit withdrawal asks for more than the treasury holds.
    InsufficientBalance,
}

} // verus!
