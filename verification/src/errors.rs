//! Error codes reported by the Bridge Cards operations.

use vstd::prelude::*;

verus! {

/// Every failure an operation can report. Each operation's contract states
/// exactly which inputs produce which variant; on any error the permission
/// store is left unchanged.
#[derive(Clone, Copy, Debug, PartialEq, Eq, Structural)]
pub enum ErrorCode {
    /// The requested debit, added to the amount already transferred in the
    /// current period, would exceed the delegate's period transfer limit.
    ExceedsTransferLimitPerPeriod,
    /// The requested debit exceeds the delegate's per-transfer limit.
    ExceedsMaxTransferLimit,
    /// A caller-supplied record locator does not match the locator derived
    /// from the operation's scope, or it names a record that the operation
    /// refuses to touch.
    InvalidPda,
    /// The delegate has already admitted a debit in the current slot.
    ExceedsMaxTransactionsPerSlot,
    /// The caller's identity does not hold the authority the operation
    /// demands at its tier of the permission hierarchy.
    Unauthorized,
    /// The source and destination token accounts do not carry the asset the
    /// debit names.
    MintMismatch,
    /// The platform authority record already exists.
    AlreadyInitialized,
}

} // verus!
