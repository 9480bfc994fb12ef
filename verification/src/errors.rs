use vstd::prelude::*;

verus! {

/// The error taxonomy of the engine. Every failed operation returns one of
/// these kinds and mutates nothing.
#[derive(Clone, Copy, PartialEq, Eq, Structural, Debug)]
pub enum ErrorCode {
    /// The ledger was accessed before its creation operation ran.
    NotInitialized,
    /// A privileged operation was attempted by a caller other than the
    /// stored authority.
    Unauthorized,
    /// A lottery entry tier outside {1, 2, 4, 8}, or a liquidity deposit
    /// that is not single-sided.
    InvalidEntryTier,
    /// A transfer leg could not be applied (insufficient balance or a
    /// destination that cannot absorb the amount).
    TransferFailure,
    /// A second lottery entry by a participant who already holds a record.
    DuplicateRecord,
    /// A draw attempted while the round has zero entries.
    DivisionByZero,
}

} // verus!
