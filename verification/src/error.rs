//! The reasons for which the ledger refuses an operation.

use vstd::prelude::*;

verus! {

/// Why an operation was refused. A refused operation never changes a record.
#[derive(Clone, Copy, Debug, PartialEq, Eq, Structural)]
pub enum ErrorCode {
    /// A record was to be created where one already exists.
    AlreadyInitialized,
    /// The caller is not the authority of the record it wants to change.
    Unauthorized,
    /// A transfer asks for more than the source account holds.
    InsufficientBalance,
    /// A balance or the total supply would exceed `u64::MAX`.
    Overflow,
}

} // verus!
