use vstd::prelude::*;

verus! {

/// Why an operation was refused. A refusal is final for the whole operation:
/// nothing of it is to be stored, and no tokens are to be moved.
#[derive(Clone, Copy, Debug, PartialEq, Eq, Structural)]
pub enum StakeError {
    /// The caller is not the staker that the position has on record.
    KeyMismatch,
    /// The caller is not the farm's manager, or a record belongs to another
    /// farm or to another mint than the request names.
    Unauthorized,
    /// The mint that the request names is not the one on record.
    MintMismatch,
    /// The lock period of the position is not over yet.
    InvalidUnstake,
    /// The token account to be debited holds less than the amount.
    InsufficientFunds,
    /// A record is stored already at the address where one was to be created.
    DuplicateRecord,
}

} // verus!
