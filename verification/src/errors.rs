use vstd::prelude::*;

verus! {

/// Errors raised by the vesting engine. Each operation reports the first
/// violated precondition; once a withdrawal's checks pass, only an
/// arithmetic-overflow guard remains (proved unreachable for valid streams,
/// but still checked, never assumed).
#[derive(Clone, Copy, Debug, PartialEq, Eq, Structural)]
pub enum ErrorCode {
    /// Creation: the total amount must be greater than zero.
    InvalidAmount,
    /// Creation: the end time must lie strictly after the start time.
    InvalidTimeRange,
    /// Creation: the cliff duration must be non-negative.
    InvalidCliffDuration,
    /// Withdrawal: the claimable amount at the given instant is zero.
    NothingToWithdraw,
    /// Withdrawal: the custody balance is below the claimable amount.
    InsufficientVaultFunds,
    /// A checked arithmetic step overflowed.
    MathOverflow,
}

} // verus!
