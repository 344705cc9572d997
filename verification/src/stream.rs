use vstd::prelude::*;

verus! {

/// An opaque, comparable identity handle (a 32-byte public key).
/// Immutable once stored in a stream record.
#[derive(Clone, Copy, Debug, PartialEq, Eq)]
pub struct AccountId(pub [u8; 32]);

/// The persisted record of one vesting agreement: pure data plus the
/// invariants in [`VestingAccount::wf`]. One record exists per
/// (sender, beneficiary, mint) triple; `amount_withdrawn` is the only
/// field that ever changes after creation, and it only grows.
#[derive(Clone, Copy, Debug, PartialEq, Eq)]
pub struct VestingAccount {
    /// Who deposited the principal.
    pub sender: AccountId,
    /// Who may withdraw as the schedule vests.
    pub beneficiary: AccountId,
    /// The fungible asset being vested.
    pub mint: AccountId,
    /// The external custody account holding the escrowed funds.
    pub vault: AccountId,
    /// Total principal deposited; strictly positive, immutable.
    pub total_amount: u64,
    /// Schedule start, seconds since an epoch.
    pub start_time: i64,
    /// Schedule end, strictly after the start.
    pub end_time: i64,
    /// Non-negative offset from `start_time` before which nothing vests.
    pub cliff_duration: i64,
    /// Paid out so far; never exceeds `total_amount`.
    pub amount_withdrawn: u64,
    /// Seed byte binding the custody authority to this record.
    pub bump: u8,
}

/// The instant at which the cliff elapses, in exact integer arithmetic.
pub open spec fn cliff_end_of(start_time: int, cliff_duration: int) -> int {
    start_time + cliff_duration
}

/// How much of the principal has vested at instant `now` under a linear
/// schedule with a cliff: nothing before the cliff elapses (or, defensively,
/// before the start), everything from the end time on, and otherwise the
/// elapsed share `floor(total * (now - start) / (end - start))`, truncated
/// downward so the schedule never pays out more than is proportionally earned.
pub open spec fn vested_amount(
    total_amount: int,
    start_time: int,
    end_time: int,
    cliff_duration: int,
    now: int,
) -> int {
    if now < cliff_end_of(start_time, cliff_duration) {
        0
    } else if now < start_time {
        0
    } else if now >= end_time {
        total_amount
    } else {
        (total_amount * (now - start_time)) / (end_time - start_time)
    }
}

/// What the beneficiary may withdraw at instant `now`: the vested amount
/// minus what was already withdrawn, saturating at zero.
pub open spec fn claimable_amount(
    total_amount: int,
    start_time: int,
    end_time: int,
    cliff_duration: int,
    amount_withdrawn: int,
    now: int,
) -> int {
    let vested = vested_amount(total_amount, start_time, end_time, cliff_duration, now);
    if vested >= amount_withdrawn {
        vested - amount_withdrawn
    } else {
        0
    }
}

impl VestingAccount {
    /// Record invariants, established at creation and preserved by every
    /// withdrawal: positive principal, a non-empty schedule, a non-negative
    /// cliff, and withdrawals never exceeding the principal.
    pub open spec fn wf(self) -> bool {
        &&& self.total_amount > 0
        &&& self.end_time > self.start_time
        &&& self.cliff_duration >= 0
        &&& self.amount_withdrawn <= self.total_amount
    }

    /// The instant at which this stream's cliff elapses.
    pub open spec fn spec_cliff_end(self) -> int {
        cliff_end_of(self.start_time as int, self.cliff_duration as int)
    }

    /// The vested amount of this stream at instant `now`.
    pub open spec fn spec_vested(self, now: int) -> int {
        vested_amount(
            self.total_amount as int,
            self.start_time as int,
            self.end_time as int,
            self.cliff_duration as int,
            now,
        )
    }

    /// The claimable amount of this stream at instant `now`.
    pub open spec fn spec_claimable(self, now: int) -> int {
        claimable_amount(
            self.total_amount as int,
            self.start_time as int,
            self.end_time as int,
            self.cliff_duration as int,
            self.amount_withdrawn as int,
            now,
        )
    }
}

} // verus!
