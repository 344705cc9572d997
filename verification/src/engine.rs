use vstd::prelude::*;
use vstd::arithmetic::div_mod::lemma_multiply_divide_lt;
use vstd::arithmetic::mul::{lemma_mul_is_commutative, lemma_mul_strict_inequality, lemma_mul_upper_bound};
use crate::errors::ErrorCode;
use crate::laws::{lemma_claimable_le_remaining, lemma_repeat_withdrawal_claims_nothing};
use crate::stream::{claimable_amount, AccountId, VestingAccount};

verus! {

/// Validates the creation parameters and materializes a new stream record
/// with nothing withdrawn yet. Each precondition is checked before any
/// effect and reported with its own error, in this order: a zero amount,
/// an empty or inverted time range, a negative cliff. The caller moves the
/// principal into custody only once this returns `Ok`, so that a failed
/// transfer leaves no record behind.
pub fn initialize_stream(
    sender: AccountId,
    beneficiary: AccountId,
    mint: AccountId,
    vault: AccountId,
    bump: u8,
    total_amount: u64,
    start_time: i64,
    end_time: i64,
    cliff_duration: i64,
) -> (r: Result<VestingAccount, ErrorCode>)
    ensures
        match r {
            Ok(account) => {
                &&& total_amount > 0
                &&& end_time > start_time
                &&& cliff_duration >= 0
                &&& account == (VestingAccount {
                    sender,
                    beneficiary,
                    mint,
                    vault,
                    total_amount,
                    start_time,
                    end_time,
                    cliff_duration,
                    amount_withdrawn: 0u64,
                    bump,
                })
                &&& account.wf()
            },
            Err(e) => {
                &&& !(total_amount > 0 && end_time > start_time && cliff_duration >= 0)
                &&& (e == ErrorCode::InvalidAmount <==> total_amount == 0)
                &&& (e == ErrorCode::InvalidTimeRange <==> total_amount > 0 && end_time
                    <= start_time)
                &&& (e == ErrorCode::InvalidCliffDuration <==> total_amount > 0 && end_time
                    > start_time && cliff_duration < 0)
            },
        },
{
    if total_amount == 0 {
        return Err(ErrorCode::InvalidAmount);
    }
    if end_time <= start_time {
        return Err(ErrorCode::InvalidTimeRange);
    }
    if cliff_duration < 0 {
        return Err(ErrorCode::InvalidCliffDuration);
    }
    Ok(
        VestingAccount {
            sender,
            beneficiary,
            mint,
            vault,
            total_amount,
            start_time,
            end_time,
            cliff_duration,
            amount_withdrawn: 0,
            bump,
        },
    )
}

/// Computes the claimable amount of a valid stream state at instant
/// `current_time`, exactly as [`claimable_amount`] describes it: zero
/// before the cliff elapses, the remaining balance from the end time on,
/// and in between the elapsed share of the principal, truncated downward,
/// minus what was already withdrawn. The product is taken in a widened
/// domain, so the only overflow that can occur is in the cliff instant
/// `start_time + cliff_duration` itself, reported as `MathOverflow`.
pub fn calculate_claimable_amount(
    total_amount: u64,
    start_time: i64,
    end_time: i64,
    cliff_duration: i64,
    amount_withdrawn: u64,
    current_time: i64,
) -> (r: Result<u64, ErrorCode>)
    requires
        total_amount > 0,
        end_time > start_time,
        cliff_duration >= 0,
        amount_withdrawn <= total_amount,
    ensures
        match r {
            Ok(c) => {
                &&& start_time + cliff_duration <= i64::MAX
                &&& c == claimable_amount(
                    total_amount as int,
                    start_time as int,
                    end_time as int,
                    cliff_duration as int,
                    amount_withdrawn as int,
                    current_time as int,
                )
            },
            Err(e) => {
                &&& e == ErrorCode::MathOverflow
                &&& start_time + cliff_duration > i64::MAX
            },
        },
{
    let cliff_end: i64 = match start_time.checked_add(cliff_duration) {
        Some(v) => v,
        None => {
            return Err(ErrorCode::MathOverflow);
        },
    };
    if current_time < cliff_end {
        return Ok(0);
    }
    // Defensive: unreachable while the cliff is non-negative, since passing
    // the cliff check already implies `current_time >= start_time`; kept so
    // the formula stays safe if cliff semantics are ever relaxed.
    if current_time < start_time {
        return Ok(0);
    }
    if current_time >= end_time {
        return Ok(total_amount.saturating_sub(amount_withdrawn));
    }
    assert(start_time <= current_time < end_time);
    assert(0 <= current_time - start_time < end_time - start_time <= u64::MAX);
    let elapsed: u64 = ((current_time as i128) - (start_time as i128)) as u64;
    let duration: u64 = ((end_time as i128) - (start_time as i128)) as u64;
    assert(elapsed == current_time - start_time);
    assert(duration == end_time - start_time);
    proof {
        lemma_mul_upper_bound(
            total_amount as int,
            u64::MAX as int,
            elapsed as int,
            u64::MAX as int,
        );
        lemma_mul_strict_inequality(elapsed as int, duration as int, total_amount as int);
        lemma_mul_is_commutative(total_amount as int, elapsed as int);
        lemma_multiply_divide_lt(
            total_amount as int * elapsed as int,
            duration as int,
            total_amount as int,
        );
    }
    let vested_wide: u128 = (total_amount as u128) * (elapsed as u128) / (duration as u128);
    assert(vested_wide < total_amount);
    let vested: u64 = vested_wide as u64;
    Ok(vested.saturating_sub(amount_withdrawn))
}

/// Executes the ledger side of a withdrawal at instant `current_time`
/// against a stream whose custody account holds `vault_amount`: computes
/// the claimable amount, requires it to be positive and covered by the
/// custody balance, and only then increases `amount_withdrawn` by exactly
/// that amount. On any error the record is left untouched, and each error
/// is tied to exactly the inputs that produce it. The caller moves the
/// tokens out of custody between staging this update and committing it,
/// so a failed transfer never leaves the ledger ahead of the funds.
pub fn withdraw(account: &mut VestingAccount, vault_amount: u64, current_time: i64) -> (r:
    Result<u64, ErrorCode>)
    requires
        old(account).wf(),
    ensures
        match r {
            Ok(paid) => {
                &&& old(account).spec_cliff_end() <= i64::MAX
                &&& paid == old(account).spec_claimable(current_time as int)
                &&& paid > 0
                &&& vault_amount >= paid
                &&& *final(account) == (VestingAccount {
                    amount_withdrawn: (old(account).amount_withdrawn + paid) as u64,
                    ..*old(account)
                })
                &&& final(account).wf()
                &&& final(account).spec_claimable(current_time as int) == 0
            },
            Err(e) => {
                &&& *final(account) == *old(account)
                &&& (e == ErrorCode::MathOverflow || e == ErrorCode::NothingToWithdraw
                    || e == ErrorCode::InsufficientVaultFunds)
                &&& (e == ErrorCode::MathOverflow <==> old(account).spec_cliff_end()
                    > i64::MAX)
                &&& (e == ErrorCode::NothingToWithdraw <==> old(account).spec_cliff_end()
                    <= i64::MAX && old(account).spec_claimable(current_time as int) == 0)
                &&& (e == ErrorCode::InsufficientVaultFunds <==> old(
                    account,
                ).spec_cliff_end() <= i64::MAX && old(account).spec_claimable(
                    current_time as int,
                ) > 0 && vault_amount < old(account).spec_claimable(current_time as int))
            },
        },
{
    let claimable: u64 = match calculate_claimable_amount(
        account.total_amount,
        account.start_time,
        account.end_time,
        account.cliff_duration,
        account.amount_withdrawn,
        current_time,
    ) {
        Ok(c) => c,
        Err(e) => {
            return Err(e);
        },
    };
    if claimable == 0 {
        return Err(ErrorCode::NothingToWithdraw);
    }
    if vault_amount < claimable {
        return Err(ErrorCode::InsufficientVaultFunds);
    }
    proof {
        lemma_claimable_le_remaining(
            account.total_amount as int,
            account.start_time as int,
            account.end_time as int,
            account.cliff_duration as int,
            account.amount_withdrawn as int,
            current_time as int,
        );
    }
    let new_withdrawn: u64 = match account.amount_withdrawn.checked_add(claimable) {
        Some(v) => v,
        None => {
            // Proved unreachable: the claimable amount never exceeds
            // `total_amount - amount_withdrawn`, so the sum fits.
            return Err(ErrorCode::MathOverflow);
        },
    };
    account.amount_withdrawn = new_withdrawn;
    proof {
        lemma_repeat_withdrawal_claims_nothing(*old(account), *account, current_time as int);
    }
    Ok(claimable)
}

} // verus!
