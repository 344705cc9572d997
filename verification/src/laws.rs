use vstd::prelude::*;
use vstd::arithmetic::div_mod::{lemma_div_is_ordered, lemma_div_pos_is_pos, lemma_multiply_divide_lt};
use vstd::arithmetic::mul::{lemma_mul_is_commutative, lemma_mul_left_inequality, lemma_mul_nonnegative, lemma_mul_strict_inequality};
use crate::stream::{claimable_amount, vested_amount, VestingAccount};

verus! {

/// For a valid schedule the vested amount always lies between zero and the
/// total principal: the truncating interpolation can never exceed the
/// deposit, whatever the instant.
pub proof fn lemma_vested_bounds(
    total_amount: int,
    start_time: int,
    end_time: int,
    cliff_duration: int,
    now: int,
)
    requires
        total_amount > 0,
        end_time > start_time,
        cliff_duration >= 0,
    ensures
        0 <= vested_amount(total_amount, start_time, end_time, cliff_duration, now),
        vested_amount(total_amount, start_time, end_time, cliff_duration, now) <= total_amount,
{
    if now >= start_time + cliff_duration && now >= start_time && now < end_time {
        let elapsed = now - start_time;
        let duration = end_time - start_time;
        lemma_mul_nonnegative(total_amount, elapsed);
        lemma_div_pos_is_pos(total_amount * elapsed, duration);
        lemma_mul_strict_inequality(elapsed, duration, total_amount);
        lemma_mul_is_commutative(total_amount, elapsed);
        lemma_multiply_divide_lt(total_amount * elapsed, duration, total_amount);
    }
}

/// The claimable amount never exceeds what is still owed: for a valid
/// stream state, `0 <= claimable <= total - withdrawn`. This is the heart
/// of conservation: paying out the claimable amount can never push
/// `amount_withdrawn` past `total_amount`, nor drain the custody balance
/// below what the ledger still owes.
pub proof fn lemma_claimable_le_remaining(
    total_amount: int,
    start_time: int,
    end_time: int,
    cliff_duration: int,
    amount_withdrawn: int,
    now: int,
)
    requires
        total_amount > 0,
        end_time > start_time,
        cliff_duration >= 0,
        0 <= amount_withdrawn <= total_amount,
    ensures
        0 <= claimable_amount(
            total_amount,
            start_time,
            end_time,
            cliff_duration,
            amount_withdrawn,
            now,
        ) <= total_amount - amount_withdrawn,
{
    lemma_vested_bounds(total_amount, start_time, end_time, cliff_duration, now);
}

/// The vested amount never decreases as time advances.
pub proof fn lemma_vested_monotonic(
    total_amount: int,
    start_time: int,
    end_time: int,
    cliff_duration: int,
    now1: int,
    now2: int,
)
    requires
        total_amount > 0,
        end_time > start_time,
        cliff_duration >= 0,
        now1 <= now2,
    ensures
        vested_amount(total_amount, start_time, end_time, cliff_duration, now1)
            <= vested_amount(total_amount, start_time, end_time, cliff_duration, now2),
{
    lemma_vested_bounds(total_amount, start_time, end_time, cliff_duration, now1);
    lemma_vested_bounds(total_amount, start_time, end_time, cliff_duration, now2);
    if now1 >= start_time + cliff_duration && now1 >= start_time && now1 < end_time
        && now2 < end_time {
        let duration = end_time - start_time;
        lemma_mul_left_inequality(total_amount, now1 - start_time, now2 - start_time);
        lemma_div_is_ordered(
            total_amount * (now1 - start_time),
            total_amount * (now2 - start_time),
            duration,
        );
    }
}

/// Before the cliff elapses nothing is claimable, whatever has or has not
/// been withdrawn so far.
pub proof fn lemma_nothing_claimable_before_cliff(s: VestingAccount, now: int)
    requires
        s.wf(),
        now < s.spec_cliff_end(),
    ensures
        s.spec_claimable(now) == 0,
{
}

/// From the end time on (once the cliff has also elapsed), exactly the
/// remaining balance `total_amount - amount_withdrawn` is claimable.
/// The cliff proviso is needed because a cliff may outlast the schedule's
/// end, in which case nothing is claimable until the cliff elapses.
pub proof fn lemma_everything_claimable_after_end(s: VestingAccount, now: int)
    requires
        s.wf(),
        now >= s.end_time,
        now >= s.spec_cliff_end(),
    ensures
        s.spec_claimable(now) == s.total_amount - s.amount_withdrawn,
{
}

/// Monotonicity: for a fixed stream state, the claimable amount at an
/// earlier instant never exceeds the claimable amount at a later one.
pub proof fn lemma_claimable_monotonic(s: VestingAccount, now1: int, now2: int)
    requires
        s.wf(),
        now1 <= now2,
    ensures
        s.spec_claimable(now1) <= s.spec_claimable(now2),
{
    lemma_vested_monotonic(
        s.total_amount as int,
        s.start_time as int,
        s.end_time as int,
        s.cliff_duration as int,
        now1,
        now2,
    );
}

/// Conservation across one withdrawal: if the custody balance matches what
/// the ledger still owes (`vault == total - withdrawn`) and a withdrawal
/// pays out the claimable amount, the successor state `s2` again satisfies
/// `amount_withdrawn <= total_amount` and the custody balance again matches
/// what is owed. The property is inductive, so it holds after any sequence
/// of successful withdrawals starting from a freshly created stream.
pub proof fn lemma_withdrawal_conserves(
    s: VestingAccount,
    s2: VestingAccount,
    now: int,
    vault: int,
)
    requires
        s.wf(),
        vault == s.total_amount - s.amount_withdrawn,
        s2.total_amount == s.total_amount,
        s2.start_time == s.start_time,
        s2.end_time == s.end_time,
        s2.cliff_duration == s.cliff_duration,
        s2.amount_withdrawn == s.amount_withdrawn + s.spec_claimable(now),
    ensures
        s2.amount_withdrawn <= s2.total_amount,
        vault - s.spec_claimable(now) == s2.total_amount - s2.amount_withdrawn,
{
    lemma_claimable_le_remaining(
        s.total_amount as int,
        s.start_time as int,
        s.end_time as int,
        s.cliff_duration as int,
        s.amount_withdrawn as int,
        now,
    );
}

/// Idempotent safety: once a withdrawal has paid out the claimable amount
/// at instant `now`, the successor state `s2` has nothing claimable at that
/// same instant — a second withdrawal without the clock advancing finds
/// `amount_withdrawn` already caught up with the vested amount.
pub proof fn lemma_repeat_withdrawal_claims_nothing(
    s: VestingAccount,
    s2: VestingAccount,
    now: int,
)
    requires
        s.wf(),
        s2.total_amount == s.total_amount,
        s2.start_time == s.start_time,
        s2.end_time == s.end_time,
        s2.cliff_duration == s.cliff_duration,
        s2.amount_withdrawn == s.amount_withdrawn + s.spec_claimable(now),
    ensures
        s2.spec_claimable(now) == 0,
{
}

} // verus!
