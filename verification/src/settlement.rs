//! Settlement arithmetic: what the payee has earned and what returns to the payer.

use vstd::prelude::*;
use crate::state::{ErrorCode, StreamState};

verus! {

/// How a deposit is split when a stream is closed.
#[derive(Clone, Copy, Debug, PartialEq, Eq, Structural)]
pub struct Settlement {
    /// What the payee receives.
    pub payout: u64,
    /// What returns to the payer.
    pub refund: u64,
}

/// Seconds from `start_time` to `now`; a clock reading before the start counts as zero.
pub open spec fn elapsed_between(start_time: int, now: int) -> int {
    if now > start_time {
        now - start_time
    } else {
        0
    }
}

/// What accrues over `elapsed` seconds at `rate` per second, before the cap.
pub open spec fn earned_amount(elapsed: int, rate: int) -> int {
    elapsed * rate
}

/// The payee's share: what was earned, capped by the deposit.
pub open spec fn payout_amount(earned: int, deposit: int) -> int {
    if earned > deposit {
        deposit
    } else {
        earned
    }
}

/// The payer's share: what the payee did not receive.
pub open spec fn refund_amount(earned: int, deposit: int) -> int {
    deposit - payout_amount(earned, deposit)
}

/// The settlement of a deposit after `elapsed` seconds at `rate` per second.
///
/// It is refused when the earned amount leaves the unsigned 64-bit range,
/// whatever the deposit is.
pub open spec fn settlement_after(elapsed: int, rate: int, deposit: int) -> Result<
    (int, int),
    ErrorCode,
> {
    if earned_amount(elapsed, rate) > u64::MAX {
        Err(ErrorCode::MathOverflow)
    } else {
        Ok(
            (
                payout_amount(earned_amount(elapsed, rate), deposit),
                refund_amount(earned_amount(elapsed, rate), deposit),
            ),
        )
    }
}

/// The settlement of the stream `state` when it is closed at `now`.
pub open spec fn settlement_at(state: StreamState, now: i64) -> Result<(int, int), ErrorCode> {
    settlement_after(
        elapsed_between(state.start_time as int, now as int),
        state.rate_per_second as int,
        state.total_deposit as int,
    )
}

/// Whether `result` is the exact outcome `expected`.
pub open spec fn settles_as(result: Result<Settlement, ErrorCode>, expected: Result<(int, int), ErrorCode>) -> bool {
    match expected {
        Ok((payout, refund)) => result matches Ok(s) && s.payout == payout && s.refund == refund,
        Err(e) => result == Err::<Settlement, ErrorCode>(e),
    }
}

/// Seconds elapsed from `start_time` to `now`, floored at zero.
pub fn elapsed_seconds(start_time: i64, now: i64) -> (elapsed: u64)
    ensures
        elapsed == elapsed_between(start_time as int, now as int),
{
    if now <= start_time {
        0
    } else {
        let span: i128 = now as i128 - start_time as i128;
        span as u64
    }
}

/// Splits `deposit` after `elapsed` seconds at `rate` per second.
pub fn settle_elapsed(elapsed: u64, rate: u64, deposit: u64) -> (result: Result<
    Settlement,
    ErrorCode,
>)
    ensures
        settles_as(result, settlement_after(elapsed as int, rate as int, deposit as int)),
{
    match elapsed.checked_mul(rate) {
        None => Err(ErrorCode::MathOverflow),
        Some(earned) => {
            let payout: u64 = if earned > deposit {
                deposit
            } else {
                earned
            };
            Ok(Settlement { payout, refund: deposit - payout })
        },
    }
}

/// Settles the stream `state` at the clock reading `now`.
pub fn settle(state: &StreamState, now: i64) -> (result: Result<Settlement, ErrorCode>)
    ensures
        settles_as(result, settlement_at(*state, now)),
{
    let elapsed: u64 = elapsed_seconds(state.start_time, now);
    settle_elapsed(elapsed, state.rate_per_second, state.total_deposit)
}

/// A settlement splits the deposit exactly: unless the earned amount
/// overflows, the payee gets the earned amount capped by the deposit, the
/// payer gets the rest, and the two shares add up to the deposit. The payout
/// never exceeds the deposit.
pub proof fn lemma_settlement_splits_deposit(elapsed: u64, rate: u64, deposit: u64)
    requires
        elapsed * rate <= u64::MAX,
    ensures
        settlement_after(elapsed as int, rate as int, deposit as int) matches Ok((payout, refund))
            && {
            &&& payout == if elapsed * rate <= deposit {
                elapsed * rate
            } else {
                deposit as int
            }
            &&& refund == deposit - payout
            &&& payout + refund == deposit
            &&& 0 <= payout <= deposit
            &&& 0 <= refund <= deposit
        },
{
    assert(0 <= elapsed * rate) by (nonlinear_arith);
}

/// A settlement is refused exactly when the earned amount leaves the
/// unsigned 64-bit range, and then with `MathOverflow`.
pub proof fn lemma_settlement_refused_iff_overflow(elapsed: u64, rate: u64, deposit: u64)
    ensures
        settlement_after(elapsed as int, rate as int, deposit as int) is Err <==> elapsed * rate
            > u64::MAX,
        elapsed * rate > u64::MAX ==> settlement_after(elapsed as int, rate as int, deposit as int)
            == Err::<(int, int), ErrorCode>(ErrorCode::MathOverflow),
{
}

/// With no time elapsed the payee gets nothing and the payer gets the whole
/// deposit back, whatever the rate: overflow cannot occur.
pub proof fn lemma_no_time_full_refund(rate: u64, deposit: u64)
    ensures
        settlement_after(0, rate as int, deposit as int) == Ok::<(int, int), ErrorCode>(
            (0, deposit as int),
        ),
{
    assert(0 * rate == 0) by (nonlinear_arith);
}

/// A stream closed at or before its start refunds the whole deposit.
pub proof fn lemma_closed_at_start_full_refund(state: StreamState, now: i64)
    requires
        now <= state.start_time,
    ensures
        settlement_at(state, now) == Ok::<(int, int), ErrorCode>((0, state.total_deposit as int)),
{
    lemma_no_time_full_refund(state.rate_per_second, state.total_deposit);
}

/// Once the earned amount reaches the deposit without overflowing, the payee
/// gets exactly the deposit and nothing is refunded, however long the stream
/// ran.
pub proof fn lemma_long_run_pays_deposit(elapsed: u64, rate: u64, deposit: u64)
    requires
        deposit <= elapsed * rate <= u64::MAX,
    ensures
        settlement_after(elapsed as int, rate as int, deposit as int) == Ok::<
            (int, int),
            ErrorCode,
        >((deposit as int, 0)),
{
}

} // verus!
