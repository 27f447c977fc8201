use vstd::prelude::*;
use crate::state::{Claim, Pool, Stake, StakeData, Unstake};
use crate::error::PoolError;
use crate::staking::{
    claim_amount, claim_error, claimed_record, elapsed_periods, staked_record, unlock_time,
    unstake_error, vested_periods,
};

verus! {

/// Vesting only grows with time and never passes the number of installments a
/// stake may claim.
pub proof fn lemma_vested_periods_monotone(pool: Pool, rec: StakeData, t1: int, t2: int)
    requires
        pool.wf(),
        t1 <= t2,
    ensures
        vested_periods(pool, rec, t1) <= vested_periods(pool, rec, t2),
        vested_periods(pool, rec, t2) <= pool.withdrawable,
{
    let p = pool.period as int;
    let d1 = t1 - rec.stake_time;
    let d2 = t2 - rec.stake_time;
    assert(d1 / p <= d2 / p) by (nonlinear_arith)
        requires
            d1 <= d2,
            p > 0,
    ;
    assert(elapsed_periods(pool, rec, t1) <= elapsed_periods(pool, rec, t2));
}

/// Across successive claims on a clock that does not go back, the paid count
/// never decreases and never exceeds `withdrawable`: after a successful claim
/// at `t1`, a claim at any `t2 >= t1` either succeeds and advances the count
/// from where it stands, or is refused because every installment is paid or
/// the accounts do not match; it is never refused for lack of vesting.
pub proof fn lemma_successive_claims(ctx: Claim, pool: Pool, rec: StakeData, t1: i64, t2: i64)
    requires
        pool.wf(),
        claim_error(ctx, pool, rec, t1) is None,
        t1 <= t2,
    ensures
        ({
            let rec1 = claimed_record(pool, rec, t1 as int);
            let rec2 = claimed_record(pool, rec1, t2 as int);
            &&& rec.withdrawn_number <= rec1.withdrawn_number <= pool.withdrawable
            &&& rec1.withdrawn_number == pool.withdrawable ==> claim_error(ctx, pool, rec1, t2)
                == Some(PoolError::InvalidTime)
            &&& rec1.withdrawn_number < pool.withdrawable ==> claim_error(ctx, pool, rec1, t2)
                is None
            &&& claim_error(ctx, pool, rec1, t2) is None ==> rec1.withdrawn_number
                <= rec2.withdrawn_number <= pool.withdrawable
        }),
{
    lemma_vested_periods_monotone(pool, rec, t1 as int, t2 as int);
    let rec1 = claimed_record(pool, rec, t1 as int);
    assert(elapsed_periods(pool, rec1, t2 as int) == elapsed_periods(pool, rec, t2 as int));
}

/// A claim repeated at the same instant pays nothing and leaves the record as
/// it was, unless every installment is already paid, in which case it is
/// refused with `InvalidTime`.
pub proof fn lemma_claim_twice_same_time(ctx: Claim, pool: Pool, rec: StakeData, now: i64)
    requires
        pool.wf(),
        claim_error(ctx, pool, rec, now) is None,
    ensures
        ({
            let rec1 = claimed_record(pool, rec, now as int);
            ||| rec1.withdrawn_number == pool.withdrawable && claim_error(ctx, pool, rec1, now)
                == Some(PoolError::InvalidTime)
            ||| {
                &&& claim_error(ctx, pool, rec1, now) is None
                &&& claim_amount(pool, rec1, now as int) == 0
                &&& claimed_record(pool, rec1, now as int) == rec1
            }
        }),
{
    let rec1 = claimed_record(pool, rec, now as int);
    lemma_vested_periods_monotone(pool, rec, now as int, now as int);
    assert(elapsed_periods(pool, rec1, now as int) == elapsed_periods(pool, rec, now as int));
    assert(vested_periods(pool, rec1, now as int) == rec1.withdrawn_number);
    assert(pool.reward_amount * 0int == 0);
}

/// An unstake is refused with `InvalidTime` whenever the clock stands before
/// the end of the schedule; once the record is live and belongs to the caller,
/// the pool and the accounts given, it succeeds exactly when the clock has
/// reached that end.
pub proof fn lemma_unstake_time_window(ctx: Unstake, pool: Pool, rec: StakeData, now: i64)
    requires
        !rec.unstaked,
    ensures
        now < unlock_time(pool, rec) ==> unstake_error(ctx, pool, rec, now) == Some(
            PoolError::InvalidTime,
        ),
        rec.owner == ctx.owner && rec.pool == ctx.pool && rec.account == ctx.source_nft_account
            && rec.account != ctx.dest_nft_account ==> (unstake_error(ctx, pool, rec, now) is None
            <==> now >= unlock_time(pool, rec)),
{
}

/// A token staked at `now` cannot be unstaked at that same instant with
/// `InvalidTime` as the reason exactly when the pool pays at least one
/// installment.
pub proof fn lemma_unstake_at_stake_time(
    stake_ctx: Stake,
    unstake_ctx: Unstake,
    pool: Pool,
    now: i64,
)
    requires
        pool.wf(),
    ensures
        (unstake_error(unstake_ctx, pool, staked_record(stake_ctx, now), now) == Some(
            PoolError::InvalidTime,
        )) <==> pool.withdrawable > 0,
{
    let p = pool.period as int;
    let w = pool.withdrawable as int;
    assert(w > 0 ==> p * w > 0) by (nonlinear_arith)
        requires
            p > 0,
            w >= 0,
    ;
    let rec = staked_record(stake_ctx, now);
    assert(unlock_time(pool, rec) == now + p * w);
    if w > 0 {
        assert(now < unlock_time(pool, rec));
    } else {
        assert(p * w == 0) by (nonlinear_arith)
            requires
                w == 0,
        ;
        assert(unstake_error(unstake_ctx, pool, rec, now) != Some(PoolError::InvalidTime));
    }
}

} // verus!
