use vstd::prelude::*;
use crate::accounts::{NftMetadata, TokenAccount, TokenMint};
use crate::address::Address;
use crate::error::PoolError;
use crate::state::{
    Claim, InitPool, Pool, SignerSeeds, Stake, StakeData, TokenTransferParams,
    TokenTransferParamsWithoutSeed, Unstake,
};

verus! {

// ---------------------------------------------------------------------------
// The rules, stated over plain values
// ---------------------------------------------------------------------------

/// The first error that `init_pool` meets, if any.
pub open spec fn init_pool_error(ctx: InitPool, reward_account: TokenAccount, period: i64) -> Option<
    PoolError,
> {
    if reward_account.owner != ctx.pool {
        Some(PoolError::InvalidTokenAccount)
    } else if reward_account.mint != ctx.reward_mint {
        Some(PoolError::InvalidTokenAccount)
    } else if period <= 0 {
        Some(PoolError::InvalidPeriod)
    } else {
        None
    }
}

/// The first error that `stake` meets, if any.
pub open spec fn stake_error(
    ctx: Stake,
    pool: Pool,
    mint: TokenMint,
    metadata: NftMetadata,
    source: TokenAccount,
    dest: TokenAccount,
) -> Option<PoolError> {
    if !mint.spec_is_unique() {
        Some(PoolError::InvalidTokenMint)
    } else if metadata.mint != ctx.nft_mint {
        Some(PoolError::InvalidMetadata)
    } else if source.owner == ctx.pool {
        Some(PoolError::InvalidTokenAccount)
    } else if source.mint != ctx.nft_mint {
        Some(PoolError::InvalidTokenAccount)
    } else if dest.owner != ctx.pool {
        Some(PoolError::InvalidTokenAccount)
    } else if metadata.symbol@ != pool.stake_collection@ {
        Some(PoolError::InvalidMetadata)
    } else {
        None
    }
}

/// The record that a successful `stake` at `now` creates.
pub open spec fn staked_record(ctx: Stake, now: i64) -> StakeData {
    StakeData {
        unstaked: false,
        owner: ctx.owner,
        pool: ctx.pool,
        account: ctx.dest_nft_account,
        stake_time: now,
        withdrawn_number: 0,
    }
}

/// The earliest time at which the staked token may leave custody: the end of
/// the whole installment schedule.
pub open spec fn unlock_time(pool: Pool, rec: StakeData) -> int {
    rec.stake_time + pool.period * pool.withdrawable
}

/// The first error that `unstake` meets, if any.
pub open spec fn unstake_error(ctx: Unstake, pool: Pool, rec: StakeData, now: i64) -> Option<
    PoolError,
> {
    if rec.unstaked {
        Some(PoolError::AlreadyUnstaked)
    } else if now < unlock_time(pool, rec) {
        Some(PoolError::InvalidTime)
    } else if rec.owner != ctx.owner {
        Some(PoolError::InvalidStakeData)
    } else if rec.pool != ctx.pool {
        Some(PoolError::InvalidStakeData)
    } else if rec.account != ctx.source_nft_account {
        Some(PoolError::InvalidTokenAccount)
    } else if rec.account == ctx.dest_nft_account {
        Some(PoolError::InvalidTokenAccount)
    } else {
        None
    }
}

/// Whole periods elapsed since the stake, rounded down (negative before it).
pub open spec fn elapsed_periods(pool: Pool, rec: StakeData, now: int) -> int
    recommends
        pool.wf(),
{
    (now - rec.stake_time) / (pool.period as int)
}

/// Elapsed periods, capped at the number of installments a stake may claim.
pub open spec fn vested_periods(pool: Pool, rec: StakeData, now: int) -> int
    recommends
        pool.wf(),
{
    let e = elapsed_periods(pool, rec, now);
    if e > pool.withdrawable {
        pool.withdrawable as int
    } else {
        e
    }
}

/// The first error that `claim` meets, if any.
pub open spec fn claim_error(ctx: Claim, pool: Pool, rec: StakeData, now: i64) -> Option<PoolError>
    recommends
        pool.wf(),
{
    if rec.owner != ctx.owner {
        Some(PoolError::InvalidStakeData)
    } else if rec.pool != ctx.pool {
        Some(PoolError::InvalidStakeData)
    } else if rec.withdrawn_number >= pool.withdrawable {
        Some(PoolError::InvalidTime)
    } else if pool.reward_account != ctx.source_reward_account {
        Some(PoolError::InvalidTokenAccount)
    } else if pool.reward_account == ctx.dest_reward_account {
        Some(PoolError::InvalidTokenAccount)
    } else if vested_periods(pool, rec, now as int) < rec.withdrawn_number {
        Some(PoolError::InvalidTime)
    } else {
        None
    }
}

/// The reward that a claim at `now` pays: one `reward_amount` for each vested
/// period not yet paid.
pub open spec fn claim_amount(pool: Pool, rec: StakeData, now: int) -> int
    recommends
        pool.wf(),
{
    pool.reward_amount * (vested_periods(pool, rec, now) - rec.withdrawn_number)
}

/// The record after a successful claim at `now`: its paid count advanced to
/// the vested periods, everything else kept.
pub open spec fn claimed_record(pool: Pool, rec: StakeData, now: int) -> StakeData
    recommends
        pool.wf(),
{
    StakeData { withdrawn_number: vested_periods(pool, rec, now) as u8, ..rec }
}

/// The payout of a claim at `now` fits in a token amount.
pub open spec fn claim_amount_fits(ctx: Claim, pool: Pool, rec: StakeData, now: i64) -> bool {
    claim_error(ctx, pool, rec, now) is None ==> claim_amount(pool, rec, now as int) <= u64::MAX
}

/// The seeds that let the pool's derived authority sign.
pub open spec fn pool_seeds(pool: Pool) -> SignerSeeds {
    SignerSeeds { rand: pool.rand, bump: pool.bump }
}

// ---------------------------------------------------------------------------
// The operations
// ---------------------------------------------------------------------------

/// Creates a pool. The reward account must already belong to the pool's
/// authority and hold the reward mint; the period must be positive. No value
/// moves.
pub fn init_pool(
    ctx: &InitPool,
    reward_account: &TokenAccount,
    bump: u8,
    reward_amount: u64,
    period: i64,
    withdrawable: u8,
    stake_collection: String,
) -> (r: Result<Pool, PoolError>)
    ensures
        r is Err <==> init_pool_error(*ctx, *reward_account, period) is Some,
        r matches Err(e) ==> init_pool_error(*ctx, *reward_account, period) == Some(e),
        r matches Ok(p) ==> {
            &&& p.wf()
            &&& p.owner == ctx.owner
            &&& p.rand == ctx.rand
            &&& p.reward_mint == ctx.reward_mint
            &&& p.reward_account == ctx.reward_account
            &&& p.reward_amount == reward_amount
            &&& p.period == period
            &&& p.withdrawable == withdrawable
            &&& p.stake_collection@ == stake_collection@
            &&& p.bump == bump
        },
{
    if reward_account.owner != ctx.pool {
        return Err(PoolError::InvalidTokenAccount);
    }
    if reward_account.mint != ctx.reward_mint {
        return Err(PoolError::InvalidTokenAccount);
    }
    if period <= 0 {
        return Err(PoolError::InvalidPeriod);
    }
    Ok(
        Pool {
            owner: ctx.owner,
            rand: ctx.rand,
            reward_mint: ctx.reward_mint,
            reward_account: ctx.reward_account,
            reward_amount,
            period,
            withdrawable,
            stake_collection,
            bump,
        },
    )
}

/// Validates a deposit of a unique token into the pool's custody. On success
/// returns the one-token transfer that the depositor signs and the new record;
/// the caller stores the record only once the transfer has gone through.
pub fn stake(
    ctx: &Stake,
    pool: &Pool,
    mint: &TokenMint,
    metadata: &NftMetadata,
    source: &TokenAccount,
    dest: &TokenAccount,
    now: i64,
) -> (r: Result<(TokenTransferParamsWithoutSeed, StakeData), PoolError>)
    ensures
        r is Err <==> stake_error(*ctx, *pool, *mint, *metadata, *source, *dest) is Some,
        r matches Err(e) ==> stake_error(*ctx, *pool, *mint, *metadata, *source, *dest) == Some(e),
        r matches Ok((t, rec)) ==> {
            &&& t.source == ctx.source_nft_account
            &&& t.destination == ctx.dest_nft_account
            &&& t.authority == ctx.owner
            &&& t.amount == 1
            &&& rec == staked_record(*ctx, now)
        },
{
    if !mint.is_unique() {
        return Err(PoolError::InvalidTokenMint);
    }
    if metadata.mint != ctx.nft_mint {
        return Err(PoolError::InvalidMetadata);
    }
    if source.owner == ctx.pool {
        return Err(PoolError::InvalidTokenAccount);
    }
    if source.mint != ctx.nft_mint {
        return Err(PoolError::InvalidTokenAccount);
    }
    if dest.owner != ctx.pool {
        return Err(PoolError::InvalidTokenAccount);
    }
    if metadata.symbol != pool.stake_collection {
        return Err(PoolError::InvalidMetadata);
    }
    let transfer = TokenTransferParamsWithoutSeed {
        source: ctx.source_nft_account,
        destination: ctx.dest_nft_account,
        amount: 1,
        authority: ctx.owner,
    };
    let rec = StakeData {
        unstaked: false,
        owner: ctx.owner,
        pool: ctx.pool,
        account: ctx.dest_nft_account,
        stake_time: now,
        withdrawn_number: 0,
    };
    Ok((transfer, rec))
}

/// Validates the return of a staked token once its whole schedule has
/// elapsed. On success returns the one-token transfer out of custody, signed
/// by the pool's derived authority, and the record marked unstaked.
pub fn unstake(ctx: &Unstake, pool: &Pool, stake_data: &StakeData, now: i64) -> (r: Result<
    (TokenTransferParams, StakeData),
    PoolError,
>)
    ensures
        r is Err <==> unstake_error(*ctx, *pool, *stake_data, now) is Some,
        r matches Err(e) ==> unstake_error(*ctx, *pool, *stake_data, now) == Some(e),
        r matches Ok((t, rec)) ==> {
            &&& t.source == ctx.source_nft_account
            &&& t.destination == ctx.dest_nft_account
            &&& t.authority == ctx.pool
            &&& t.authority_signer_seeds == pool_seeds(*pool)
            &&& t.amount == 1
            &&& rec == StakeData { unstaked: true, ..*stake_data }
        },
{
    if stake_data.unstaked {
        return Err(PoolError::AlreadyUnstaked);
    }
    assert(-0x8000_0000_0000_0000 * 0xff <= pool.period * pool.withdrawable <= 0x7fff_ffff_ffff_ffff * 0xff) by (nonlinear_arith)
        requires
            -0x8000_0000_0000_0000 <= pool.period <= 0x7fff_ffff_ffff_ffff,
            0 <= pool.withdrawable <= 0xff,
    ;
    let schedule: i128 = pool.period as i128 * pool.withdrawable as i128;
    if (now as i128) < stake_data.stake_time as i128 + schedule {
        return Err(PoolError::InvalidTime);
    }
    if stake_data.owner != ctx.owner {
        return Err(PoolError::InvalidStakeData);
    }
    if stake_data.pool != ctx.pool {
        return Err(PoolError::InvalidStakeData);
    }
    if stake_data.account != ctx.source_nft_account {
        return Err(PoolError::InvalidTokenAccount);
    }
    if stake_data.account == ctx.dest_nft_account {
        return Err(PoolError::InvalidTokenAccount);
    }
    let transfer = TokenTransferParams {
        source: ctx.source_nft_account,
        destination: ctx.dest_nft_account,
        amount: 1,
        authority: ctx.pool,
        authority_signer_seeds: SignerSeeds { rand: pool.rand, bump: pool.bump },
    };
    let mut rec = *stake_data;
    rec.unstaked = true;
    Ok((transfer, rec))
}

/// Validates a reward claim. On success returns the transfer of one
/// `reward_amount` for each newly vested period out of the reward reserve,
/// signed by the pool's derived authority, and the record with its paid count
/// advanced to the vested periods.
pub fn claim(ctx: &Claim, pool: &Pool, stake_data: &StakeData, now: i64) -> (r: Result<
    (TokenTransferParams, StakeData),
    PoolError,
>)
    requires
        pool.wf(),
        claim_amount_fits(*ctx, *pool, *stake_data, now),
    ensures
        r is Err <==> claim_error(*ctx, *pool, *stake_data, now) is Some,
        r matches Err(e) ==> claim_error(*ctx, *pool, *stake_data, now) == Some(e),
        r matches Ok((t, rec)) ==> {
            &&& t.source == ctx.source_reward_account
            &&& t.destination == ctx.dest_reward_account
            &&& t.authority == ctx.pool
            &&& t.authority_signer_seeds == pool_seeds(*pool)
            &&& t.amount == claim_amount(*pool, *stake_data, now as int)
            &&& t.amount == pool.reward_amount * (rec.withdrawn_number - stake_data.withdrawn_number)
            &&& rec.withdrawn_number == vested_periods(*pool, *stake_data, now as int)
            &&& stake_data.withdrawn_number <= rec.withdrawn_number <= pool.withdrawable
            &&& rec == claimed_record(*pool, *stake_data, now as int)
        },
{
    if stake_data.owner != ctx.owner {
        return Err(PoolError::InvalidStakeData);
    }
    if stake_data.pool != ctx.pool {
        return Err(PoolError::InvalidStakeData);
    }
    if stake_data.withdrawn_number >= pool.withdrawable {
        return Err(PoolError::InvalidTime);
    }
    if pool.reward_account != ctx.source_reward_account {
        return Err(PoolError::InvalidTokenAccount);
    }
    if pool.reward_account == ctx.dest_reward_account {
        return Err(PoolError::InvalidTokenAccount);
    }
    let vested: u8 = match vested_at(pool, stake_data, now) {
        Some(v) if v >= stake_data.withdrawn_number => v,
        _ => return Err(PoolError::InvalidTime),
    };
    let paid: u8 = vested - stake_data.withdrawn_number;
    let amount: u64 = pool.reward_amount * paid as u64;
    let transfer = TokenTransferParams {
        source: ctx.source_reward_account,
        destination: ctx.dest_reward_account,
        amount,
        authority: ctx.pool,
        authority_signer_seeds: SignerSeeds { rand: pool.rand, bump: pool.bump },
    };
    let mut rec = *stake_data;
    rec.withdrawn_number = vested;
    Ok((transfer, rec))
}

/// The vested periods at `now`, or `None` before the stake, when no count of
/// periods has elapsed.
fn vested_at(pool: &Pool, stake_data: &StakeData, now: i64) -> (r: Option<u8>)
    requires
        pool.wf(),
    ensures
        r is None <==> now < stake_data.stake_time,
        r is None ==> vested_periods(*pool, *stake_data, now as int) < 0,
        r matches Some(v) ==> v == vested_periods(*pool, *stake_data, now as int),
{
    if now < stake_data.stake_time {
        proof {
            lemma_negative_elapsed(*pool, *stake_data, now as int);
        }
        return None;
    }
    let since: u64 = (now as i128 - stake_data.stake_time as i128) as u64;
    let elapsed: u64 = since / (pool.period as u64);
    if elapsed > pool.withdrawable as u64 {
        Some(pool.withdrawable)
    } else {
        Some(elapsed as u8)
    }
}

/// Decides whether the reward a claim at `now` would pay fits in a token
/// amount; when it does, `claim` may be called.
pub fn claim_payout_fits(pool: &Pool, stake_data: &StakeData, now: i64) -> (r: bool)
    requires
        pool.wf(),
    ensures
        r == (vested_periods(*pool, *stake_data, now as int) >= stake_data.withdrawn_number
            ==> claim_amount(*pool, *stake_data, now as int) <= u64::MAX),
        r ==> forall|ctx: Claim| claim_amount_fits(ctx, *pool, *stake_data, now),
{
    let vested: u8 = match vested_at(pool, stake_data, now) {
        Some(v) if v >= stake_data.withdrawn_number => v,
        _ => return true,
    };
    let paid: u8 = vested - stake_data.withdrawn_number;
    assert(pool.reward_amount * paid <= 0xffff_ffff_ffff_ffff * 0xff) by (nonlinear_arith)
        requires
            pool.reward_amount <= 0xffff_ffff_ffff_ffff,
            paid <= 0xff,
    ;
    (pool.reward_amount as u128) * (paid as u128) <= u64::MAX as u128
}

/// Before the stake, the elapsed period count is negative.
pub proof fn lemma_negative_elapsed(pool: Pool, rec: StakeData, now: int)
    requires
        pool.wf(),
        now < rec.stake_time,
    ensures
        elapsed_periods(pool, rec, now) < 0,
{
    let d = now - rec.stake_time;
    let p = pool.period as int;
    assert(d / p < 0) by (nonlinear_arith)
        requires
            d < 0,
            p > 0,
    ;
}

} // verus!
