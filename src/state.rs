use vstd::prelude::*;
use crate::address::Address;

verus! {

/// One staking program instance: its configuration and reward schedule.
#[derive(Clone, Debug)]
pub struct Pool {
    pub owner: Address,
    /// Seed from which the pool's signing authority is derived.
    pub rand: Address,
    pub reward_mint: Address,
    /// The account that holds the pool's reward budget.
    pub reward_account: Address,
    /// Paid per completed period, per stake.
    pub reward_amount: u64,
    /// Length of one accrual window, in seconds.
    pub period: i64,
    /// Largest number of installments a single stake may ever claim.
    pub withdrawable: u8,
    /// Collection symbol that a staked token's metadata must carry.
    pub stake_collection: String,
    pub bump: u8,
}

impl Pool {
    /// A pool is well formed when its accrual window is positive.
    pub open spec fn wf(&self) -> bool {
        self.period > 0
    }
}

/// Bookkeeping for one deposited token.
#[derive(Clone, Copy, Debug, PartialEq, Eq)]
pub struct StakeData {
    pub unstaked: bool,
    pub owner: Address,
    pub pool: Address,
    /// The custody account that holds the staked token.
    pub account: Address,
    pub stake_time: i64,
    /// Number of reward periods already paid.
    pub withdrawn_number: u8,
}

/// The seeds from which the pool's signing authority is derived: handing them
/// to a transfer is what lets the pool authorise it without a stored key.
#[derive(Clone, Copy, Debug, PartialEq, Eq)]
pub struct SignerSeeds {
    pub rand: Address,
    pub bump: u8,
}

/// A token transfer to be signed by the pool's derived authority.
#[derive(Clone, Copy, Debug, PartialEq, Eq)]
pub struct TokenTransferParams {
    pub source: Address,
    pub destination: Address,
    pub amount: u64,
    pub authority: Address,
    pub authority_signer_seeds: SignerSeeds,
}

/// A token transfer authorised by a live signer.
#[derive(Clone, Copy, Debug, PartialEq, Eq)]
pub struct TokenTransferParamsWithoutSeed {
    pub source: Address,
    pub destination: Address,
    pub amount: u64,
    pub authority: Address,
}

/// Account identities handed to `init_pool`.
#[derive(Clone, Copy, Debug)]
pub struct InitPool {
    pub owner: Address,
    pub pool: Address,
    pub rand: Address,
    pub reward_mint: Address,
    pub reward_account: Address,
}

/// Account identities handed to `stake`.
#[derive(Clone, Copy, Debug)]
pub struct Stake {
    pub owner: Address,
    pub pool: Address,
    pub stake_data: Address,
    pub nft_mint: Address,
    pub metadata: Address,
    pub source_nft_account: Address,
    pub dest_nft_account: Address,
}

/// Account identities handed to `unstake`.
#[derive(Clone, Copy, Debug)]
pub struct Unstake {
    pub owner: Address,
    pub pool: Address,
    pub stake_data: Address,
    pub source_nft_account: Address,
    pub dest_nft_account: Address,
}

/// Account identities handed to `claim`.
#[derive(Clone, Copy, Debug)]
pub struct Claim {
    pub owner: Address,
    pub pool: Address,
    pub stake_data: Address,
    pub source_reward_account: Address,
    pub dest_reward_account: Address,
}

} // verus!
