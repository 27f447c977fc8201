//! A staking-pool ledger: a pool owner locks a reward budget, depositors lock a
//! non-fungible token for a configured schedule, and rewards are released in
//! fixed installments as periods elapse.
//!
//! Every operation is a pure transition: it validates its inputs in a fixed
//! order, and on success returns the one token transfer to perform together
//! with the record to store once that transfer has gone through.

pub mod accounts;
pub mod address;
pub mod error;
pub mod instruction;
pub mod laws;
pub mod state;
pub mod staking;

pub use accounts::{NftMetadata, TokenAccount, TokenMint};
pub use address::Address;
pub use error::PoolError;
pub use instruction::{
    mint_to_instruction, set_owner_instruction, transfer_instruction,
    transfer_instruction_without_seed, AccountRole, TokenInstruction,
};
pub use state::{
    Claim, InitPool, Pool, SignerSeeds, Stake, StakeData, TokenTransferParams,
    TokenTransferParamsWithoutSeed, Unstake,
};
pub use staking::{claim, claim_payout_fits, init_pool, stake, unstake};
