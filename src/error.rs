use vstd::prelude::*;

verus! {

/// The ways an operation on a pool or a stake record can be refused.
#[derive(Clone, Copy, Debug, PartialEq, Eq, Structural)]
pub enum PoolError {
    TokenMintToFailed,
    TokenSetAuthorityFailed,
    TokenTransferFailed,
    InvalidTokenAccount,
    InvalidTokenMint,
    InvalidMetadata,
    InvalidStakeData,
    InvalidTime,
    InvalidPeriod,
    AlreadyUnstaked,
}

impl PoolError {
    /// A short human-readable description of the error.
    pub fn message(&self) -> (r: &'static str) {
        match self {
            PoolError::TokenMintToFailed => "Token mint to failed",
            PoolError::TokenSetAuthorityFailed => "Token set authority failed",
            PoolError::TokenTransferFailed => "Token transfer failed",
            PoolError::InvalidTokenAccount => "Invalid token account",
            PoolError::InvalidTokenMint => "Invalid token mint",
            PoolError::InvalidMetadata => "Invalid metadata",
            PoolError::InvalidStakeData => "Invalid stakedata account",
            PoolError::InvalidTime => "Invalid time",
            PoolError::InvalidPeriod => "Invalid Period",
            PoolError::AlreadyUnstaked => "Already unstaked",
        }
    }
}

} // verus!
