use vstd::prelude::*;
use crate::address::Address;
use crate::error::PoolError;
use spl_token::solana_program::program_error::ProgramError;
use spl_token::solana_program::program_pack::Pack;
use metaplex_token_metadata::state::{Key, Metadata, MAX_METADATA_LEN};

verus! {

/// Byte length of a token account's data.
pub const TOKEN_ACCOUNT_LEN: usize = 165;

/// Byte length of a mint's data.
pub const MINT_LEN: usize = 82;

/// Byte length of a token-metadata record.
pub const METADATA_LEN: usize = 679;

/// What the staking rules read of a token account.
#[derive(Clone, Copy, Debug, PartialEq, Eq)]
pub struct TokenAccount {
    pub mint: Address,
    pub owner: Address,
    pub amount: u64,
}

/// What the staking rules read of a mint.
#[derive(Clone, Copy, Debug, PartialEq, Eq)]
pub struct TokenMint {
    pub supply: u64,
    pub decimals: u8,
}

/// What the staking rules read of a token's metadata record.
#[derive(Clone, Debug, PartialEq, Eq)]
pub struct NftMetadata {
    pub mint: Address,
    pub symbol: String,
}

#[verifier::external_type_specification]
#[verifier::external_body]
pub struct ExProgramError(ProgramError);

/// The little-endian integer held by eight bytes from `at` on.
pub open spec fn le_u64_at(s: Seq<u8>, at: int) -> int {
    s[at] + 0x100 * s[at + 1] + 0x1_0000 * s[at + 2] + 0x100_0000 * s[at + 3]
        + 0x1_0000_0000 * s[at + 4] + 0x100_0000_0000 * s[at + 5]
        + 0x1_0000_0000_0000 * s[at + 6] + 0x100_0000_0000_0000 * s[at + 7]
}

/// The four-byte tag of an optional field, at `at`, reads "absent" or "present".
pub open spec fn option_tag_ok(s: Seq<u8>, at: int) -> bool {
    &&& s[at] == 0 || s[at] == 1
    &&& s[at + 1] == 0
    &&& s[at + 2] == 0
    &&& s[at + 3] == 0
}

/// The tagged fields of token-account data hold values that decode.
pub open spec fn token_account_tags_ok(s: Seq<u8>) -> bool {
    &&& option_tag_ok(s, 72)
    &&& s[108] <= 2
    &&& option_tag_ok(s, 109)
    &&& option_tag_ok(s, 129)
}

/// The tagged fields of mint data hold values that decode.
pub open spec fn mint_tags_ok(s: Seq<u8>) -> bool {
    &&& option_tag_ok(s, 0)
    &&& s[45] <= 1
    &&& option_tag_ok(s, 46)
}

/// The symbol that a metadata record's data decodes to, if it decodes.
pub uninterp spec fn metadata_symbol(data: Seq<u8>) -> Option<Seq<char>>;

/// Relies on spl_token's `Pack::unpack_from_slice` for `state::Account`: mint,
/// owner and amount sit at bytes 0, 32 and 64; the optional fields' tags and
/// the state byte must decode. It indexes the first 165 bytes.
#[verifier::external_body]
fn unpack_token_account(data: &[u8]) -> (r: Result<TokenAccount, ProgramError>)
    requires
        data@.len() >= TOKEN_ACCOUNT_LEN,
    ensures
        r is Ok <==> token_account_tags_ok(data@),
        r matches Ok(a) ==> {
            &&& a.mint@ == data@.subrange(0, 32)
            &&& a.owner@ == data@.subrange(32, 64)
            &&& a.amount == le_u64_at(data@, 64)
        },
{
    match spl_token::state::Account::unpack_from_slice(data) {
        Ok(a) => Ok(TokenAccount {
            mint: Address::new(a.mint.to_bytes()),
            owner: Address::new(a.owner.to_bytes()),
            amount: a.amount,
        }),
        Err(e) => Err(e),
    }
}

/// Relies on spl_token's `Pack::unpack_from_slice` for `state::Mint`: supply
/// and decimals sit at bytes 36 and 44; the optional fields' tags and the
/// initialised flag must decode. It indexes the first 82 bytes.
#[verifier::external_body]
fn unpack_mint(data: &[u8]) -> (r: Result<TokenMint, ProgramError>)
    requires
        data@.len() >= MINT_LEN,
    ensures
        r is Ok <==> mint_tags_ok(data@),
        r matches Ok(m) ==> {
            &&& m.supply == le_u64_at(data@, 36)
            &&& m.decimals == data@[44]
        },
{
    match spl_token::state::Mint::unpack_from_slice(data) {
        Ok(m) => Ok(TokenMint { supply: m.supply, decimals: m.decimals }),
        Err(e) => Err(e),
    }
}

/// Relies on metaplex_token_metadata's `utils::try_from_slice_checked` for
/// `state::Metadata` (what `Metadata::from_account_info` calls): it accepts
/// data of exactly 679 bytes whose first byte is 0 or the metadata key 4, then
/// decodes the record; the mint sits at byte 33. It reads the first byte first.
#[verifier::external_body]
fn deserialize_metadata(data: &[u8]) -> (r: Result<NftMetadata, ProgramError>)
    requires
        data@.len() >= 1,
    ensures
        r is Ok <==> metadata_symbol(data@) is Some,
        r matches Ok(m) ==> {
            &&& data@.len() == METADATA_LEN
            &&& data@[0] == 0 || data@[0] == 4
            &&& m.mint@ == data@.subrange(33, 65)
            &&& m.symbol@ == metadata_symbol(data@)->0
        },
{
    match metaplex_token_metadata::utils::try_from_slice_checked::<Metadata>(
        data,
        Key::MetadataV1,
        MAX_METADATA_LEN,
    ) {
        Ok(m) => Ok(NftMetadata { mint: Address::new(m.mint.to_bytes()), symbol: m.data.symbol }),
        Err(e) => Err(e),
    }
}

impl TokenAccount {
    /// Reads a token account from its data; data that is too short or does
    /// not decode is an `InvalidTokenAccount`.
    pub fn unpack(data: &[u8]) -> (r: Result<TokenAccount, PoolError>)
        ensures
            r is Ok <==> data@.len() >= TOKEN_ACCOUNT_LEN && token_account_tags_ok(data@),
            r matches Err(e) ==> e == PoolError::InvalidTokenAccount,
            r matches Ok(a) ==> {
                &&& a.mint@ == data@.subrange(0, 32)
                &&& a.owner@ == data@.subrange(32, 64)
                &&& a.amount == le_u64_at(data@, 64)
            },
    {
        if data.len() < TOKEN_ACCOUNT_LEN {
            return Err(PoolError::InvalidTokenAccount);
        }
        match unpack_token_account(data) {
            Ok(a) => Ok(a),
            Err(_) => Err(PoolError::InvalidTokenAccount),
        }
    }
}

impl TokenMint {
    /// Reads a mint from its data; data that is too short or does not decode
    /// is an `InvalidTokenMint`.
    pub fn unpack(data: &[u8]) -> (r: Result<TokenMint, PoolError>)
        ensures
            r is Ok <==> data@.len() >= MINT_LEN && mint_tags_ok(data@),
            r matches Err(e) ==> e == PoolError::InvalidTokenMint,
            r matches Ok(m) ==> {
                &&& m.supply == le_u64_at(data@, 36)
                &&& m.decimals == data@[44]
            },
    {
        if data.len() < MINT_LEN {
            return Err(PoolError::InvalidTokenMint);
        }
        match unpack_mint(data) {
            Ok(m) => Ok(m),
            Err(_) => Err(PoolError::InvalidTokenMint),
        }
    }

    /// A mint is a unique token when it has no decimals and a supply of one.
    pub open spec fn spec_is_unique(&self) -> bool {
        self.decimals == 0 && self.supply == 1
    }

    pub fn is_unique(&self) -> (r: bool)
        ensures
            r == self.spec_is_unique(),
    {
        self.decimals == 0 && self.supply == 1
    }
}

impl NftMetadata {
    /// Reads a metadata record from its data; data that does not decode is an
    /// `InvalidMetadata`.
    pub fn unpack(data: &[u8]) -> (r: Result<NftMetadata, PoolError>)
        ensures
            r is Ok <==> data@.len() >= 1 && metadata_symbol(data@) is Some,
            r matches Err(e) ==> e == PoolError::InvalidMetadata,
            r matches Ok(m) ==> {
                &&& data@.len() == METADATA_LEN
                &&& m.mint@ == data@.subrange(33, 65)
                &&& m.symbol@ == metadata_symbol(data@)->0
            },
    {
        if data.len() < 1 {
            return Err(PoolError::InvalidMetadata);
        }
        match deserialize_metadata(data) {
            Ok(m) => Ok(m),
            Err(_) => Err(PoolError::InvalidMetadata),
        }
    }
}

} // verus!
