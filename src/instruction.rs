use vstd::prelude::*;
use crate::accounts::le_u64_at;
use crate::address::Address;
use crate::state::{TokenTransferParams, TokenTransferParamsWithoutSeed};
use spl_token::solana_program::instruction::AccountMeta;
use spl_token::solana_program::program_error::ProgramError;
use spl_token::solana_program::pubkey::Pubkey;

verus! {

/// How an instruction uses one of the accounts it names.
#[derive(Clone, Copy, Debug, PartialEq, Eq)]
pub struct AccountRole {
    pub address: Address,
    pub is_signer: bool,
    pub is_writable: bool,
}

/// A token-program instruction, ready to be handed to the runtime.
#[derive(Clone, Debug, PartialEq, Eq)]
pub struct TokenInstruction {
    pub program_id: Address,
    pub accounts: Vec<AccountRole>,
    pub data: Vec<u8>,
}

/// The accounts of a transfer: the two token accounts written, the authority
/// signing.
pub open spec fn transfer_roles(source: Address, destination: Address, authority: Address) -> Seq<
    AccountRole,
> {
    seq![
        AccountRole { address: source, is_signer: false, is_writable: true },
        AccountRole { address: destination, is_signer: false, is_writable: true },
        AccountRole { address: authority, is_signer: true, is_writable: false },
    ]
}

/// The instruction data of a transfer of `amount`: the tag 3, then the amount
/// in eight little-endian bytes.
pub open spec fn is_transfer_data(data: Seq<u8>, amount: u64) -> bool {
    &&& data.len() == 9
    &&& data[0] == 3
    &&& le_u64_at(data, 1) == amount
}

/// Relies on spl_token's `instruction::transfer`, called with the token
/// program's own id and no multisig signers: its id check then passes, the
/// data is the packed `Transfer { amount }`, and the accounts are source and
/// destination (writable) and the authority (read-only, signing).
#[verifier::external_body]
fn build_transfer(source: &Address, destination: &Address, authority: &Address, amount: u64) -> (r:
    Result<TokenInstruction, ProgramError>)
    ensures
        r is Ok,
        r matches Ok(ix) ==> {
            &&& ix.accounts@ == transfer_roles(*source, *destination, *authority)
            &&& is_transfer_data(ix.data@, amount)
        },
{
    let ix = spl_token::instruction::transfer(
        &spl_token::id(),
        &Pubkey::new_from_array(source.bytes),
        &Pubkey::new_from_array(destination.bytes),
        &Pubkey::new_from_array(authority.bytes),
        &[],
        amount,
    )?;
    let role = |m: &AccountMeta| AccountRole {
        address: Address::new(m.pubkey.to_bytes()),
        is_signer: m.is_signer,
        is_writable: m.is_writable,
    };
    let program_id = Address::new(ix.program_id.to_bytes());
    Ok(TokenInstruction { program_id, accounts: ix.accounts.iter().map(role).collect(), data: ix.data })
}

/// The token-program instruction that carries out a transfer signed by the
/// pool's derived authority.
pub fn transfer_instruction(t: &TokenTransferParams) -> (r: TokenInstruction)
    ensures
        r.accounts@ == transfer_roles(t.source, t.destination, t.authority),
        is_transfer_data(r.data@, t.amount),
{
    match build_transfer(&t.source, &t.destination, &t.authority, t.amount) {
        Ok(ix) => ix,
        Err(_) => {
            proof {
                assert(false);
            }
            TokenInstruction { program_id: t.authority, accounts: Vec::new(), data: Vec::new() }
        },
    }
}

/// The token-program instruction that carries out a transfer signed by a live
/// signer.
pub fn transfer_instruction_without_seed(t: &TokenTransferParamsWithoutSeed) -> (r: TokenInstruction)
    ensures
        r.accounts@ == transfer_roles(t.source, t.destination, t.authority),
        is_transfer_data(r.data@, t.amount),
{
    match build_transfer(&t.source, &t.destination, &t.authority, t.amount) {
        Ok(ix) => ix,
        Err(_) => {
            proof {
                assert(false);
            }
            TokenInstruction { program_id: t.authority, accounts: Vec::new(), data: Vec::new() }
        },
    }
}

/// The accounts of a change of owner: the token account written, its current
/// owner signing.
pub open spec fn set_authority_roles(account: Address, owner: Address) -> Seq<AccountRole> {
    seq![
        AccountRole { address: account, is_signer: false, is_writable: true },
        AccountRole { address: owner, is_signer: true, is_writable: false },
    ]
}

/// The instruction data of a change of an account's owner to `new_owner`: the
/// tag 6, the owner authority kind 2, the "present" flag 1, then the new
/// owner's 32 bytes.
pub open spec fn is_set_owner_data(data: Seq<u8>, new_owner: Address) -> bool {
    &&& data.len() == 35
    &&& data[0] == 6
    &&& data[1] == 2
    &&& data[2] == 1
    &&& data.subrange(3, 35) == new_owner@
}

/// The accounts of a mint: the mint and the receiving account written, the
/// mint authority signing.
pub open spec fn mint_to_roles(mint: Address, account: Address, owner: Address) -> Seq<AccountRole> {
    seq![
        AccountRole { address: mint, is_signer: false, is_writable: true },
        AccountRole { address: account, is_signer: false, is_writable: true },
        AccountRole { address: owner, is_signer: true, is_writable: false },
    ]
}

/// The instruction data of a mint of `amount`: the tag 7, then the amount in
/// eight little-endian bytes.
pub open spec fn is_mint_to_data(data: Seq<u8>, amount: u64) -> bool {
    &&& data.len() == 9
    &&& data[0] == 7
    &&& le_u64_at(data, 1) == amount
}

/// Relies on spl_token's `instruction::set_authority`, called with the token
/// program's own id, the account-owner authority kind and no multisig signers:
/// its id check then passes, the data is the packed `SetAuthority`, and the
/// accounts are the owned account (writable) and its owner (read-only,
/// signing).
#[verifier::external_body]
fn build_set_owner(account: &Address, new_owner: &Address, owner: &Address) -> (r: Result<
    TokenInstruction,
    ProgramError,
>)
    ensures
        r is Ok,
        r matches Ok(ix) ==> {
            &&& ix.accounts@ == set_authority_roles(*account, *owner)
            &&& is_set_owner_data(ix.data@, *new_owner)
        },
{
    let key = |a: &Address| Pubkey::new_from_array(a.bytes);
    let owner_kind = spl_token::instruction::AuthorityType::AccountOwner;
    let ix = spl_token::instruction::set_authority(&spl_token::id(), &key(account), Some(&key(new_owner)), owner_kind, &key(owner), &[])?;
    let role = |m: &AccountMeta| AccountRole {
        address: Address::new(m.pubkey.to_bytes()),
        is_signer: m.is_signer,
        is_writable: m.is_writable,
    };
    let program_id = Address::new(ix.program_id.to_bytes());
    Ok(TokenInstruction { program_id, accounts: ix.accounts.iter().map(role).collect(), data: ix.data })
}

/// Relies on spl_token's `instruction::mint_to`, called with the token
/// program's own id and no multisig signers: its id check then passes, the
/// data is the packed `MintTo { amount }`, and the accounts are the mint and
/// the receiving account (writable) and the mint authority (read-only,
/// signing).
#[verifier::external_body]
fn build_mint_to(mint: &Address, account: &Address, owner: &Address, amount: u64) -> (r: Result<
    TokenInstruction,
    ProgramError,
>)
    ensures
        r is Ok,
        r matches Ok(ix) ==> {
            &&& ix.accounts@ == mint_to_roles(*mint, *account, *owner)
            &&& is_mint_to_data(ix.data@, amount)
        },
{
    let key = |a: &Address| Pubkey::new_from_array(a.bytes);
    let ix = spl_token::instruction::mint_to(&spl_token::id(), &key(mint), &key(account), &key(owner), &[], amount)?;
    let role = |m: &AccountMeta| AccountRole {
        address: Address::new(m.pubkey.to_bytes()),
        is_signer: m.is_signer,
        is_writable: m.is_writable,
    };
    let program_id = Address::new(ix.program_id.to_bytes());
    Ok(TokenInstruction { program_id, accounts: ix.accounts.iter().map(role).collect(), data: ix.data })
}

/// The token-program instruction that hands ownership of `account` from
/// `owner` to `new_owner`.
pub fn set_owner_instruction(account: &Address, new_owner: &Address, owner: &Address) -> (r:
    TokenInstruction)
    ensures
        r.accounts@ == set_authority_roles(*account, *owner),
        is_set_owner_data(r.data@, *new_owner),
{
    match build_set_owner(account, new_owner, owner) {
        Ok(ix) => ix,
        Err(_) => {
            proof {
                assert(false);
            }
            TokenInstruction { program_id: *owner, accounts: Vec::new(), data: Vec::new() }
        },
    }
}

/// The token-program instruction that mints `amount` new tokens of `mint` into
/// `account`, signed by the mint authority `owner`.
pub fn mint_to_instruction(mint: &Address, account: &Address, owner: &Address, amount: u64) -> (r:
    TokenInstruction)
    ensures
        r.accounts@ == mint_to_roles(*mint, *account, *owner),
        is_mint_to_data(r.data@, amount),
{
    match build_mint_to(mint, account, owner, amount) {
        Ok(ix) => ix,
        Err(_) => {
            proof {
                assert(false);
            }
            TokenInstruction { program_id: *owner, accounts: Vec::new(), data: Vec::new() }
        },
    }
}

} // verus!
