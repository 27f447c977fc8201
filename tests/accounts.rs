use borsh::BorshSerialize;
use metaplex_token_metadata::state::{Data, Key, Metadata};
use nft_staking::{
    mint_to_instruction, set_owner_instruction, transfer_instruction,
    transfer_instruction_without_seed, AccountRole, Address, NftMetadata, PoolError, SignerSeeds,
    TokenAccount, TokenMint, TokenTransferParams, TokenTransferParamsWithoutSeed,
};
use spl_token::solana_program::program_option::COption;
use spl_token::solana_program::program_pack::Pack;
use spl_token::solana_program::pubkey::Pubkey;

fn token_account_bytes(mint: [u8; 32], owner: [u8; 32], amount: u64) -> Vec<u8> {
    let account = spl_token::state::Account {
        mint: Pubkey::new_from_array(mint),
        owner: Pubkey::new_from_array(owner),
        amount,
        delegate: COption::None,
        state: spl_token::state::AccountState::Initialized,
        is_native: COption::None,
        delegated_amount: 0,
        close_authority: COption::None,
    };
    let mut data = vec![0u8; spl_token::state::Account::LEN];
    account.pack_into_slice(&mut data);
    data
}

fn mint_bytes(supply: u64, decimals: u8) -> Vec<u8> {
    let mint = spl_token::state::Mint {
        mint_authority: COption::None,
        supply,
        decimals,
        is_initialized: true,
        freeze_authority: COption::None,
    };
    let mut data = vec![0u8; spl_token::state::Mint::LEN];
    mint.pack_into_slice(&mut data);
    data
}

fn metadata_bytes(mint: [u8; 32], symbol: &str) -> Vec<u8> {
    let md = Metadata {
        key: Key::MetadataV1,
        update_authority: Pubkey::new_from_array([3u8; 32]),
        mint: Pubkey::new_from_array(mint),
        data: Data {
            name: "Ape #1".to_string(),
            symbol: symbol.to_string(),
            uri: "https://example.org/1.json".to_string(),
            seller_fee_basis_points: 500,
            creators: None,
        },
        primary_sale_happened: false,
        is_mutable: true,
        edition_nonce: None,
    };
    let mut data = md.try_to_vec().unwrap();
    data.resize(metaplex_token_metadata::state::MAX_METADATA_LEN, 0);
    data
}

#[test]
fn token_account_reads_mint_owner_amount() {
    let data = token_account_bytes([1u8; 32], [2u8; 32], 0x0102_0304_0506_0708);
    let a = TokenAccount::unpack(&data).unwrap();
    assert_eq!(a.mint, Address::new([1u8; 32]));
    assert_eq!(a.owner, Address::new([2u8; 32]));
    assert_eq!(a.amount, 0x0102_0304_0506_0708);
}

#[test]
fn token_account_short_data_is_rejected() {
    let data = token_account_bytes([1u8; 32], [2u8; 32], 5);
    assert_eq!(TokenAccount::unpack(&data[..164]).unwrap_err(), PoolError::InvalidTokenAccount);
    assert_eq!(TokenAccount::unpack(&[]).unwrap_err(), PoolError::InvalidTokenAccount);
}

#[test]
fn token_account_bad_state_byte_is_rejected() {
    let mut data = token_account_bytes([1u8; 32], [2u8; 32], 5);
    data[108] = 3;
    assert_eq!(TokenAccount::unpack(&data).unwrap_err(), PoolError::InvalidTokenAccount);
}

#[test]
fn token_account_bad_option_tag_is_rejected() {
    let mut data = token_account_bytes([1u8; 32], [2u8; 32], 5);
    data[72] = 2;
    assert_eq!(TokenAccount::unpack(&data).unwrap_err(), PoolError::InvalidTokenAccount);
}

#[test]
fn mint_reads_supply_and_decimals() {
    let m = TokenMint::unpack(&mint_bytes(1, 0)).unwrap();
    assert_eq!(m, TokenMint { supply: 1, decimals: 0 });
    assert!(m.is_unique());
    let f = TokenMint::unpack(&mint_bytes(1_000_000, 6)).unwrap();
    assert_eq!(f.supply, 1_000_000);
    assert_eq!(f.decimals, 6);
    assert!(!f.is_unique());
}

#[test]
fn mint_short_or_malformed_data_is_rejected() {
    assert_eq!(TokenMint::unpack(&[0u8; 81]).unwrap_err(), PoolError::InvalidTokenMint);
    let mut data = mint_bytes(1, 0);
    data[45] = 7;
    assert_eq!(TokenMint::unpack(&data).unwrap_err(), PoolError::InvalidTokenMint);
}

#[test]
fn metadata_reads_mint_and_symbol() {
    let md = NftMetadata::unpack(&metadata_bytes([6u8; 32], "APE")).unwrap();
    assert_eq!(md.mint, Address::new([6u8; 32]));
    assert_eq!(md.symbol, "APE");
}

#[test]
fn metadata_of_wrong_length_or_kind_is_rejected() {
    let data = metadata_bytes([6u8; 32], "APE");
    assert_eq!(NftMetadata::unpack(&data[..600]).unwrap_err(), PoolError::InvalidMetadata);
    assert_eq!(NftMetadata::unpack(&[]).unwrap_err(), PoolError::InvalidMetadata);
    let mut other_kind = data.clone();
    other_kind[0] = Key::EditionV1 as u8;
    assert_eq!(NftMetadata::unpack(&other_kind).unwrap_err(), PoolError::InvalidMetadata);
}

#[test]
fn transfer_instruction_packs_amount_and_accounts() {
    let (s, d, a) = (Address::new([1u8; 32]), Address::new([2u8; 32]), Address::new([3u8; 32]));
    let t = TokenTransferParams {
        source: s,
        destination: d,
        amount: 0x0102_0304_0506_0708,
        authority: a,
        authority_signer_seeds: SignerSeeds { rand: Address::new([4u8; 32]), bump: 9 },
    };
    let ix = transfer_instruction(&t);
    assert_eq!(ix.data, vec![3, 8, 7, 6, 5, 4, 3, 2, 1]);
    assert_eq!(ix.program_id, Address::new(spl_token::id().to_bytes()));
    assert_eq!(
        ix.accounts,
        vec![
            AccountRole { address: s, is_signer: false, is_writable: true },
            AccountRole { address: d, is_signer: false, is_writable: true },
            AccountRole { address: a, is_signer: true, is_writable: false },
        ]
    );
    let w = TokenTransferParamsWithoutSeed { source: s, destination: d, amount: 1, authority: a };
    let ix1 = transfer_instruction_without_seed(&w);
    assert_eq!(ix1.data, vec![3, 1, 0, 0, 0, 0, 0, 0, 0]);
    assert_eq!(ix1.accounts[2].address, a);
}

#[test]
fn set_owner_instruction_names_new_owner() {
    let (acct, new_owner, owner) =
        (Address::new([1u8; 32]), Address::new([2u8; 32]), Address::new([3u8; 32]));
    let ix = set_owner_instruction(&acct, &new_owner, &owner);
    let mut expected = vec![6u8, 2, 1];
    expected.extend_from_slice(&[2u8; 32]);
    assert_eq!(ix.data, expected);
    assert_eq!(ix.program_id, Address::new(spl_token::id().to_bytes()));
    assert_eq!(
        ix.accounts,
        vec![
            AccountRole { address: acct, is_signer: false, is_writable: true },
            AccountRole { address: owner, is_signer: true, is_writable: false },
        ]
    );
}

#[test]
fn mint_to_instruction_packs_amount_and_accounts() {
    let (mint, acct, owner) =
        (Address::new([1u8; 32]), Address::new([2u8; 32]), Address::new([3u8; 32]));
    let ix = mint_to_instruction(&mint, &acct, &owner, 258);
    assert_eq!(ix.data, vec![7, 2, 1, 0, 0, 0, 0, 0, 0]);
    assert_eq!(
        ix.accounts,
        vec![
            AccountRole { address: mint, is_signer: false, is_writable: true },
            AccountRole { address: acct, is_signer: false, is_writable: true },
            AccountRole { address: owner, is_signer: true, is_writable: false },
        ]
    );
}
