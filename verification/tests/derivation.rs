use glowenft::address::Address;
use glowenft::address::default_program_address;
use glowenft::address::rent_sysvar_address;
use glowenft::address::system_program_address;
use glowenft::address::token_program_address;
use glowenft::pda::derive_mint_account_internal;
use glowenft::pda::derive_token_account_internal;
use glowenft::pda::get_mint_account;
use glowenft::pda::get_token_account;
use glowenft::processor::MINT_ACCOUNT_LEN;
use glowenft::processor::TOKEN_ACCOUNT_LEN;

use solana_program::program_pack::Pack;
use solana_program::pubkey::Pubkey;

#[test]
fn well_known_identities_match_host() {
    assert_eq!(token_program_address().bytes, spl_token::id().to_bytes());
    assert_eq!(
        system_program_address().bytes,
        solana_program::system_program::id().to_bytes()
    );
    assert_eq!(
        rent_sysvar_address().bytes,
        solana_program::sysvar::rent::id().to_bytes()
    );
    assert_eq!(default_program_address().bytes, [42u8; 32]);
}

#[test]
fn account_sizes_match_token_program() {
    assert_eq!(MINT_ACCOUNT_LEN, spl_token::state::Mint::LEN as u64);
    assert_eq!(TOKEN_ACCOUNT_LEN, spl_token::state::Account::LEN as u64);
}

#[test]
fn derivation_is_deterministic() {
    let payer = Address::new([7u8; 32]);
    let name = b"GloweNFT".to_vec();
    let first = get_mint_account(&payer, &name).unwrap();
    let second = get_mint_account(&payer, &name).unwrap();
    assert_eq!(first.bytes, second.bytes);

    let owner = Address::new([9u8; 32]);
    let t1 = get_token_account(&owner, &payer, &name).unwrap();
    let t2 = get_token_account(&owner, &payer, &name).unwrap();
    assert_eq!(t1.bytes, t2.bytes);

    let program = Address::new([1u8; 32]);
    let token_program = token_program_address();
    let d1 = derive_mint_account_internal(&program, &token_program, &payer, &name).unwrap();
    let d2 = derive_mint_account_internal(&program, &token_program, &payer, &name).unwrap();
    assert_eq!(d1.0.bytes, d2.0.bytes);
    assert_eq!(d1.1, d2.1);
}

#[test]
fn derived_addresses_are_distinct() {
    let payer_a = Address::new([7u8; 32]);
    let payer_b = Address::new([8u8; 32]);
    let name_a = b"A".to_vec();
    let name_b = b"B".to_vec();

    let a_under_a = get_mint_account(&payer_a, &name_a).unwrap();
    let b_under_a = get_mint_account(&payer_a, &name_b).unwrap();
    let a_under_b = get_mint_account(&payer_b, &name_a).unwrap();
    assert_ne!(a_under_a.bytes, b_under_a.bytes);
    assert_ne!(a_under_a.bytes, a_under_b.bytes);
}

#[test]
fn mint_and_token_addresses_differ() {
    let payer = Address::new([7u8; 32]);
    let name = b"GloweNFT".to_vec();
    let mint = get_mint_account(&payer, &name).unwrap();
    let token = get_token_account(&payer, &payer, &name).unwrap();
    assert_ne!(mint.bytes, token.bytes);
}

#[test]
fn mint_derivation_matches_host_seeds() {
    let payer = Address::new([7u8; 32]);
    let name = b"GloweNFT".to_vec();
    let ours = get_mint_account(&payer, &name).unwrap();

    let program_id = Pubkey::new_from_array([42u8; 32]);
    let token_program = spl_token::id();
    let payer_pk = Pubkey::new_from_array(payer.bytes);
    let (expected, _bump) = Pubkey::find_program_address(
        &[
            b"glowenft",
            name.as_slice(),
            b"mint",
            program_id.as_ref(),
            token_program.as_ref(),
            payer_pk.as_ref(),
        ],
        &program_id,
    );
    assert_eq!(ours.bytes, expected.to_bytes());
}

#[test]
fn token_derivation_matches_host_seeds() {
    let payer = Address::new([7u8; 32]);
    let owner = Address::new([9u8; 32]);
    let name = b"GloweNFT".to_vec();
    let ours = get_token_account(&owner, &payer, &name).unwrap();

    let program_id = Pubkey::new_from_array([42u8; 32]);
    let token_program = spl_token::id();
    let payer_pk = Pubkey::new_from_array(payer.bytes);
    let owner_pk = Pubkey::new_from_array(owner.bytes);
    let (expected, _bump) = Pubkey::find_program_address(
        &[
            b"glowenft",
            name.as_slice(),
            b"owner",
            program_id.as_ref(),
            token_program.as_ref(),
            payer_pk.as_ref(),
            owner_pk.as_ref(),
        ],
        &program_id,
    );
    assert_eq!(ours.bytes, expected.to_bytes());
}

#[test]
fn derivation_bump_matches_host() {
    let payer = Address::new([7u8; 32]);
    let name = b"GloweNFT".to_vec();
    let program = Address::new([42u8; 32]);
    let token_program = token_program_address();
    let (addr, bump) =
        derive_token_account_internal(&program, &token_program, &payer, &name, &payer).unwrap();

    let program_id = Pubkey::new_from_array([42u8; 32]);
    let payer_pk = Pubkey::new_from_array(payer.bytes);
    let (expected, expected_bump) = Pubkey::find_program_address(
        &[
            b"glowenft",
            name.as_slice(),
            b"owner",
            program_id.as_ref(),
            spl_token::id().as_ref(),
            payer_pk.as_ref(),
            payer_pk.as_ref(),
        ],
        &program_id,
    );
    assert_eq!(addr.bytes, expected.to_bytes());
    assert_eq!(bump, expected_bump);
}
