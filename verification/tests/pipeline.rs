use glowenft::address::Address;
use glowenft::address::rent_sysvar_address;
use glowenft::address::system_program_address;
use glowenft::address::token_program_address;
use glowenft::errors::GloweError;
use glowenft::errors::ProgramFault;
use glowenft::instructions::GloweInstruction;
use glowenft::instructions::mint;
use glowenft::instructions::mint2;
use glowenft::pda::get_mint_account;
use glowenft::pda::get_token_account;
use glowenft::processor::AccountView;
use glowenft::processor::PlannedCall;
use glowenft::processor::Processor;

const NFT_NAME: &str = "GloweNFT";
const NFT_URL: &str = "https://example.com";

fn name_bytes() -> Vec<u8> {
    NFT_NAME.as_bytes().to_vec()
}

fn url_bytes() -> Vec<u8> {
    NFT_URL.as_bytes().to_vec()
}

fn program_id() -> Address {
    Address::new([42u8; 32])
}

fn payer() -> Address {
    Address::new([7u8; 32])
}

/// The account list the `Mint` pipeline expects, with payer == owner, both
/// target addresses freshly derived, and the well-known identities in place.
fn mint_accounts() -> Vec<AccountView> {
    let system = system_program_address();
    let k = payer();
    let mint_addr = get_mint_account(&k, &name_bytes()).unwrap();
    let token_addr = get_token_account(&k, &k, &name_bytes()).unwrap();
    vec![
        AccountView { key: k, is_signer: true, owner: system },
        AccountView { key: k, is_signer: false, owner: system },
        AccountView { key: mint_addr, is_signer: false, owner: system },
        AccountView { key: token_addr, is_signer: false, owner: system },
        AccountView { key: token_program_address(), is_signer: false, owner: system },
        AccountView { key: system, is_signer: false, owner: system },
        AccountView { key: rent_sysvar_address(), is_signer: false, owner: system },
    ]
}

/// The account list the `Mint2` pipeline expects, with the mint and holding
/// accounts already owned by the token program.
fn mint2_accounts() -> Vec<AccountView> {
    let system = system_program_address();
    let token = token_program_address();
    let k = payer();
    vec![
        AccountView { key: k, is_signer: true, owner: system },
        AccountView { key: Address::new([9u8; 32]), is_signer: false, owner: system },
        AccountView { key: Address::new([11u8; 32]), is_signer: false, owner: token },
        AccountView { key: Address::new([12u8; 32]), is_signer: false, owner: token },
        AccountView { key: token, is_signer: false, owner: system },
        AccountView { key: rent_sysvar_address(), is_signer: false, owner: system },
    ]
}

fn mint_data() -> Vec<u8> {
    GloweInstruction::Mint { name: name_bytes(), url: url_bytes() }.encode()
}

fn mint2_data() -> Vec<u8> {
    GloweInstruction::Mint2 { name: name_bytes(), url: url_bytes() }.encode()
}

#[test]
fn test_minting() {
    let k = payer();
    let body = mint(&program_id(), &name_bytes(), &url_bytes(), &k, &k);
    assert!(body.is_ok());
}

#[test]
fn mint_descriptor_contents() {
    let k = payer();
    let d = mint(&program_id(), &name_bytes(), &url_bytes(), &k, &k).unwrap();
    assert_eq!(d.program_id.bytes, program_id().bytes);
    assert_eq!(d.accounts.len(), 7);
    assert_eq!(d.accounts[0].address.bytes, k.bytes);
    assert!(d.accounts[0].is_signer);
    assert!(d.accounts[0].is_writable);
    assert_eq!(d.accounts[1].address.bytes, k.bytes);
    assert!(!d.accounts[1].is_signer);
    assert!(!d.accounts[1].is_writable);
    let mint_addr = get_mint_account(&k, &name_bytes()).unwrap();
    let token_addr = get_token_account(&k, &k, &name_bytes()).unwrap();
    assert_eq!(d.accounts[2].address.bytes, mint_addr.bytes);
    assert!(d.accounts[2].is_writable);
    assert_eq!(d.accounts[3].address.bytes, token_addr.bytes);
    assert!(d.accounts[3].is_writable);
    assert_eq!(d.accounts[4].address.bytes, token_program_address().bytes);
    assert_eq!(d.accounts[5].address.bytes, system_program_address().bytes);
    assert_eq!(d.accounts[6].address.bytes, rent_sysvar_address().bytes);
    assert_eq!(d.data, mint_data());
}

#[test]
fn mint2_descriptor_contents() {
    let k = payer();
    let owner = Address::new([9u8; 32]);
    let mint_addr = Address::new([11u8; 32]);
    let holder = Address::new([12u8; 32]);
    let d = mint2(&program_id(), &name_bytes(), &url_bytes(), &k, &owner, &mint_addr, &holder)
        .unwrap();
    assert_eq!(d.accounts.len(), 6);
    assert_eq!(d.accounts[0].address.bytes, k.bytes);
    assert!(d.accounts[0].is_signer);
    assert_eq!(d.accounts[1].address.bytes, owner.bytes);
    assert_eq!(d.accounts[2].address.bytes, mint_addr.bytes);
    assert_eq!(d.accounts[3].address.bytes, holder.bytes);
    assert_eq!(d.accounts[4].address.bytes, token_program_address().bytes);
    assert_eq!(d.accounts[5].address.bytes, rent_sysvar_address().bytes);
    assert_eq!(d.data, mint2_data());
}

#[test]
fn process_mint_plans_full_pipeline() {
    let accounts = mint_accounts();
    let plan = Processor::process(&program_id(), &accounts, &mint_data()).unwrap();
    assert_eq!(plan.len(), 6);
    let mint_addr = get_mint_account(&payer(), &name_bytes()).unwrap();
    let token_addr = get_token_account(&payer(), &payer(), &name_bytes()).unwrap();
    match &plan[0] {
        PlannedCall::CreateAccount { funder, new_account, space, owning_program, signer_seeds } => {
            assert_eq!(funder.bytes, payer().bytes);
            assert_eq!(new_account.bytes, mint_addr.bytes);
            assert_eq!(*space, 82);
            assert_eq!(owning_program.bytes, token_program_address().bytes);
            assert_eq!(signer_seeds.len(), 7);
            assert_eq!(signer_seeds[0], b"glowenft".to_vec());
            assert_eq!(signer_seeds[2], b"mint".to_vec());
        }
        other => panic!("unexpected first call: {:?}", other),
    }
    match &plan[1] {
        PlannedCall::CreateAccount { new_account, space, signer_seeds, .. } => {
            assert_eq!(new_account.bytes, token_addr.bytes);
            assert_eq!(*space, 165);
            assert_eq!(signer_seeds.len(), 8);
            assert_eq!(signer_seeds[2], b"owner".to_vec());
        }
        other => panic!("unexpected second call: {:?}", other),
    }
    match &plan[2] {
        PlannedCall::InitializeMint { mint, authority, decimals, .. } => {
            assert_eq!(mint.bytes, mint_addr.bytes);
            assert_eq!(authority.bytes, mint_addr.bytes);
            assert_eq!(*decimals, 0);
        }
        other => panic!("unexpected third call: {:?}", other),
    }
    match &plan[3] {
        PlannedCall::InitializeAccount { account, mint, owner, .. } => {
            assert_eq!(account.bytes, token_addr.bytes);
            assert_eq!(mint.bytes, mint_addr.bytes);
            assert_eq!(owner.bytes, payer().bytes);
        }
        other => panic!("unexpected fourth call: {:?}", other),
    }
    match &plan[4] {
        PlannedCall::MintTo { mint, destination, authority, amount, .. } => {
            assert_eq!(mint.bytes, mint_addr.bytes);
            assert_eq!(destination.bytes, token_addr.bytes);
            assert_eq!(authority.bytes, mint_addr.bytes);
            assert_eq!(*amount, 1);
        }
        other => panic!("unexpected fifth call: {:?}", other),
    }
    match &plan[5] {
        PlannedCall::ClearMintAuthority { mint, authority, .. } => {
            assert_eq!(mint.bytes, mint_addr.bytes);
            assert_eq!(authority.bytes, mint_addr.bytes);
        }
        other => panic!("unexpected sixth call: {:?}", other),
    }
}

#[test]
fn process_mint_rejects_substituted_mint_account() {
    let mut accounts = mint_accounts();
    accounts[2].key = Address::new([255u8; 32]);
    let r = Processor::process(&program_id(), &accounts, &mint_data());
    assert_eq!(r.unwrap_err(), ProgramFault::Custom(GloweError::AccountMismatch));
}

#[test]
fn process_mint_rejects_substituted_token_account() {
    let mut accounts = mint_accounts();
    accounts[3].key = Address::new([255u8; 32]);
    let r = Processor::process(&program_id(), &accounts, &mint_data());
    assert_eq!(r.unwrap_err(), ProgramFault::Custom(GloweError::AccountMismatch));
}

#[test]
fn process_mint_requires_signature() {
    let mut accounts = mint_accounts();
    accounts[0].is_signer = false;
    let r = Processor::process(&program_id(), &accounts, &mint_data());
    assert_eq!(r.unwrap_err(), ProgramFault::MissingRequiredSignature);
}

#[test]
fn process_mint_rejects_wrong_token_program() {
    let mut accounts = mint_accounts();
    accounts[4].key = Address::new([1u8; 32]);
    let r = Processor::process(&program_id(), &accounts, &mint_data());
    assert_eq!(r.unwrap_err(), ProgramFault::Custom(GloweError::AccountMismatch));
}

#[test]
fn process_mint_rejects_wrong_system_program() {
    let mut accounts = mint_accounts();
    accounts[5].key = Address::new([1u8; 32]);
    let r = Processor::process(&program_id(), &accounts, &mint_data());
    assert_eq!(r.unwrap_err(), ProgramFault::Custom(GloweError::AccountMismatch));
}

#[test]
fn process_mint_rejects_wrong_rent_account() {
    let mut accounts = mint_accounts();
    accounts[6].key = Address::new([13u8; 32]);
    let r = Processor::process(&program_id(), &accounts, &mint_data());
    assert_eq!(r.unwrap_err(), ProgramFault::InvalidArgument);
}

#[test]
fn process_mint_checks_token_program_before_sixth_account() {
    // With exactly five accounts and a wrong token-program reference, the
    // identity check fires before the missing sixth account is noticed.
    let mut accounts = mint_accounts();
    accounts[4].key = Address::new([1u8; 32]);
    accounts.truncate(5);
    let r = Processor::process(&program_id(), &accounts, &mint_data());
    assert_eq!(r.unwrap_err(), ProgramFault::Custom(GloweError::AccountMismatch));
}

#[test]
fn process_mint_rejects_short_account_list() {
    let mut accounts = mint_accounts();
    accounts.truncate(6);
    let r = Processor::process(&program_id(), &accounts, &mint_data());
    assert_eq!(r.unwrap_err(), ProgramFault::NotEnoughAccountKeys);
    let mut fewer = mint_accounts();
    fewer.truncate(3);
    let r2 = Processor::process(&program_id(), &fewer, &mint_data());
    assert_eq!(r2.unwrap_err(), ProgramFault::NotEnoughAccountKeys);
}

#[test]
fn process_rejects_malformed_message() {
    let accounts = mint_accounts();
    let r = Processor::process(&program_id(), &accounts, &[3u8, 0, 0]);
    assert_eq!(r.unwrap_err(), ProgramFault::Custom(GloweError::InvalidInstruction));
}

#[test]
fn process_mint2_plans_short_pipeline() {
    let accounts = mint2_accounts();
    let plan = Processor::process(&program_id(), &accounts, &mint2_data()).unwrap();
    assert_eq!(plan.len(), 4);
    match &plan[0] {
        PlannedCall::InitializeMint { mint, authority, decimals, .. } => {
            assert_eq!(mint.bytes, [11u8; 32]);
            assert_eq!(authority.bytes, payer().bytes);
            assert_eq!(*decimals, 0);
        }
        other => panic!("unexpected first call: {:?}", other),
    }
    match &plan[1] {
        PlannedCall::InitializeAccount { account, mint, owner, .. } => {
            assert_eq!(account.bytes, [12u8; 32]);
            assert_eq!(mint.bytes, [11u8; 32]);
            assert_eq!(owner.bytes, [9u8; 32]);
        }
        other => panic!("unexpected second call: {:?}", other),
    }
    match &plan[2] {
        PlannedCall::MintTo { authority, amount, signer_seeds, .. } => {
            assert_eq!(authority.bytes, payer().bytes);
            assert_eq!(*amount, 1);
            assert!(signer_seeds.is_empty());
        }
        other => panic!("unexpected third call: {:?}", other),
    }
    match &plan[3] {
        PlannedCall::ClearMintAuthority { authority, signer_seeds, .. } => {
            assert_eq!(authority.bytes, payer().bytes);
            assert!(signer_seeds.is_empty());
        }
        other => panic!("unexpected fourth call: {:?}", other),
    }
}

#[test]
fn process_mint2_rejects_foreign_owner() {
    let mut accounts = mint2_accounts();
    accounts[2].owner = system_program_address();
    let r = Processor::process(&program_id(), &accounts, &mint2_data());
    assert_eq!(r.unwrap_err(), ProgramFault::IllegalOwner);
}
