use token_wrapper::accounts::AccountView;
use token_wrapper::error::ValidationError;
use token_wrapper::ids::key_eq;
use token_wrapper::ids::rent_sysvar_key;
use token_wrapper::ids::system_program_key;
use token_wrapper::ids::token_program_id;
use token_wrapper::instruction::InstructionView;
use token_wrapper::program::initialize_mint;
use token_wrapper::program::mint_tokens;
use token_wrapper::program::transfer_tokens;
use token_wrapper::program::InitializeMint;
use token_wrapper::program::MintTokens;
use token_wrapper::program::TransferTokens;
use token_wrapper::program::MINT_DECIMALS;

fn key(fill: u8) -> [u8; 32] {
    [fill; 32]
}

fn plain(k: [u8; 32]) -> AccountView {
    AccountView { key: k, owner: key(0), is_signer: false, is_writable: false, executable: false }
}

fn program_account(id: [u8; 32]) -> AccountView {
    AccountView { key: id, owner: key(0), is_signer: false, is_writable: false, executable: true }
}

fn valid_initialize_mint() -> InitializeMint {
    InitializeMint {
        mint: AccountView {
            key: key(1),
            owner: key(0),
            is_signer: true,
            is_writable: true,
            executable: false,
        },
        authority: plain(key(2)),
        payer: AccountView {
            key: key(3),
            owner: key(0),
            is_signer: true,
            is_writable: true,
            executable: false,
        },
        system_program: program_account(system_program_key()),
        token_program: program_account(token_program_id()),
        rent: plain(rent_sysvar_key()),
    }
}

fn valid_mint_tokens() -> MintTokens {
    MintTokens {
        mint: AccountView {
            key: key(1),
            owner: token_program_id(),
            is_signer: false,
            is_writable: true,
            executable: false,
        },
        token_account: AccountView {
            key: key(2),
            owner: token_program_id(),
            is_signer: false,
            is_writable: true,
            executable: false,
        },
        authority: AccountView {
            key: key(3),
            owner: key(0),
            is_signer: true,
            is_writable: false,
            executable: false,
        },
        token_program: program_account(token_program_id()),
    }
}

fn valid_transfer_tokens() -> TransferTokens {
    TransferTokens {
        from: AccountView {
            key: key(4),
            owner: token_program_id(),
            is_signer: false,
            is_writable: true,
            executable: false,
        },
        to: AccountView {
            key: key(5),
            owner: token_program_id(),
            is_signer: false,
            is_writable: true,
            executable: false,
        },
        authority: AccountView {
            key: key(6),
            owner: key(0),
            is_signer: true,
            is_writable: false,
            executable: false,
        },
        token_program: program_account(token_program_id()),
    }
}

fn meta_tuples(ix: &InstructionView) -> Vec<([u8; 32], bool, bool)> {
    ix.accounts.iter().map(|m| (m.key, m.is_signer, m.is_writable)).collect()
}

#[test]
fn token_program_id_matches_the_token_crate() {
    assert_eq!(token_program_id(), anchor_spl::token::ID.to_bytes());
}

#[test]
fn system_program_id_is_all_zeroes() {
    assert_eq!(system_program_key(), [0u8; 32]);
}

#[test]
fn rent_sysvar_id_matches_the_token_crate() {
    // The classic mint-initialization instruction names the rent sysvar as
    // its second account; the id the library states must be that one.
    let ix = anchor_spl::token::spl_token::instruction::initialize_mint(
        &anchor_spl::token::ID,
        &solana_pubkey::Pubkey::new_from_array(key(1)),
        &solana_pubkey::Pubkey::new_from_array(key(2)),
        None,
        0,
    )
    .unwrap();
    assert_eq!(rent_sysvar_key(), ix.accounts[1].pubkey.to_bytes());
}

#[test]
fn key_eq_equal_and_unequal() {
    let a = key(9);
    let mut b = key(9);
    assert!(key_eq(&a, &b));
    b[31] = 8;
    assert!(!key_eq(&a, &b));
    let mut c = key(9);
    c[0] = 8;
    assert!(!key_eq(&a, &c));
}

#[test]
fn mint_tokens_builds_the_mint_to_instruction() {
    let amount: u64 = 0x0102030405060708;
    let ix = mint_tokens(&valid_mint_tokens(), amount).unwrap();
    assert_eq!(ix.program_id, token_program_id());
    assert_eq!(ix.data, vec![7u8, 8, 7, 6, 5, 4, 3, 2, 1]);
    assert_eq!(
        meta_tuples(&ix),
        vec![(key(1), false, true), (key(2), false, true), (key(3), true, false)]
    );
}

#[test]
fn mint_tokens_agrees_with_the_token_crate() {
    let amount: u64 = 12345;
    let ix = mint_tokens(&valid_mint_tokens(), amount).unwrap();
    let reference = anchor_spl::token::spl_token::instruction::mint_to(
        &anchor_spl::token::ID,
        &solana_pubkey::Pubkey::new_from_array(key(1)),
        &solana_pubkey::Pubkey::new_from_array(key(2)),
        &solana_pubkey::Pubkey::new_from_array(key(3)),
        &[],
        amount,
    )
    .unwrap();
    assert_eq!(ix.program_id, reference.program_id.to_bytes());
    assert_eq!(ix.data, reference.data);
    let reference_metas: Vec<([u8; 32], bool, bool)> = reference
        .accounts
        .iter()
        .map(|m| (m.pubkey.to_bytes(), m.is_signer, m.is_writable))
        .collect();
    assert_eq!(meta_tuples(&ix), reference_metas);
}

#[test]
fn mint_tokens_rejects_read_only_mint() {
    let mut a = valid_mint_tokens();
    a.mint.is_writable = false;
    assert_eq!(mint_tokens(&a, 1), Err(ValidationError::NotWritable));
}

#[test]
fn mint_tokens_rejects_foreign_mint_owner() {
    let mut a = valid_mint_tokens();
    a.mint.owner = key(7);
    assert_eq!(mint_tokens(&a, 1), Err(ValidationError::WrongOwner));
}

#[test]
fn mint_tokens_rejects_read_only_token_account() {
    let mut a = valid_mint_tokens();
    a.token_account.is_writable = false;
    assert_eq!(mint_tokens(&a, 1), Err(ValidationError::NotWritable));
}

#[test]
fn mint_tokens_rejects_unsigned_authority() {
    let mut a = valid_mint_tokens();
    a.authority.is_signer = false;
    assert_eq!(mint_tokens(&a, 1), Err(ValidationError::NotSigner));
}

#[test]
fn mint_tokens_rejects_wrong_token_program() {
    let mut a = valid_mint_tokens();
    a.token_program.key = key(7);
    assert_eq!(mint_tokens(&a, 1), Err(ValidationError::IncorrectProgramId));
}

#[test]
fn mint_tokens_rejects_non_executable_token_program() {
    let mut a = valid_mint_tokens();
    a.token_program.executable = false;
    assert_eq!(mint_tokens(&a, 1), Err(ValidationError::NotExecutable));
}

#[test]
fn mint_tokens_checks_in_declaration_order() {
    // Several constraints fail at once; the first failing account decides.
    let mut a = valid_mint_tokens();
    a.mint.owner = key(7);
    a.authority.is_signer = false;
    a.token_program.executable = false;
    assert_eq!(mint_tokens(&a, 1), Err(ValidationError::WrongOwner));
}

#[test]
fn transfer_tokens_builds_the_transfer_instruction() {
    let amount: u64 = 0x00000000000000FF;
    let ix = transfer_tokens(&valid_transfer_tokens(), amount).unwrap();
    assert_eq!(ix.program_id, token_program_id());
    assert_eq!(ix.data, vec![3u8, 0xFF, 0, 0, 0, 0, 0, 0, 0]);
    assert_eq!(
        meta_tuples(&ix),
        vec![(key(4), false, true), (key(5), false, true), (key(6), true, false)]
    );
}

#[test]
fn transfer_tokens_agrees_with_the_token_crate() {
    let amount: u64 = 98765;
    let ix = transfer_tokens(&valid_transfer_tokens(), amount).unwrap();
    let reference = anchor_spl::token::spl_token::instruction::transfer(
        &anchor_spl::token::ID,
        &solana_pubkey::Pubkey::new_from_array(key(4)),
        &solana_pubkey::Pubkey::new_from_array(key(5)),
        &solana_pubkey::Pubkey::new_from_array(key(6)),
        &[],
        amount,
    )
    .unwrap();
    assert_eq!(ix.program_id, reference.program_id.to_bytes());
    assert_eq!(ix.data, reference.data);
    let reference_metas: Vec<([u8; 32], bool, bool)> = reference
        .accounts
        .iter()
        .map(|m| (m.pubkey.to_bytes(), m.is_signer, m.is_writable))
        .collect();
    assert_eq!(meta_tuples(&ix), reference_metas);
}

#[test]
fn transfer_tokens_rejects_read_only_source() {
    let mut a = valid_transfer_tokens();
    a.from.is_writable = false;
    assert_eq!(transfer_tokens(&a, 1), Err(ValidationError::NotWritable));
}

#[test]
fn transfer_tokens_rejects_foreign_destination_owner() {
    let mut a = valid_transfer_tokens();
    a.to.owner = key(7);
    assert_eq!(transfer_tokens(&a, 1), Err(ValidationError::WrongOwner));
}

#[test]
fn transfer_tokens_rejects_unsigned_authority() {
    let mut a = valid_transfer_tokens();
    a.authority.is_signer = false;
    assert_eq!(transfer_tokens(&a, 1), Err(ValidationError::NotSigner));
}

#[test]
fn initialize_mint_builds_the_initialization_instruction() {
    let ix = initialize_mint(&valid_initialize_mint()).unwrap();
    assert_eq!(ix.program_id, token_program_id());
    let mut expected_data = vec![20u8, MINT_DECIMALS];
    expected_data.extend_from_slice(&key(2));
    expected_data.push(0);
    assert_eq!(ix.data, expected_data);
    assert_eq!(meta_tuples(&ix), vec![(key(1), false, true)]);
}

#[test]
fn initialize_mint_agrees_with_the_token_crate() {
    let ix = initialize_mint(&valid_initialize_mint()).unwrap();
    let reference = anchor_spl::token::spl_token::instruction::initialize_mint2(
        &anchor_spl::token::ID,
        &solana_pubkey::Pubkey::new_from_array(key(1)),
        &solana_pubkey::Pubkey::new_from_array(key(2)),
        None,
        MINT_DECIMALS,
    )
    .unwrap();
    assert_eq!(ix.program_id, reference.program_id.to_bytes());
    assert_eq!(ix.data, reference.data);
    let reference_metas: Vec<([u8; 32], bool, bool)> = reference
        .accounts
        .iter()
        .map(|m| (m.pubkey.to_bytes(), m.is_signer, m.is_writable))
        .collect();
    assert_eq!(meta_tuples(&ix), reference_metas);
}

#[test]
fn initialize_mint_rejects_read_only_mint() {
    let mut a = valid_initialize_mint();
    a.mint.is_writable = false;
    assert_eq!(initialize_mint(&a), Err(ValidationError::NotWritable));
}

#[test]
fn initialize_mint_rejects_unsigned_mint() {
    let mut a = valid_initialize_mint();
    a.mint.is_signer = false;
    assert_eq!(initialize_mint(&a), Err(ValidationError::NotSigner));
}

#[test]
fn initialize_mint_rejects_unsigned_payer() {
    let mut a = valid_initialize_mint();
    a.payer.is_signer = false;
    assert_eq!(initialize_mint(&a), Err(ValidationError::NotSigner));
}

#[test]
fn initialize_mint_rejects_wrong_system_program() {
    let mut a = valid_initialize_mint();
    a.system_program.key = key(7);
    assert_eq!(initialize_mint(&a), Err(ValidationError::IncorrectProgramId));
}

#[test]
fn initialize_mint_rejects_non_executable_system_program() {
    let mut a = valid_initialize_mint();
    a.system_program.executable = false;
    assert_eq!(initialize_mint(&a), Err(ValidationError::NotExecutable));
}

#[test]
fn initialize_mint_rejects_wrong_rent_sysvar() {
    let mut a = valid_initialize_mint();
    a.rent.key = key(7);
    assert_eq!(initialize_mint(&a), Err(ValidationError::WrongSysvar));
}

#[test]
fn validation_errors_describe_themselves() {
    let errors = vec![
        ValidationError::NotWritable,
        ValidationError::NotSigner,
        ValidationError::WrongOwner,
        ValidationError::IncorrectProgramId,
        ValidationError::NotExecutable,
        ValidationError::WrongSysvar,
    ];
    for e in errors {
        assert!(!e.describe().is_empty());
    }
}
