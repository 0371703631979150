use mpl_token_metadata::error::OperationError;
use mpl_token_metadata::ids::{
    id, ProgramIds, AUTH_RULES_ID, SPL_TOKEN_ID, SYSTEM_PROGRAM_ID, SYSVAR_INSTRUCTIONS_ID,
    TOKEN_METADATA_ID,
};
use mpl_token_metadata::ledger::{
    read_account, read_mint, AccountMeta, AccountState, LedgerAction, Mint, TokenAccount,
};
use mpl_token_metadata::pda::{
    assert_derivation, decimal, find_edition_marker_account, find_master_edition_account,
    find_metadata_delegate_record_account, find_program_address, find_token_record_account,
};
use mpl_token_metadata::error::MetadataError;
use mpl_token_metadata::pubkey::Pubkey;
use mpl_token_metadata::state::MetadataDelegateRole;
use solana_program::program_option::COption;
use solana_program::program_pack::Pack;

fn key(n: u8) -> Pubkey {
    Pubkey::new_from_array([n; 32])
}

fn outside(k: &Pubkey) -> solana_program::pubkey::Pubkey {
    solana_program::pubkey::Pubkey::new_from_array(k.bytes)
}

fn inside(k: &solana_program::pubkey::Pubkey) -> Pubkey {
    Pubkey::new_from_array(k.to_bytes())
}

#[test]
fn well_known_ids_are_the_declared_addresses() {
    let ids = ProgramIds::well_known();
    assert_eq!(ids.token_metadata.bytes, TOKEN_METADATA_ID);
    assert_eq!(ids.spl_token.bytes, SPL_TOKEN_ID);
    assert_eq!(ids.system_program.bytes, SYSTEM_PROGRAM_ID);
    assert_eq!(ids.sysvar_instructions.bytes, SYSVAR_INSTRUCTIONS_ID);
    assert_eq!(ids.auth_rules.bytes, AUTH_RULES_ID);
    assert_eq!(outside(&ids.spl_token).to_string(), "TokenkegQfeZyiNwAJbNbGKPFXCWuBvf9Ss623VQ5DA");
    assert_eq!(outside(&ids.system_program).to_string(), "11111111111111111111111111111111");
    assert_eq!(
        outside(&ids.sysvar_instructions).to_string(),
        "Sysvar1nstructions1111111111111111111111111"
    );
    assert_eq!(outside(&ids.auth_rules).to_string(), "auth9SigNpDKz4sJJ1DfCTuZrZNSAgh9sFD3rboVmgg");
    assert_eq!(outside(&id()).to_string(), "metaqbxxUerdq28cj1RbAWkYQm3ybzjb6a8bt518x1s");
    assert_eq!(outside(&ids.spl_token), spl_token::id());
    assert_eq!(outside(&ids.system_program), solana_program::system_program::id());
    assert_eq!(outside(&ids.sysvar_instructions), solana_program::sysvar::instructions::id());
    assert_eq!(outside(&ids.auth_rules), mpl_token_auth_rules::id());
}

#[test]
fn program_addresses_are_those_of_the_runtime() {
    let program = id();
    let mint = key(5);
    let token = key(6);
    let (expected, bump) = solana_program::pubkey::Pubkey::find_program_address(
        &[b"metadata", &program.bytes, &mint.bytes, b"edition"],
        &outside(&program),
    );
    assert_eq!(find_master_edition_account(&program, &mint), Some((inside(&expected), bump)));
    assert!(expected != outside(&program));

    let (expected, bump) = solana_program::pubkey::Pubkey::find_program_address(
        &[b"metadata", &program.bytes, &mint.bytes, b"token_record", &token.bytes],
        &outside(&program),
    );
    assert_eq!(find_token_record_account(&program, &mint, &token), Some((inside(&expected), bump)));

    let (expected, bump) = solana_program::pubkey::Pubkey::find_program_address(
        &[b"metadata", &program.bytes, &mint.bytes, b"update_delegate", &key(2).bytes, &key(3).bytes],
        &outside(&program),
    );
    assert_eq!(
        find_metadata_delegate_record_account(
            &program,
            &mint,
            MetadataDelegateRole::Update,
            &key(2),
            &key(3)
        ),
        Some((inside(&expected), bump))
    );
    let (expected, bump) = solana_program::pubkey::Pubkey::find_program_address(
        &[b"metadata", &program.bytes, &mint.bytes, b"collection_delegate", &key(2).bytes, &key(3).bytes],
        &outside(&program),
    );
    assert_eq!(
        find_metadata_delegate_record_account(
            &program,
            &mint,
            MetadataDelegateRole::Collection,
            &key(2),
            &key(3)
        ),
        Some((inside(&expected), bump))
    );
}

#[test]
fn edition_markers_are_numbered_in_decimal() {
    for n in [0u64, 7, 9, 10, 99, 100, 12345, u64::MAX] {
        assert_eq!(decimal(n), n.to_string().into_bytes());
    }
    let program = id();
    let master_mint = key(24);
    for (print, number) in [(0u64, "0"), (247, "0"), (248, "1"), (2480, "10"), (u64::MAX, "74382032555280450")] {
        let (expected, bump) = solana_program::pubkey::Pubkey::find_program_address(
            &[b"metadata", &program.bytes, &master_mint.bytes, b"edition", number.as_bytes()],
            &outside(&program),
        );
        assert_eq!(
            find_edition_marker_account(&program, &master_mint, print),
            Some((inside(&expected), bump))
        );
    }
}

#[test]
fn program_address_of_seeds_that_cannot_be_used_is_none() {
    let long = vec![vec![0u8; 33]];
    assert_eq!(find_program_address(&long, &id()), None);
    let many: Vec<Vec<u8>> = (0..17).map(|n| vec![n as u8]).collect();
    assert_eq!(find_program_address(&many, &id()), None);
    let empty: Vec<Vec<u8>> = Vec::new();
    let (expected, bump) =
        solana_program::pubkey::Pubkey::find_program_address(&[], &outside(&id()));
    assert_eq!(find_program_address(&empty, &id()), Some((inside(&expected), bump)));
}

#[test]
fn derivation_is_checked_against_the_key() {
    let seeds = vec![b"metadata".to_vec(), vec![1, 2, 3]];
    let (derived, bump) = find_program_address(&seeds, &id()).unwrap();
    assert_eq!(assert_derivation(&id(), &derived, &seeds), Ok(bump));
    assert_eq!(
        assert_derivation(&id(), &key(9), &seeds),
        Err(OperationError::Custom(MetadataError::DerivedKeyInvalid))
    );
    let long = vec![vec![0u8; 33]];
    assert_eq!(
        assert_derivation(&id(), &key(9), &long),
        Err(OperationError::Custom(MetadataError::DerivedKeyInvalid))
    );
}

#[test]
fn token_account_is_read_field_by_field() {
    let account = spl_token::state::Account {
        mint: outside(&key(5)),
        owner: outside(&key(1)),
        amount: 0x0102030405060708,
        delegate: COption::Some(outside(&key(3))),
        state: spl_token::state::AccountState::Frozen,
        is_native: COption::Some(77),
        delegated_amount: 9,
        close_authority: COption::Some(outside(&key(4))),
    };
    let mut data = vec![0u8; 165];
    spl_token::state::Account::pack(account, &mut data).unwrap();
    assert_eq!(
        read_account(&data),
        Ok(TokenAccount {
            mint: key(5),
            owner: key(1),
            amount: 0x0102030405060708,
            delegate: Some(key(3)),
            state: AccountState::Frozen,
            is_native: Some(77),
            delegated_amount: 9,
            close_authority: Some(key(4)),
        })
    );
    assert!(read_account(&data).unwrap().is_frozen());
    assert!(read_account(&data).unwrap().is_initialized());

    let blank = read_account(&vec![0u8; 165]).unwrap();
    assert_eq!(blank.state, AccountState::Uninitialized);
    assert!(!blank.is_initialized());
    assert_eq!(blank.delegate, None);

    assert_eq!(read_account(&data[..164]), Err(OperationError::InvalidAccountData));
    assert_eq!(read_account(&[]), Err(OperationError::InvalidAccountData));
    data[108] = 3;
    assert_eq!(read_account(&data), Err(OperationError::InvalidAccountData));
}

#[test]
fn mint_is_read_field_by_field() {
    let mint = spl_token::state::Mint {
        mint_authority: COption::Some(outside(&key(2))),
        supply: 1000,
        decimals: 6,
        is_initialized: true,
        freeze_authority: COption::None,
    };
    let mut data = vec![0u8; 82];
    spl_token::state::Mint::pack(mint, &mut data).unwrap();
    assert_eq!(
        read_mint(&data),
        Ok(Mint {
            mint_authority: Some(key(2)),
            supply: 1000,
            decimals: 6,
            is_initialized: true,
            freeze_authority: None,
        })
    );
    assert_eq!(read_mint(&data[..81]), Err(OperationError::InvalidAccountData));
}

fn check_instruction(
    action: LedgerAction,
    expected: solana_program::instruction::Instruction,
    data: Vec<u8>,
) {
    let ids = ProgramIds::well_known();
    let ix = action.instruction(&ids.spl_token).unwrap();
    assert_eq!(ix.program_id, ids.spl_token);
    assert_eq!(ix.data, data);
    assert_eq!(ix.data, expected.data);
    assert_eq!(ix.accounts.len(), expected.accounts.len());
    for (meta, other) in ix.accounts.iter().zip(expected.accounts.iter()) {
        assert_eq!(
            *meta,
            AccountMeta {
                pubkey: inside(&other.pubkey),
                is_signer: other.is_signer,
                is_writable: other.is_writable,
            }
        );
    }
    assert_eq!(action.instruction(&key(9)), Err(OperationError::IncorrectProgramId));
}

#[test]
fn ledger_instructions_are_those_of_the_ledger() {
    let program = spl_token::id();
    let (a, b, c) = (key(1), key(2), key(3));
    let (oa, ob, oc) = (outside(&a), outside(&b), outside(&c));
    check_instruction(
        LedgerAction::Approve { source: a, delegate: b, owner: c, amount: 5 },
        spl_token::instruction::approve(&program, &oa, &ob, &oc, &[], 5).unwrap(),
        vec![4, 5, 0, 0, 0, 0, 0, 0, 0],
    );
    check_instruction(
        LedgerAction::Revoke { source: a, owner: c },
        spl_token::instruction::revoke(&program, &oa, &oc, &[]).unwrap(),
        vec![5],
    );
    check_instruction(
        LedgerAction::Freeze { account: a, mint: b, authority: c },
        spl_token::instruction::freeze_account(&program, &oa, &ob, &oc, &[]).unwrap(),
        vec![10],
    );
    check_instruction(
        LedgerAction::Thaw { account: a, mint: b, authority: c },
        spl_token::instruction::thaw_account(&program, &oa, &ob, &oc, &[]).unwrap(),
        vec![11],
    );
    check_instruction(
        LedgerAction::Burn { account: a, mint: b, authority: c, amount: 0x0102 },
        spl_token::instruction::burn(&program, &oa, &ob, &oc, &[], 0x0102).unwrap(),
        vec![8, 2, 1, 0, 0, 0, 0, 0, 0],
    );
    check_instruction(
        LedgerAction::CloseAccount { account: a, destination: b, owner: c },
        spl_token::instruction::close_account(&program, &oa, &ob, &oc, &[]).unwrap(),
        vec![9],
    );
    check_instruction(
        LedgerAction::Transfer { source: a, destination: b, authority: c, amount: u64::MAX },
        spl_token::instruction::transfer(&program, &oa, &ob, &oc, &[], u64::MAX).unwrap(),
        vec![3, 255, 255, 255, 255, 255, 255, 255, 255],
    );
}

#[test]
fn ledger_instruction_binds_the_authority_as_the_one_signer() {
    let ids = ProgramIds::well_known();
    let ix = LedgerAction::Freeze { account: key(1), mint: key(2), authority: key(3) }
        .instruction(&ids.spl_token)
        .unwrap();
    assert_eq!(
        ix.accounts,
        vec![
            AccountMeta { pubkey: key(1), is_signer: false, is_writable: true },
            AccountMeta { pubkey: key(2), is_signer: false, is_writable: false },
            AccountMeta { pubkey: key(3), is_signer: true, is_writable: false },
        ]
    );
}
