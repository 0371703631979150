use std::collections::HashMap;

use mpl_token_metadata::account::{AccountData, AccountInfo};
use mpl_token_metadata::error::{MetadataError, OperationError};
use mpl_token_metadata::ids::ProgramIds;
use mpl_token_metadata::instruction::metadata::TransferArgs;
use mpl_token_metadata::instruction::{BurnArgs, DelegateArgs, RevokeArgs};
use mpl_token_metadata::ledger::{read_account, AccountState, LedgerAction, TokenAccount};
use mpl_token_metadata::pda::{
    find_edition_marker_account, find_master_edition_account, find_token_record_account,
};
use mpl_token_metadata::processor::burn::burn;
use mpl_token_metadata::processor::delegate::delegate;
use mpl_token_metadata::processor::revoke::revoke;
use mpl_token_metadata::processor::transfer::transfer;
use mpl_token_metadata::processor::{Effect, Operation};
use mpl_token_metadata::pubkey::Pubkey;
use mpl_token_metadata::state::{
    Data, Edition, EditionMarker, Key, MasterEdition, Metadata, ProgrammableConfig, TokenDelegateRole, TokenRecord, TokenStandard,
    TokenState,
};
use solana_program::program_option::COption;
use solana_program::program_pack::Pack;

fn key(n: u8) -> Pubkey {
    Pubkey::new_from_array([n; 32])
}

fn outside(k: &Pubkey) -> solana_program::pubkey::Pubkey {
    solana_program::pubkey::Pubkey::new_from_array(k.bytes)
}

const HOLDER: u8 = 1;
const UPDATE_AUTHORITY: u8 = 2;
const DELEGATE: u8 = 3;
const PAYER: u8 = 4;
const MINT: u8 = 5;
const TOKEN: u8 = 6;
const METADATA: u8 = 7;
const STRANGER: u8 = 8;
const DESTINATION: u8 = 9;
const RECEIVER: u8 = 10;
const ATA_PROGRAM: u8 = 11;
const RULE_SET: u8 = 12;

/// The accounts of one asset, with a token ledger that is the real one.
struct World {
    ids: ProgramIds,
    accounts: HashMap<[u8; 32], AccountInfo>,
    lamports: HashMap<[u8; 32], u64>,
    edition: Pubkey,
    token_record: Pubkey,
}

impl World {
    fn new(standard: TokenStandard, supply: u64, decimals: u8) -> World {
        let ids = ProgramIds::well_known();
        let (edition, _) = find_master_edition_account(&ids.token_metadata, &key(MINT)).unwrap();
        let (token_record, bump) =
            find_token_record_account(&ids.token_metadata, &key(MINT), &key(TOKEN)).unwrap();
        let mut world = World {
            ids,
            accounts: HashMap::new(),
            lamports: HashMap::new(),
            edition,
            token_record,
        };
        let non_fungible = standard != TokenStandard::Fungible
            && standard != TokenStandard::FungibleAsset;
        let authority = if non_fungible {
            COption::Some(outside(&edition))
        } else {
            COption::Some(outside(&key(UPDATE_AUTHORITY)))
        };
        let mint = spl_token::state::Mint {
            mint_authority: authority,
            supply,
            decimals,
            is_initialized: true,
            freeze_authority: authority,
        };
        let mut mint_data = vec![0u8; spl_token::state::Mint::LEN];
        spl_token::state::Mint::pack(mint, &mut mint_data).unwrap();
        world.put(key(MINT), ids.spl_token, AccountData::Bytes(mint_data));
        world.put_token(key(TOKEN), key(HOLDER), supply);
        world.put_token(key(DESTINATION), key(RECEIVER), 0);
        world.put(
            key(METADATA),
            ids.token_metadata,
            AccountData::Metadata(Metadata {
                key: Key::MetadataV1,
                update_authority: key(UPDATE_AUTHORITY),
                mint: key(MINT),
                data: Data {
                    name: String::from("Digital Asset"),
                    symbol: String::from("DA"),
                    uri: String::from("https://digital.asset.org"),
                    seller_fee_basis_points: 500,
                    creators: None,
                },
                primary_sale_happened: false,
                is_mutable: true,
                edition_nonce: None,
                token_standard: Some(standard),
                collection: None,
                uses: None,
                collection_details: None,
                programmable_config: None,
            }),
        );
        if non_fungible {
            world.put(
                edition,
                ids.token_metadata,
                AccountData::MasterEdition(MasterEdition {
                    key: Key::MasterEditionV2,
                    supply: 0,
                    max_supply: Some(0),
                }),
            );
        }
        if standard == TokenStandard::ProgrammableNonFungible {
            world.put(
                token_record,
                ids.token_metadata,
                AccountData::TokenRecord(TokenRecord::new(bump)),
            );
        }
        for n in [HOLDER, UPDATE_AUTHORITY, DELEGATE, PAYER, STRANGER, RECEIVER] {
            world.put(key(n), ids.system_program, AccountData::Empty);
        }
        for program in [ids.system_program, ids.sysvar_instructions, ids.spl_token, key(ATA_PROGRAM)] {
            world.put(program, key(0), AccountData::Empty);
        }
        world
    }

    fn put(&mut self, key: Pubkey, owner: Pubkey, data: AccountData) {
        self.accounts.insert(
            key.bytes,
            AccountInfo { key, owner, is_signer: false, is_writable: true, data },
        );
        self.lamports.insert(key.bytes, 1_000_000);
    }

    fn put_token(&mut self, token: Pubkey, owner: Pubkey, amount: u64) {
        let account = spl_token::state::Account {
            mint: outside(&key(MINT)),
            owner: outside(&owner),
            amount,
            delegate: COption::None,
            state: spl_token::state::AccountState::Initialized,
            is_native: COption::None,
            delegated_amount: 0,
            close_authority: COption::None,
        };
        let mut data = vec![0u8; spl_token::state::Account::LEN];
        spl_token::state::Account::pack(account, &mut data).unwrap();
        let owner_program = self.ids.spl_token;
        self.put(token, owner_program, AccountData::Bytes(data));
    }

    fn account(&self, key: Pubkey) -> AccountInfo {
        self.accounts[&key.bytes].clone()
    }

    fn signer(&self, key: Pubkey) -> AccountInfo {
        let mut info = self.account(key);
        info.is_signer = true;
        info
    }

    /// What stands at an optional position that is left out.
    fn absent(&self) -> AccountInfo {
        AccountInfo {
            key: self.ids.token_metadata,
            owner: key(0),
            is_signer: false,
            is_writable: false,
            data: AccountData::Empty,
        }
    }

    fn optional(&self, key: Pubkey) -> AccountInfo {
        match self.accounts.get(&key.bytes) {
            Some(info) => info.clone(),
            None => self.absent(),
        }
    }

    fn token(&self, key: Pubkey) -> TokenAccount {
        match &self.accounts[&key.bytes].data {
            AccountData::Bytes(bytes) => read_account(bytes).unwrap(),
            _ => panic!("not a token account"),
        }
    }

    fn record(&self) -> Option<TokenRecord> {
        match self.accounts.get(&self.token_record.bytes).map(|info| &info.data) {
            Some(AccountData::TokenRecord(record)) => Some(*record),
            _ => None,
        }
    }

    fn delegate_accounts(&self, approver: u8, delegate: u8) -> Vec<AccountInfo> {
        vec![
            self.absent(),
            self.account(key(delegate)),
            self.account(key(METADATA)),
            self.optional(self.edition),
            self.optional(self.token_record),
            self.account(key(MINT)),
            self.account(key(TOKEN)),
            self.signer(key(approver)),
            self.signer(key(PAYER)),
            self.account(self.ids.system_program),
            self.account(self.ids.sysvar_instructions),
            self.account(self.ids.spl_token),
            self.absent(),
            self.optional(key(RULE_SET)),
        ]
    }

    fn burn_accounts(&self, authority: u8) -> Vec<AccountInfo> {
        vec![
            self.signer(key(authority)),
            self.optional(key(METADATA)),
            self.optional(self.edition),
            self.account(key(MINT)),
            self.account(key(TOKEN)),
            self.absent(),
            self.absent(),
            self.absent(),
            self.absent(),
            self.optional(self.token_record),
            self.account(self.ids.system_program),
            self.account(self.ids.sysvar_instructions),
            self.account(self.ids.spl_token),
            self.absent(),
            self.optional(key(RULE_SET)),
        ]
    }

    fn transfer_accounts(&self, authority: u8) -> Vec<AccountInfo> {
        vec![
            self.signer(key(authority)),
            self.optional(self.token_record),
            self.account(key(TOKEN)),
            self.account(key(HOLDER)),
            self.account(key(DESTINATION)),
            self.account(key(RECEIVER)),
            self.account(key(MINT)),
            self.account(key(METADATA)),
            self.optional(self.edition),
            self.signer(key(PAYER)),
            self.account(self.ids.spl_token),
            self.account(key(ATA_PROGRAM)),
            self.account(self.ids.system_program),
            self.account(self.ids.sysvar_instructions),
            self.absent(),
            self.optional(key(RULE_SET)),
        ]
    }

    fn delegate(&self, approver: u8, args: DelegateArgs) -> Result<Vec<Effect>, OperationError> {
        delegate(&self.ids.token_metadata, &self.ids, &self.delegate_accounts(approver, DELEGATE), args)
    }

    fn revoke(&self, approver: u8, args: RevokeArgs) -> Result<Vec<Effect>, OperationError> {
        revoke(&self.ids.token_metadata, &self.ids, &self.delegate_accounts(approver, DELEGATE), args)
    }

    fn burn(&self, authority: u8, amount: u64) -> Result<Vec<Effect>, OperationError> {
        burn(
            &self.ids.token_metadata,
            &self.ids,
            &self.burn_accounts(authority),
            BurnArgs::V1 { amount },
        )
    }

    fn transfer(&self, authority: u8, amount: u64) -> Result<Vec<Effect>, OperationError> {
        transfer(
            &self.ids.token_metadata,
            &self.ids,
            &self.transfer_accounts(authority),
            TransferArgs::V1 { authorization_data: None, amount },
        )
    }

    /// Carries out the effects of an operation, the ledger's by the ledger.
    fn apply(&mut self, effects: &[Effect]) {
        for effect in effects {
            match effect {
                Effect::WriteTokenRecord { account, record } => {
                    self.accounts.get_mut(&account.bytes).unwrap().data =
                        AccountData::TokenRecord(*record);
                }
                Effect::CreateTokenRecord { account, record, .. } => {
                    let owner = self.ids.token_metadata;
                    self.put(*account, owner, AccountData::TokenRecord(*record));
                }
                Effect::CreateDelegateRecord { account, record, .. } => {
                    let owner = self.ids.token_metadata;
                    self.put(*account, owner, AccountData::MetadataDelegate(*record));
                }
                Effect::CloseAccount { account, destination } => {
                    let freed = self.lamports.insert(account.bytes, 0).unwrap();
                    *self.lamports.get_mut(&destination.bytes).unwrap() += freed;
                    let system = self.ids.system_program;
                    let info = self.accounts.get_mut(&account.bytes).unwrap();
                    info.data = AccountData::Empty;
                    info.owner = system;
                }
                Effect::WriteMasterEdition { account, record } => {
                    self.accounts.get_mut(&account.bytes).unwrap().data =
                        AccountData::MasterEdition(*record);
                }
                Effect::WriteEditionMarker { account, record } => {
                    self.accounts.get_mut(&account.bytes).unwrap().data =
                        AccountData::EditionMarker(*record);
                }
                Effect::Authorize { .. } => {}
                Effect::Ledger(action) => self.ledger(action).unwrap(),
            }
        }
    }

    /// Hands one action to the processor of the token ledger.
    fn ledger(&mut self, action: &LedgerAction) -> Result<(), solana_program::program_error::ProgramError> {
        let ix = action.instruction(&self.ids.spl_token).unwrap();
        let program = outside(&ix.program_id);
        let mut slots: Vec<(solana_program::pubkey::Pubkey, solana_program::pubkey::Pubkey, u64, Vec<u8>)> =
            Vec::new();
        for meta in &ix.accounts {
            let info = &self.accounts[&meta.pubkey.bytes];
            let data = match &info.data {
                AccountData::Bytes(bytes) => bytes.clone(),
                _ => Vec::new(),
            };
            slots.push((
                outside(&meta.pubkey),
                outside(&info.owner),
                self.lamports[&meta.pubkey.bytes],
                data,
            ));
        }
        let result = {
            let infos: Vec<solana_program::account_info::AccountInfo> = slots
                .iter_mut()
                .zip(ix.accounts.iter())
                .map(|(slot, meta)| {
                    solana_program::account_info::AccountInfo::new(
                        &slot.0,
                        meta.is_signer,
                        meta.is_writable,
                        &mut slot.2,
                        &mut slot.3,
                        &slot.1,
                        false,
                        0,
                    )
                })
                .collect();
            spl_token::processor::Processor::process(&program, &infos, &ix.data)
        };
        if result.is_ok() {
            for (slot, meta) in slots.into_iter().zip(ix.accounts.iter()) {
                if meta.is_writable {
                    self.lamports.insert(meta.pubkey.bytes, slot.2);
                    let info = self.accounts.get_mut(&meta.pubkey.bytes).unwrap();
                    info.owner = Pubkey::new_from_array(slot.1.to_bytes());
                    info.data = AccountData::Bytes(slot.3);
                }
            }
        }
        result
    }
}

fn custom(error: MetadataError) -> OperationError {
    OperationError::Custom(error)
}

fn sale(amount: u64) -> DelegateArgs {
    DelegateArgs::SaleV1 { amount, authorization_data: None }
}

fn transfer_delegate(amount: u64) -> DelegateArgs {
    DelegateArgs::TransferV1 { amount, authorization_data: None }
}

#[test]
fn sale_delegate_lists_and_freezes_then_revoke_unlocks_and_burn_destroys() {
    let mut world = World::new(TokenStandard::ProgrammableNonFungible, 1, 0);
    assert_eq!(world.record().unwrap().state, TokenState::Unlocked);
    assert_eq!(world.token(key(TOKEN)).state, AccountState::Initialized);

    // create the sale delegate: the token is listed and its account frozen
    let effects = world.delegate(HOLDER, sale(1)).unwrap();
    assert_eq!(
        effects,
        vec![
            Effect::WriteTokenRecord {
                account: world.token_record,
                record: TokenRecord {
                    state: TokenState::Listed,
                    delegate: Some(key(DELEGATE)),
                    delegate_role: Some(TokenDelegateRole::Sale),
                    ..world.record().unwrap()
                },
            },
            Effect::Ledger(LedgerAction::Approve {
                source: key(TOKEN),
                delegate: key(DELEGATE),
                owner: key(HOLDER),
                amount: 1,
            }),
            Effect::Ledger(LedgerAction::Freeze {
                account: key(TOKEN),
                mint: key(MINT),
                authority: world.edition,
            }),
        ]
    );
    world.apply(&effects);
    assert_eq!(world.record().unwrap().state, TokenState::Listed);
    assert_eq!(world.record().unwrap().delegate, Some(key(DELEGATE)));
    assert_eq!(world.token(key(TOKEN)).state, AccountState::Frozen);
    assert_eq!(world.token(key(TOKEN)).delegate, Some(key(DELEGATE)));
    assert_eq!(world.token(key(TOKEN)).delegated_amount, 1);

    // a listed token cannot be burned
    assert_eq!(world.burn(HOLDER, 1), Err(custom(MetadataError::IncorrectTokenState)));
    assert_eq!(world.record().unwrap().state, TokenState::Listed);

    // revoke the sale delegate: the token is unlocked and its account thawed
    let effects = world.revoke(HOLDER, RevokeArgs::SaleV1).unwrap();
    world.apply(&effects);
    assert_eq!(world.record().unwrap().state, TokenState::Unlocked);
    assert_eq!(world.record().unwrap().delegate, None);
    assert_eq!(world.record().unwrap().delegate_role, None);
    assert_eq!(world.token(key(TOKEN)).state, AccountState::Initialized);
    assert_eq!(world.token(key(TOKEN)).delegate, None);

    // now the burn succeeds and the token record is destroyed
    let effects = world.burn(HOLDER, 1).unwrap();
    assert_eq!(
        effects.last(),
        Some(&Effect::CloseAccount { account: world.token_record, destination: key(HOLDER) })
    );
    world.apply(&effects);
    assert_eq!(world.record(), None);
    assert_eq!(world.account(world.token_record).data, AccountData::Empty);
    assert_eq!(world.account(key(METADATA)).data, AccountData::Empty);
    assert_eq!(world.account(key(MINT)).mint().unwrap().supply, 0);
}

#[test]
fn transfer_delegate_waits_for_the_sale_delegate_to_be_revoked() {
    let mut world = World::new(TokenStandard::ProgrammableNonFungible, 1, 0);
    let effects = world.delegate(HOLDER, sale(1)).unwrap();
    world.apply(&effects);

    assert_eq!(
        world.delegate(HOLDER, transfer_delegate(1)),
        Err(custom(MetadataError::DelegateAlreadyExists))
    );
    assert_eq!(world.record().unwrap().delegate_role, Some(TokenDelegateRole::Sale));

    let effects = world.revoke(HOLDER, RevokeArgs::SaleV1).unwrap();
    world.apply(&effects);
    let effects = world.delegate(HOLDER, transfer_delegate(1)).unwrap();
    world.apply(&effects);
    assert_eq!(world.record().unwrap().state, TokenState::Locked);
    assert_eq!(world.record().unwrap().delegate_role, Some(TokenDelegateRole::Transfer));
    assert_eq!(world.token(key(TOKEN)).state, AccountState::Frozen);
}

#[test]
fn a_delegate_that_is_no_sale_delegate_is_replaced() {
    let mut world = World::new(TokenStandard::ProgrammableNonFungible, 1, 0);
    let effects = world.delegate(HOLDER, transfer_delegate(1)).unwrap();
    world.apply(&effects);
    assert_eq!(world.record().unwrap().state, TokenState::Locked);

    // the account is frozen, so the replacement thaws it first
    let effects = world
        .delegate(HOLDER, DelegateArgs::UtilityV1 { amount: 1, authorization_data: None })
        .unwrap();
    assert_eq!(effects.len(), 4);
    assert_eq!(
        effects[1],
        Effect::Ledger(LedgerAction::Thaw {
            account: key(TOKEN),
            mint: key(MINT),
            authority: world.edition,
        })
    );
    world.apply(&effects);
    assert_eq!(world.record().unwrap().delegate_role, Some(TokenDelegateRole::Utility));
    assert_eq!(world.record().unwrap().state, TokenState::Locked);
    assert_eq!(world.token(key(TOKEN)).state, AccountState::Frozen);

    // a sale delegate may replace it too, and lists the token
    let effects = world.delegate(HOLDER, sale(1)).unwrap();
    world.apply(&effects);
    assert_eq!(world.record().unwrap().state, TokenState::Listed);
}

#[test]
fn burn_of_a_locked_token_fails_for_its_utility_delegate_too() {
    let mut world = World::new(TokenStandard::ProgrammableNonFungible, 1, 0);
    let effects = world
        .delegate(HOLDER, DelegateArgs::UtilityV1 { amount: 1, authorization_data: None })
        .unwrap();
    world.apply(&effects);
    assert_eq!(world.burn(DELEGATE, 1), Err(custom(MetadataError::IncorrectTokenState)));
    assert_eq!(world.burn(HOLDER, 1), Err(custom(MetadataError::IncorrectTokenState)));
}

#[test]
fn burn_takes_the_token_record_of_the_token_account_only() {
    let world = World::new(TokenStandard::ProgrammableNonFungible, 1, 0);
    let ids = world.ids;
    let run = |accounts: &Vec<AccountInfo>| {
        burn(&ids.token_metadata, &ids, accounts, BurnArgs::V1 { amount: 1 })
    };
    // the unlocked record of another token account does not unlock this one
    let (elsewhere, bump) =
        find_token_record_account(&ids.token_metadata, &key(MINT), &key(DESTINATION)).unwrap();
    let mut accounts = world.burn_accounts(HOLDER);
    accounts[9] = AccountInfo {
        key: elsewhere,
        owner: ids.token_metadata,
        is_signer: false,
        is_writable: true,
        data: AccountData::TokenRecord(TokenRecord::new(bump)),
    };
    assert_eq!(run(&accounts), Err(custom(MetadataError::KeyMismatch)));

    let mut accounts = world.burn_accounts(HOLDER);
    accounts[9].owner = key(STRANGER);
    assert_eq!(run(&accounts), Err(custom(MetadataError::IncorrectOwner)));

    let mut accounts = world.burn_accounts(HOLDER);
    accounts[9] = world.absent();
    assert_eq!(run(&accounts), Err(custom(MetadataError::MissingTokenRecord)));

    let mut accounts = world.burn_accounts(HOLDER);
    accounts[2].key = key(STRANGER);
    assert_eq!(run(&accounts), Err(custom(MetadataError::DerivedKeyInvalid)));
}

#[test]
fn burn_is_refused_to_a_stranger() {
    let world = World::new(TokenStandard::ProgrammableNonFungible, 1, 0);
    assert_eq!(world.burn(STRANGER, 1), Err(custom(MetadataError::InvalidAuthorityType)));
    assert_eq!(world.burn(UPDATE_AUTHORITY, 1), Err(custom(MetadataError::InvalidAuthorityType)));
}

#[test]
fn burn_of_a_non_fungible_asset_takes_exactly_one_token_and_its_edition() {
    let world = World::new(TokenStandard::NonFungible, 1, 0);
    assert_eq!(world.burn(HOLDER, 2), Err(custom(MetadataError::InvalidAmount)));
    assert_eq!(world.burn(HOLDER, 0), Err(custom(MetadataError::InvalidAmount)));

    let mut accounts = world.burn_accounts(HOLDER);
    accounts[2] = world.absent();
    let ids = world.ids;
    assert_eq!(
        burn(&ids.token_metadata, &ids, &accounts, BurnArgs::V1 { amount: 1 }),
        Err(custom(MetadataError::MissingEdition))
    );

    let mut world = world;
    let effects = world.burn(HOLDER, 1).unwrap();
    assert_eq!(
        effects,
        vec![
            Effect::Ledger(LedgerAction::Burn {
                account: key(TOKEN),
                mint: key(MINT),
                authority: key(HOLDER),
                amount: 1,
            }),
            Effect::Ledger(LedgerAction::CloseAccount {
                account: key(TOKEN),
                destination: key(HOLDER),
                owner: key(HOLDER),
            }),
            Effect::CloseAccount { account: key(METADATA), destination: key(HOLDER) },
            Effect::CloseAccount { account: world.edition, destination: key(HOLDER) },
        ]
    );
    world.apply(&effects);
    assert_eq!(world.account(key(MINT)).mint().unwrap().supply, 0);
}

#[test]
fn burn_of_a_print_reads_the_addresses_that_link_it_to_its_master_edition() {
    let mut world = World::new(TokenStandard::NonFungibleEdition, 1, 0);
    let ids = world.ids;
    let master_mint = key(13);
    let (parent, _) = find_master_edition_account(&ids.token_metadata, &master_mint).unwrap();
    let (marker, _) = find_edition_marker_account(&ids.token_metadata, &master_mint, 250).unwrap();
    let mut ledger = [0u8; 31];
    ledger[0] = 0b0010_0000;
    world.put(
        world.edition,
        ids.token_metadata,
        AccountData::Edition(Edition { key: Key::EditionV1, parent, edition: 250 }),
    );
    world.put(
        parent,
        ids.token_metadata,
        AccountData::MasterEdition(MasterEdition {
            key: Key::MasterEditionV2,
            supply: 251,
            max_supply: None,
        }),
    );
    world.put(master_mint, ids.spl_token, AccountData::Empty);
    world.put(
        marker,
        ids.token_metadata,
        AccountData::EditionMarker(EditionMarker { key: Key::EditionMarker, ledger }),
    );
    let accounts = |world: &World, marker: Pubkey| {
        let mut accounts = world.burn_accounts(HOLDER);
        accounts[5] = world.account(parent);
        accounts[6] = world.account(master_mint);
        accounts[8] = world.account(marker);
        accounts
    };
    let run = |accounts: &Vec<AccountInfo>| {
        burn(&ids.token_metadata, &ids, accounts, BurnArgs::V1 { amount: 1 })
    };
    // the marker of another range of prints is not the marker of this print
    let (first, _) = find_edition_marker_account(&ids.token_metadata, &master_mint, 3).unwrap();
    world.put(
        first,
        ids.token_metadata,
        AccountData::EditionMarker(EditionMarker { key: Key::EditionMarker, ledger }),
    );
    assert_eq!(run(&accounts(&world, first)), Err(custom(MetadataError::DerivedKeyInvalid)));

    let effects = run(&accounts(&world, marker)).unwrap();
    assert_eq!(effects.len(), 6);
    world.apply(&effects);
    assert_eq!(
        world.account(parent).data,
        AccountData::MasterEdition(MasterEdition {
            key: Key::MasterEditionV2,
            supply: 250,
            max_supply: None,
        })
    );
    assert_eq!(
        world.account(marker).data,
        AccountData::EditionMarker(EditionMarker { key: Key::EditionMarker, ledger: [0u8; 31] })
    );
    assert_eq!(world.account(world.edition).data, AccountData::Empty);
}

#[test]
fn burn_of_fungible_tokens_closes_the_account_only_when_it_is_emptied() {
    let mut world = World::new(TokenStandard::Fungible, 100, 2);
    let effects = world.burn(HOLDER, 40).unwrap();
    assert_eq!(
        effects,
        vec![Effect::Ledger(LedgerAction::Burn {
            account: key(TOKEN),
            mint: key(MINT),
            authority: key(HOLDER),
            amount: 40,
        })]
    );
    world.apply(&effects);
    assert_eq!(world.token(key(TOKEN)).amount, 60);
    let effects = world.burn(HOLDER, 60).unwrap();
    assert_eq!(effects.len(), 2);
    world.apply(&effects);
    assert_eq!(world.account(key(MINT)).mint().unwrap().supply, 0);
}

#[test]
fn burn_checks_its_accounts_in_order() {
    let world = World::new(TokenStandard::Fungible, 100, 2);
    let ids = world.ids;
    let run = |accounts: &Vec<AccountInfo>| {
        burn(&ids.token_metadata, &ids, accounts, BurnArgs::V1 { amount: 1 })
    };

    let mut accounts = world.burn_accounts(HOLDER);
    accounts.pop();
    assert_eq!(run(&accounts), Err(OperationError::NotEnoughAccountKeys));

    let mut accounts = world.burn_accounts(HOLDER);
    accounts[0].is_signer = false;
    accounts[1].owner = key(STRANGER);
    assert_eq!(run(&accounts), Err(OperationError::MissingRequiredSignature));

    let mut accounts = world.burn_accounts(HOLDER);
    accounts[1].owner = key(STRANGER);
    accounts[12] = world.account(key(STRANGER));
    assert_eq!(run(&accounts), Err(custom(MetadataError::IncorrectOwner)));

    let mut accounts = world.burn_accounts(HOLDER);
    accounts[12] = world.account(key(STRANGER));
    assert_eq!(run(&accounts), Err(OperationError::IncorrectProgramId));

    let mut accounts = world.burn_accounts(HOLDER);
    accounts[1].data = AccountData::Empty;
    assert_eq!(run(&accounts), Err(custom(MetadataError::DataTypeMismatch)));

    let mut accounts = world.burn_accounts(HOLDER);
    accounts[4].data = AccountData::Bytes(vec![0u8; 10]);
    assert_eq!(run(&accounts), Err(OperationError::InvalidAccountData));

    let mut accounts = world.burn_accounts(HOLDER);
    accounts[4].data = AccountData::Bytes(vec![0u8; 165]);
    assert_eq!(run(&accounts), Err(custom(MetadataError::Uninitialized)));
}

#[test]
fn holder_cannot_transfer_more_than_the_balance() {
    let mut world = World::new(TokenStandard::Fungible, 100, 2);
    assert_eq!(world.transfer(HOLDER, 101), Err(custom(MetadataError::InsufficientTokenBalance)));
    assert_eq!(world.token(key(TOKEN)).amount, 100);
    assert_eq!(world.token(key(DESTINATION)).amount, 0);

    let effects = world.transfer(HOLDER, 100).unwrap();
    assert_eq!(
        effects,
        vec![Effect::Ledger(LedgerAction::Transfer {
            source: key(TOKEN),
            destination: key(DESTINATION),
            authority: key(HOLDER),
            amount: 100,
        })]
    );
    world.apply(&effects);
    assert_eq!(world.token(key(TOKEN)).amount, 0);
    assert_eq!(world.token(key(DESTINATION)).amount, 100);
}

#[test]
fn transfer_is_refused_to_a_stranger() {
    let world = World::new(TokenStandard::Fungible, 100, 2);
    assert_eq!(world.transfer(STRANGER, 1), Err(custom(MetadataError::InvalidAuthorityType)));
    // whatever the amount: the balance is looked at for those who may transfer
    assert_eq!(world.transfer(STRANGER, 101), Err(custom(MetadataError::InvalidAuthorityType)));
    assert_eq!(world.transfer(UPDATE_AUTHORITY, 0), Err(custom(MetadataError::InvalidAuthorityType)));
}

#[test]
fn holder_transfers_an_unlocked_programmable_asset() {
    let mut world = World::new(TokenStandard::ProgrammableNonFungible, 1, 0);
    assert_eq!(world.transfer(HOLDER, 2), Err(custom(MetadataError::InsufficientTokenBalance)));
    let effects = world.transfer(HOLDER, 1).unwrap();
    let (target, bump) =
        find_token_record_account(&world.ids.token_metadata, &key(MINT), &key(DESTINATION))
            .unwrap();
    assert_eq!(
        effects,
        vec![
            Effect::Ledger(LedgerAction::Transfer {
                source: key(TOKEN),
                destination: key(DESTINATION),
                authority: key(HOLDER),
                amount: 1,
            }),
            Effect::WriteTokenRecord { account: world.token_record, record: world.record().unwrap() },
            Effect::CreateTokenRecord {
                account: target,
                payer: key(PAYER),
                mint: key(MINT),
                token: key(DESTINATION),
                record: TokenRecord::new(bump),
            },
        ]
    );
    world.apply(&effects);
    assert_eq!(world.token(key(DESTINATION)).amount, 1);
    assert_eq!(world.account(target).data, AccountData::TokenRecord(TokenRecord::new(bump)));
}

#[test]
fn holder_cannot_transfer_a_listed_asset_and_the_sale_delegate_can() {
    let mut world = World::new(TokenStandard::ProgrammableNonFungible, 1, 0);
    let effects = world.delegate(HOLDER, sale(1)).unwrap();
    world.apply(&effects);
    assert_eq!(world.transfer(HOLDER, 1), Err(custom(MetadataError::IncorrectTokenState)));

    let effects = world.transfer(DELEGATE, 1).unwrap();
    assert_eq!(
        effects[0],
        Effect::Ledger(LedgerAction::Thaw {
            account: key(TOKEN),
            mint: key(MINT),
            authority: world.edition,
        })
    );
    world.apply(&effects);
    assert_eq!(world.token(key(DESTINATION)).amount, 1);
    assert_eq!(world.token(key(TOKEN)).amount, 0);
    assert_eq!(world.record().unwrap().state, TokenState::Unlocked);
    assert_eq!(world.record().unwrap().delegate, None);
    assert_eq!(world.token(key(TOKEN)).state, AccountState::Initialized);
}

/// Lets the metadata of the asset name a rule set.
fn govern(world: &mut World) {
    let mut metadata = match world.account(key(METADATA)).data {
        AccountData::Metadata(metadata) => metadata,
        _ => unreachable!(),
    };
    metadata.programmable_config = Some(ProgrammableConfig { rule_set: key(RULE_SET) });
    let owner = world.ids.token_metadata;
    world.put(key(METADATA), owner, AccountData::Metadata(metadata));
}

#[test]
fn delegate_and_burn_of_a_programmable_asset_ask_the_rule_set_it_names() {
    let mut world = World::new(TokenStandard::ProgrammableNonFungible, 1, 0);
    govern(&mut world);
    // the rule set is not among the accounts
    assert_eq!(world.delegate(HOLDER, sale(1)), Err(custom(MetadataError::KeyMismatch)));
    assert_eq!(world.burn(HOLDER, 1), Err(custom(MetadataError::KeyMismatch)));

    world.put(key(RULE_SET), key(0), AccountData::Bytes(vec![1, 2, 3]));
    let effects = world.delegate(HOLDER, sale(1)).unwrap();
    assert_eq!(effects.len(), 4);
    assert_eq!(
        effects[0],
        Effect::Authorize {
            rule_set: key(RULE_SET),
            operation: Operation::Delegate,
            mint: key(MINT),
            authority: key(HOLDER),
        }
    );
    let effects = world.burn(HOLDER, 1).unwrap();
    assert_eq!(
        effects[0],
        Effect::Authorize {
            rule_set: key(RULE_SET),
            operation: Operation::Burn,
            mint: key(MINT),
            authority: key(HOLDER),
        }
    );
    // the rule set of an asset that is not programmable governs nothing
    let mut plain = World::new(TokenStandard::Fungible, 10, 2);
    govern(&mut plain);
    assert_eq!(plain.burn(HOLDER, 1).map(|effects| effects.len()), Ok(1));
    assert_eq!(plain.transfer(HOLDER, 1).map(|effects| effects.len()), Ok(1));
}

#[test]
fn transfer_of_a_programmable_asset_asks_the_rule_set_it_names() {
    let mut world = World::new(TokenStandard::ProgrammableNonFungible, 1, 0);
    govern(&mut world);

    // the rule set is not among the accounts
    assert_eq!(world.transfer(HOLDER, 1), Err(custom(MetadataError::KeyMismatch)));

    world.put(key(RULE_SET), key(0), AccountData::Bytes(vec![1, 2, 3]));
    let effects = world.transfer(HOLDER, 1).unwrap();
    assert_eq!(
        effects[0],
        Effect::Authorize {
            rule_set: key(RULE_SET),
            operation: Operation::Transfer,
            mint: key(MINT),
            authority: key(HOLDER),
        }
    );
}

#[test]
fn delegate_of_an_asset_that_is_not_programmable_is_the_ledgers_alone() {
    let mut world = World::new(TokenStandard::Fungible, 100, 2);
    assert_eq!(world.delegate(HOLDER, sale(5)), Err(custom(MetadataError::InvalidTokenStandard)));
    let effects = world.delegate(HOLDER, transfer_delegate(5)).unwrap();
    assert_eq!(
        effects,
        vec![Effect::Ledger(LedgerAction::Approve {
            source: key(TOKEN),
            delegate: key(DELEGATE),
            owner: key(HOLDER),
            amount: 5,
        })]
    );
    world.apply(&effects);
    assert_eq!(world.token(key(TOKEN)).delegate, Some(key(DELEGATE)));
    assert_eq!(world.token(key(TOKEN)).delegated_amount, 5);
    assert_eq!(world.token(key(TOKEN)).state, AccountState::Initialized);

    assert_eq!(world.revoke(STRANGER, RevokeArgs::TransferV1), Err(custom(MetadataError::InvalidAuthorityType)));
    assert_eq!(world.revoke(HOLDER, RevokeArgs::SaleV1), Err(custom(MetadataError::InvalidTokenStandard)));
    let effects = world.revoke(HOLDER, RevokeArgs::TransferV1).unwrap();
    assert_eq!(
        effects,
        vec![Effect::Ledger(LedgerAction::Revoke { source: key(TOKEN), owner: key(HOLDER) })]
    );
    world.apply(&effects);
    assert_eq!(world.token(key(TOKEN)).delegate, None);
    assert_eq!(world.revoke(HOLDER, RevokeArgs::TransferV1), Err(custom(MetadataError::DelegateNotFound)));
}

#[test]
fn token_delegate_checks_its_accounts_in_order() {
    let world = World::new(TokenStandard::ProgrammableNonFungible, 1, 0);
    let ids = world.ids;
    let run = |accounts: &Vec<AccountInfo>| {
        delegate(&ids.token_metadata, &ids, accounts, transfer_delegate(1))
    };

    let mut accounts = world.delegate_accounts(HOLDER, DELEGATE);
    accounts.truncate(13);
    assert_eq!(run(&accounts), Err(OperationError::NotEnoughAccountKeys));

    let mut accounts = world.delegate_accounts(HOLDER, DELEGATE);
    accounts[6] = world.absent();
    accounts[11] = world.absent();
    assert_eq!(run(&accounts), Err(custom(MetadataError::MissingTokenAccount)));

    let mut accounts = world.delegate_accounts(HOLDER, DELEGATE);
    accounts[11] = world.absent();
    accounts[7].is_signer = false;
    assert_eq!(run(&accounts), Err(custom(MetadataError::MissingSplTokenProgram)));

    let mut accounts = world.delegate_accounts(HOLDER, DELEGATE);
    accounts[7].is_signer = false;
    accounts[5].owner = key(STRANGER);
    assert_eq!(run(&accounts), Err(OperationError::MissingRequiredSignature));

    let mut accounts = world.delegate_accounts(HOLDER, DELEGATE);
    accounts[5].owner = key(STRANGER);
    accounts[9] = world.account(key(STRANGER));
    assert_eq!(run(&accounts), Err(custom(MetadataError::IncorrectOwner)));

    let mut accounts = world.delegate_accounts(HOLDER, DELEGATE);
    accounts[9] = world.account(key(STRANGER));
    assert_eq!(run(&accounts), Err(custom(MetadataError::KeyMismatch)));

    let mut accounts = world.delegate_accounts(HOLDER, DELEGATE);
    accounts[5].key = key(STRANGER);
    assert_eq!(run(&accounts), Err(custom(MetadataError::MintMismatch)));

    let mut accounts = world.delegate_accounts(HOLDER, DELEGATE);
    accounts[6].data = AccountData::Bytes(vec![0u8; 165]);
    assert_eq!(run(&accounts), Err(OperationError::UninitializedAccount));

    // only the holder approves a token delegate
    for approver in [STRANGER, UPDATE_AUTHORITY, DELEGATE] {
        let accounts = world.delegate_accounts(approver, DELEGATE);
        assert_eq!(run(&accounts), Err(custom(MetadataError::InvalidAuthorityType)));
    }
    // and holding means a token account of the mint that holds a token
    let mut empty = World::new(TokenStandard::ProgrammableNonFungible, 1, 0);
    empty.put_token(key(TOKEN), key(HOLDER), 0);
    assert_eq!(
        run(&empty.delegate_accounts(HOLDER, DELEGATE)),
        Err(custom(MetadataError::InvalidAuthorityType))
    );

    let mut accounts = world.delegate_accounts(HOLDER, DELEGATE);
    accounts[4] = world.absent();
    assert_eq!(run(&accounts), Err(custom(MetadataError::MissingTokenRecord)));

    let mut accounts = world.delegate_accounts(HOLDER, DELEGATE);
    accounts[4].key = key(STRANGER);
    assert_eq!(run(&accounts), Err(custom(MetadataError::KeyMismatch)));

    // a record that is locked without a delegate is no token record
    let mut accounts = world.delegate_accounts(HOLDER, DELEGATE);
    accounts[4].data = AccountData::TokenRecord(TokenRecord {
        state: TokenState::Locked,
        ..world.record().unwrap()
    });
    assert_eq!(run(&accounts), Err(custom(MetadataError::DataTypeMismatch)));

    let mut accounts = world.delegate_accounts(HOLDER, DELEGATE);
    accounts[3] = world.absent();
    assert_eq!(run(&accounts), Err(custom(MetadataError::MissingEditionAccount)));

    let mut accounts = world.delegate_accounts(HOLDER, DELEGATE);
    accounts[3].key = key(STRANGER);
    assert_eq!(run(&accounts), Err(custom(MetadataError::DerivedKeyInvalid)));
}

#[test]
fn revoke_names_the_delegate_and_the_role_on_record() {
    let mut world = World::new(TokenStandard::ProgrammableNonFungible, 1, 0);
    assert_eq!(world.revoke(HOLDER, RevokeArgs::SaleV1), Err(custom(MetadataError::DelegateNotFound)));
    // who may not revoke learns nothing about the delegate
    assert_eq!(world.revoke(STRANGER, RevokeArgs::SaleV1), Err(custom(MetadataError::InvalidAuthorityType)));
    assert_eq!(world.revoke(DELEGATE, RevokeArgs::SaleV1), Err(custom(MetadataError::InvalidAuthorityType)));
    let effects = world.delegate(HOLDER, sale(1)).unwrap();
    world.apply(&effects);
    assert_eq!(world.revoke(HOLDER, RevokeArgs::TransferV1), Err(custom(MetadataError::InvalidDelegate)));
    assert_eq!(world.revoke(STRANGER, RevokeArgs::SaleV1), Err(custom(MetadataError::InvalidAuthorityType)));
    // the sale delegate is no transfer delegate
    assert_eq!(world.revoke(DELEGATE, RevokeArgs::TransferV1), Err(custom(MetadataError::InvalidAuthorityType)));
    // the delegate itself and the update authority may revoke as well
    assert!(world.revoke(DELEGATE, RevokeArgs::SaleV1).is_ok());
    assert!(world.revoke(UPDATE_AUTHORITY, RevokeArgs::SaleV1).is_ok());
}
