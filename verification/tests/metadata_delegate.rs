use mpl_token_metadata::account::{AccountData, AccountInfo};
use mpl_token_metadata::error::{MetadataError, OperationError};
use mpl_token_metadata::ids::ProgramIds;
use mpl_token_metadata::instruction::metadata::{
    AuthorityType, CollectionDetailsToggle, CollectionToggle, ProgrammableConfigToggle,
    UpdateArgs, UsesToggle,
};
use mpl_token_metadata::instruction::{DelegateArgs, RevokeArgs};
use mpl_token_metadata::pda::find_metadata_delegate_record_account;
use mpl_token_metadata::processor::delegate::delegate;
use mpl_token_metadata::processor::revoke::revoke;
use mpl_token_metadata::processor::update::{update, Updated};
use mpl_token_metadata::processor::{Effect, Operation};
use mpl_token_metadata::pubkey::Pubkey;
use mpl_token_metadata::state::{
    Collection, CollectionDetails, Creator, Data, Key, Metadata, MetadataDelegateRecord,
    MetadataDelegateRole, ProgrammableConfig, TokenStandard, UseMethod, Uses,
};

fn key(n: u8) -> Pubkey {
    Pubkey::new_from_array([n; 32])
}

const UPDATE_AUTHORITY: u8 = 2;
const DELEGATE: u8 = 3;
const PAYER: u8 = 4;
const MINT: u8 = 5;
const METADATA: u8 = 7;
const STRANGER: u8 = 8;

fn custom(error: MetadataError) -> OperationError {
    OperationError::Custom(error)
}

fn info(key: Pubkey, owner: Pubkey, is_signer: bool, data: AccountData) -> AccountInfo {
    AccountInfo { key, owner, is_signer, is_writable: true, data }
}

fn metadata(standard: TokenStandard) -> Metadata {
    Metadata {
        key: Key::MetadataV1,
        update_authority: key(UPDATE_AUTHORITY),
        mint: key(MINT),
        data: Data {
            name: String::from("Digital Asset"),
            symbol: String::from("DA"),
            uri: String::from("https://digital.asset.org"),
            seller_fee_basis_points: 500,
            creators: Some(vec![Creator { address: key(PAYER), verified: true, share: 100 }]),
        },
        primary_sale_happened: false,
        is_mutable: true,
        edition_nonce: Some(254),
        token_standard: Some(standard),
        collection: None,
        uses: None,
        collection_details: None,
        programmable_config: None,
    }
}

fn record_address(ids: &ProgramIds, role: MetadataDelegateRole) -> (Pubkey, u8) {
    find_metadata_delegate_record_account(
        &ids.token_metadata,
        &key(MINT),
        role,
        &key(UPDATE_AUTHORITY),
        &key(DELEGATE),
    )
    .unwrap()
}

/// The accounts of a delegation or revocation of a metadata delegate.
fn delegate_accounts(
    ids: &ProgramIds,
    role: MetadataDelegateRole,
    approver: u8,
    record: AccountData,
) -> Vec<AccountInfo> {
    let absent = info(ids.token_metadata, key(0), false, AccountData::Empty);
    let record_owner = if record == AccountData::Empty { ids.system_program } else { ids.token_metadata };
    vec![
        info(record_address(ids, role).0, record_owner, false, record),
        info(key(DELEGATE), ids.system_program, false, AccountData::Empty),
        info(
            key(METADATA),
            ids.token_metadata,
            false,
            AccountData::Metadata(metadata(TokenStandard::NonFungible)),
        ),
        absent.clone(),
        absent.clone(),
        info(key(MINT), ids.spl_token, false, AccountData::Bytes(vec![0u8; 82])),
        absent.clone(),
        info(key(approver), ids.system_program, true, AccountData::Empty),
        info(key(PAYER), ids.system_program, true, AccountData::Empty),
        info(ids.system_program, key(0), false, AccountData::Empty),
        info(ids.sysvar_instructions, key(0), false, AccountData::Empty),
        absent.clone(),
        absent.clone(),
        absent,
    ]
}

fn collection_args() -> DelegateArgs {
    DelegateArgs::CollectionV1 { authorization_data: None }
}

#[test]
fn update_authority_creates_a_collection_delegate() {
    let ids = ProgramIds::well_known();
    let accounts =
        delegate_accounts(&ids, MetadataDelegateRole::Collection, UPDATE_AUTHORITY, AccountData::Empty);
    let (address, bump) = record_address(&ids, MetadataDelegateRole::Collection);
    assert_eq!(
        delegate(&ids.token_metadata, &ids, &accounts, collection_args()),
        Ok(vec![Effect::CreateDelegateRecord {
            account: address,
            payer: key(PAYER),
            role: MetadataDelegateRole::Collection,
            record: MetadataDelegateRecord {
                key: Key::MetadataDelegate,
                bump,
                mint: key(MINT),
                delegate: key(DELEGATE),
                update_authority: key(UPDATE_AUTHORITY),
                payer: key(4),
            },
        }])
    );
}

#[test]
fn the_same_metadata_delegate_cannot_be_created_twice() {
    let ids = ProgramIds::well_known();
    let (_, bump) = record_address(&ids, MetadataDelegateRole::Update);
    let existing = AccountData::MetadataDelegate(MetadataDelegateRecord {
        key: Key::MetadataDelegate,
        bump,
        mint: key(MINT),
        delegate: key(DELEGATE),
        update_authority: key(UPDATE_AUTHORITY),
        payer: key(4),
    });
    let accounts = delegate_accounts(&ids, MetadataDelegateRole::Update, UPDATE_AUTHORITY, existing);
    assert_eq!(
        delegate(
            &ids.token_metadata,
            &ids,
            &accounts,
            DelegateArgs::UpdateV1 { authorization_data: None }
        ),
        Err(custom(MetadataError::DelegateAlreadyExists))
    );
}

#[test]
fn metadata_delegate_checks_its_accounts_in_order() {
    let ids = ProgramIds::well_known();
    let fresh = |approver: u8| {
        delegate_accounts(&ids, MetadataDelegateRole::Collection, approver, AccountData::Empty)
    };
    let run = |accounts: &Vec<AccountInfo>| {
        delegate(&ids.token_metadata, &ids, accounts, collection_args())
    };

    let mut accounts = fresh(UPDATE_AUTHORITY);
    accounts[8].is_signer = false;
    assert_eq!(run(&accounts), Err(OperationError::MissingRequiredSignature));

    let mut accounts = fresh(UPDATE_AUTHORITY);
    accounts[2].owner = key(STRANGER);
    assert_eq!(run(&accounts), Err(custom(MetadataError::IncorrectOwner)));

    let mut accounts = fresh(UPDATE_AUTHORITY);
    accounts[10].key = key(STRANGER);
    assert_eq!(run(&accounts), Err(custom(MetadataError::KeyMismatch)));

    // only the update authority approves a metadata delegate
    assert_eq!(run(&fresh(STRANGER)), Err(custom(MetadataError::InvalidAuthorityType)));
    assert_eq!(run(&fresh(DELEGATE)), Err(custom(MetadataError::InvalidAuthorityType)));

    let mut accounts = fresh(UPDATE_AUTHORITY);
    accounts[7].is_signer = false;
    assert_eq!(run(&accounts), Err(OperationError::MissingRequiredSignature));

    let mut accounts = fresh(UPDATE_AUTHORITY);
    accounts[5].key = key(STRANGER);
    assert_eq!(run(&accounts), Err(custom(MetadataError::MintMismatch)));

    let mut accounts = fresh(UPDATE_AUTHORITY);
    accounts[0] = accounts[3].clone();
    assert_eq!(run(&accounts), Err(custom(MetadataError::MissingTokenAccount)));

    // the record of another role lies at another address
    let mut accounts = fresh(UPDATE_AUTHORITY);
    accounts[0].key = record_address(&ids, MetadataDelegateRole::Update).0;
    assert_eq!(run(&accounts), Err(custom(MetadataError::DerivedKeyInvalid)));
}

#[test]
fn metadata_delegate_is_revoked_by_itself_or_by_the_update_authority() {
    let ids = ProgramIds::well_known();
    let (address, bump) = record_address(&ids, MetadataDelegateRole::Collection);
    let record = MetadataDelegateRecord {
        key: Key::MetadataDelegate,
        bump,
        mint: key(MINT),
        delegate: key(DELEGATE),
        update_authority: key(UPDATE_AUTHORITY),
        payer: key(4),
    };
    let with = |approver: u8, data: AccountData| {
        let accounts = delegate_accounts(&ids, MetadataDelegateRole::Collection, approver, data);
        revoke(&ids.token_metadata, &ids, &accounts, RevokeArgs::CollectionV1)
    };
    // what the account held goes back to who paid for the record
    let closed = Ok(vec![Effect::CloseAccount { account: address, destination: key(PAYER) }]);
    let paid_by_another = MetadataDelegateRecord { payer: key(STRANGER), ..record };
    assert_eq!(
        with(UPDATE_AUTHORITY, AccountData::MetadataDelegate(paid_by_another)),
        Ok(vec![Effect::CloseAccount { account: address, destination: key(STRANGER) }])
    );
    assert_eq!(with(UPDATE_AUTHORITY, AccountData::MetadataDelegate(record)), closed);
    assert_eq!(with(DELEGATE, AccountData::MetadataDelegate(record)), closed);
    assert_eq!(
        with(STRANGER, AccountData::MetadataDelegate(record)),
        Err(custom(MetadataError::InvalidAuthorityType))
    );
    assert_eq!(
        with(UPDATE_AUTHORITY, AccountData::Bytes(vec![1])),
        Err(custom(MetadataError::DelegateNotFound))
    );
    assert_eq!(
        with(
            UPDATE_AUTHORITY,
            AccountData::MetadataDelegate(MetadataDelegateRecord { mint: key(STRANGER), ..record })
        ),
        Err(custom(MetadataError::InvalidDelegate))
    );
    let mut accounts = delegate_accounts(
        &ids,
        MetadataDelegateRole::Collection,
        UPDATE_AUTHORITY,
        AccountData::MetadataDelegate(record),
    );
    accounts[0] = accounts[3].clone();
    assert_eq!(
        revoke(&ids.token_metadata, &ids, &accounts, RevokeArgs::CollectionV1),
        Err(custom(MetadataError::MissingDelegateRecord))
    );
    // a delegate is known by its record: without it, or with the record of
    // another role, it is anyone
    accounts[7].key = key(DELEGATE);
    assert_eq!(
        revoke(&ids.token_metadata, &ids, &accounts, RevokeArgs::CollectionV1),
        Err(custom(MetadataError::InvalidAuthorityType))
    );
    let accounts = delegate_accounts(
        &ids,
        MetadataDelegateRole::Collection,
        DELEGATE,
        AccountData::MetadataDelegate(record),
    );
    assert_eq!(
        revoke(&ids.token_metadata, &ids, &accounts, RevokeArgs::UpdateV1),
        Err(custom(MetadataError::InvalidAuthorityType))
    );
    assert_eq!(
        with(STRANGER, AccountData::Bytes(vec![1])),
        Err(custom(MetadataError::InvalidAuthorityType))
    );
}

/// The accounts of an update.
fn update_accounts(ids: &ProgramIds, authority: u8, standard: TokenStandard) -> Vec<AccountInfo> {
    let absent = info(ids.token_metadata, key(0), false, AccountData::Empty);
    vec![
        info(key(authority), ids.system_program, true, AccountData::Empty),
        absent.clone(),
        absent.clone(),
        info(key(MINT), ids.spl_token, false, AccountData::Bytes(vec![0u8; 82])),
        info(key(METADATA), ids.token_metadata, false, AccountData::Metadata(metadata(standard))),
        absent.clone(),
        info(ids.system_program, key(0), false, AccountData::Empty),
        info(ids.sysvar_instructions, key(0), false, AccountData::Empty),
        absent.clone(),
        absent,
    ]
}

fn run_update(authority: u8, standard: TokenStandard, args: UpdateArgs) -> Result<Metadata, OperationError> {
    let ids = ProgramIds::well_known();
    update(&ids.token_metadata, &ids, update_accounts(&ids, authority, standard), args)
        .map(|updated| updated.metadata)
}

fn no_change() -> UpdateArgs {
    UpdateArgs::default()
}

#[test]
fn update_that_asks_for_nothing_changes_nothing() {
    for standard in [TokenStandard::NonFungible, TokenStandard::ProgrammableNonFungible] {
        assert_eq!(run_update(UPDATE_AUTHORITY, standard, no_change()), Ok(metadata(standard)));
    }
    assert_eq!(
        no_change(),
        UpdateArgs::V1 {
            authority_type: AuthorityType::Metadata,
            authorization_data: None,
            new_update_authority: None,
            data: None,
            primary_sale_happened: None,
            is_mutable: None,
            collection: CollectionToggle::Keep,
            collection_details: CollectionDetailsToggle::Keep,
            uses: UsesToggle::Keep,
            programmable_config: ProgrammableConfigToggle::Keep,
        }
    );
    assert_eq!(no_change().get_authority_type(), AuthorityType::Metadata);
}

#[test]
fn update_needs_the_update_authority_or_its_delegate() {
    assert_eq!(
        run_update(STRANGER, TokenStandard::NonFungible, no_change()),
        Err(custom(MetadataError::InvalidAuthorityType))
    );
    assert_eq!(
        run_update(DELEGATE, TokenStandard::NonFungible, no_change()),
        Err(custom(MetadataError::InvalidAuthorityType))
    );

    let ids = ProgramIds::well_known();
    let (address, bump) = record_address(&ids, MetadataDelegateRole::Update);
    let record = MetadataDelegateRecord {
        key: Key::MetadataDelegate,
        bump,
        mint: key(MINT),
        delegate: key(DELEGATE),
        update_authority: key(UPDATE_AUTHORITY),
        payer: key(4),
    };
    let mut accounts = update_accounts(&ids, DELEGATE, TokenStandard::NonFungible);
    accounts[1] = info(address, ids.token_metadata, false, AccountData::MetadataDelegate(record));
    assert_eq!(
        update(&ids.token_metadata, &ids, accounts.clone(), no_change()),
        Ok(Updated { metadata: metadata(TokenStandard::NonFungible), effects: vec![] })
    );
    // the record of a collection delegate is no evidence for an update
    accounts[1].key = record_address(&ids, MetadataDelegateRole::Collection).0;
    assert_eq!(
        update(&ids.token_metadata, &ids, accounts, no_change()),
        Err(custom(MetadataError::InvalidAuthorityType))
    );
}

#[test]
fn update_of_a_programmable_asset_asks_the_rule_set_it_names() {
    let ids = ProgramIds::well_known();
    let mut governed = metadata(TokenStandard::ProgrammableNonFungible);
    governed.programmable_config = Some(ProgrammableConfig { rule_set: key(12) });
    let mut accounts = update_accounts(&ids, UPDATE_AUTHORITY, TokenStandard::ProgrammableNonFungible);
    accounts[4].data = AccountData::Metadata(governed.clone());
    assert_eq!(
        update(&ids.token_metadata, &ids, accounts.clone(), no_change()),
        Err(custom(MetadataError::KeyMismatch))
    );
    accounts[9] = info(key(12), key(0), false, AccountData::Bytes(vec![1]));
    assert_eq!(
        update(&ids.token_metadata, &ids, accounts, no_change()),
        Ok(Updated {
            metadata: governed,
            effects: vec![Effect::Authorize {
                rule_set: key(12),
                operation: Operation::Update,
                mint: key(MINT),
                authority: key(UPDATE_AUTHORITY),
            }],
        })
    );
}

#[test]
fn update_replaces_what_is_given_and_keeps_the_rest() {
    let data = Data {
        name: String::from("New"),
        symbol: String::from("N"),
        uri: String::from("uri"),
        seller_fee_basis_points: 1,
        creators: None,
    };
    let uses = Uses { use_method: UseMethod::Single, remaining: 1, total: 1 };
    let collection = Collection { verified: false, key: key(9) };
    let args = UpdateArgs::V1 {
        authority_type: AuthorityType::Metadata,
        authorization_data: None,
        new_update_authority: Some(key(STRANGER)),
        data: Some(data.clone()),
        primary_sale_happened: Some(true),
        is_mutable: Some(false),
        collection: CollectionToggle::Replace(collection),
        collection_details: CollectionDetailsToggle::Replace(CollectionDetails::V1 { size: 3 }),
        uses: UsesToggle::Replace(uses),
        programmable_config: ProgrammableConfigToggle::Replace(ProgrammableConfig {
            rule_set: key(12),
        }),
    };
    let before = metadata(TokenStandard::ProgrammableNonFungible);
    assert_eq!(
        run_update(UPDATE_AUTHORITY, TokenStandard::ProgrammableNonFungible, args.clone()),
        Ok(Metadata {
            update_authority: key(STRANGER),
            data: data.clone(),
            primary_sale_happened: true,
            is_mutable: false,
            collection: Some(collection),
            collection_details: Some(CollectionDetails::V1 { size: 3 }),
            uses: Some(uses),
            programmable_config: Some(ProgrammableConfig { rule_set: key(12) }),
            ..before
        })
    );
    // the rule set is that of programmable assets alone
    let updated = run_update(UPDATE_AUTHORITY, TokenStandard::NonFungible, args).unwrap();
    assert_eq!(updated.programmable_config, None);
    assert_eq!(updated.data, data);
}

fn apply(before: &Metadata, args: UpdateArgs) -> (Result<(), OperationError>, Metadata) {
    let mut metadata = before.clone();
    let result = metadata.update_v1(args, TokenStandard::ProgrammableNonFungible);
    (result, metadata)
}

fn only(change: fn(&mut UpdateArgs)) -> UpdateArgs {
    let mut args = UpdateArgs::default();
    change(&mut args);
    args
}

#[test]
fn update_clears_what_a_toggle_clears() {
    let mut before = metadata(TokenStandard::ProgrammableNonFungible);
    before.collection = Some(Collection { verified: false, key: key(9) });
    before.uses = Some(Uses { use_method: UseMethod::Burn, remaining: 2, total: 3 });
    before.collection_details = Some(CollectionDetails::V1 { size: 1 });
    before.programmable_config = Some(ProgrammableConfig { rule_set: key(12) });
    let args = only(|args| {
        let UpdateArgs::V1 { collection, collection_details, uses, programmable_config, .. } = args;
        *collection = CollectionToggle::Clear;
        *collection_details = CollectionDetailsToggle::Clear;
        *uses = UsesToggle::Clear;
        *programmable_config = ProgrammableConfigToggle::Clear;
    });
    let (result, after) = apply(&before, args);
    assert_eq!(result, Ok(()));
    assert_eq!(
        after,
        Metadata {
            collection: None,
            uses: None,
            collection_details: None,
            programmable_config: None,
            ..before
        }
    );
}

#[test]
fn the_two_flags_move_one_way_only() {
    let mut sold = metadata(TokenStandard::NonFungible);
    sold.primary_sale_happened = true;
    sold.is_mutable = false;

    let unsell = only(|args| {
        let UpdateArgs::V1 { primary_sale_happened, .. } = args;
        *primary_sale_happened = Some(false);
    });
    let (result, after) = apply(&sold, unsell.clone());
    assert_eq!(result, Err(custom(MetadataError::PrimarySaleCanOnlyBeFlippedToTrue)));
    assert_eq!(after, sold);

    let thaw = only(|args| {
        let UpdateArgs::V1 { is_mutable, .. } = args;
        *is_mutable = Some(true);
    });
    let (result, after) = apply(&sold, thaw.clone());
    assert_eq!(result, Err(custom(MetadataError::IsMutableCanOnlyBeFlippedToFalse)));
    assert_eq!(after, sold);

    // asking for the value that is there is no reversal
    let fresh = metadata(TokenStandard::NonFungible);
    assert_eq!(apply(&fresh, unsell), (Ok(()), fresh.clone()));
    assert_eq!(apply(&fresh, thaw), (Ok(()), fresh.clone()));

    let rename = only(|args| {
        let UpdateArgs::V1 { data, .. } = args;
        *data = Some(Data {
            name: String::new(),
            symbol: String::new(),
            uri: String::new(),
            seller_fee_basis_points: 0,
            creators: None,
        });
    });
    let (result, after) = apply(&sold, rename);
    assert_eq!(result, Err(custom(MetadataError::DataIsImmutable)));
    assert_eq!(after, sold);
}

#[test]
fn a_verified_collection_is_not_changed_by_an_update() {
    let verified = Collection { verified: true, key: key(9) };
    let mut before = metadata(TokenStandard::NonFungible);
    before.collection = Some(verified);
    let refused = Err(custom(MetadataError::CannotUpdateVerifiedCollection));

    let clear = only(|args| {
        let UpdateArgs::V1 { collection, .. } = args;
        *collection = CollectionToggle::Clear;
    });
    assert_eq!(apply(&before, clear), (refused, before.clone()));

    let mut replace = UpdateArgs::default();
    {
        let UpdateArgs::V1 { collection, .. } = &mut replace;
        *collection = CollectionToggle::Replace(Collection { verified: false, key: key(10) });
    }
    assert_eq!(apply(&before, replace.clone()), (refused, before.clone()));

    let mut same = UpdateArgs::default();
    {
        let UpdateArgs::V1 { collection, .. } = &mut same;
        *collection = CollectionToggle::Replace(verified);
    }
    assert_eq!(apply(&before, same.clone()), (Ok(()), before.clone()));

    // and no update verifies a collection
    let fresh = metadata(TokenStandard::NonFungible);
    assert_eq!(apply(&fresh, same), (refused, fresh.clone()));
    let (result, after) = apply(&fresh, replace);
    assert_eq!(result, Ok(()));
    assert_eq!(after.collection, Some(Collection { verified: false, key: key(10) }));
}
