use crate::account::{
    spec_delegate_record_from_account_info, spec_metadata_from_account_info, AccountData,
    AccountInfo,
};
use crate::assertions::{assert_keys_equal, assert_owned_by, assert_signer, custom};
use crate::authority::{AuthorityRequest, AuthorityType};
use crate::error::{MetadataError, OperationError};
use crate::ids::ProgramIds;
use crate::instruction::metadata::{
    CollectionDetailsToggle, CollectionToggle, ProgrammableConfigToggle, UpdateArgs, UsesToggle,
};
use crate::instruction::{Context, Update};
use crate::pda::{
    check_derived_key, derived_key, find_metadata_delegate_record_account,
    metadata_delegate_seeds, program_address,
};
use crate::processor::{
    authorize, find_rule_set, governing_rule_set, read_accounts, readings_of,
    rule_set_presented, settle_token_standard, settled_token_standard, spec_authorize, Effect,
    Operation, Readings,
};
use crate::pubkey::Pubkey;
use crate::state::{
    Collection, Metadata, MetadataDelegateRecord, MetadataDelegateRole, TokenStandard,
};
use vstd::prelude::*;

verus! {

/// Whether an update may change the collection as the toggle asks. A
/// verified collection can be neither cleared nor replaced, and no update
/// verifies one; replacing a collection by itself is always allowed.
pub open spec fn collection_change_allowed(current: Option<Collection>, toggle: CollectionToggle) -> bool {
    match toggle {
        CollectionToggle::Keep => true,
        CollectionToggle::Clear => !(current matches Some(c) && c.verified),
        CollectionToggle::Replace(new) => current == Some(new) || (!new.verified && !(
        current matches Some(c) && c.verified)),
    }
}

impl Metadata {
    /// Why the update cannot be applied, if it cannot. The display data of
    /// an immutable asset does not change; a verified collection does not
    /// change; and the two flags that move one way only are not moved back:
    /// an update that asks for that is refused, not passed over.
    pub open spec fn update_error(&self, args: UpdateArgs) -> Option<MetadataError> {
        match args {
            UpdateArgs::V1 { data, primary_sale_happened, is_mutable, collection, .. } => {
                if data is Some && !self.is_mutable {
                    Some(MetadataError::DataIsImmutable)
                } else if !collection_change_allowed(self.collection, collection) {
                    Some(MetadataError::CannotUpdateVerifiedCollection)
                } else if primary_sale_happened == Some(false) && self.primary_sale_happened {
                    Some(MetadataError::PrimarySaleCanOnlyBeFlippedToTrue)
                } else if is_mutable == Some(true) && !self.is_mutable {
                    Some(MetadataError::IsMutableCanOnlyBeFlippedToFalse)
                } else {
                    None
                }
            },
        }
    }

    /// The metadata after the update: each optional value that is there
    /// replaces the old one, and each toggle keeps, clears or replaces. The
    /// programmable configuration is that of programmable assets alone; for
    /// any other standard its toggle is passed over.
    pub open spec fn updated(self, args: UpdateArgs, token_standard: TokenStandard) -> Metadata {
        match args {
            UpdateArgs::V1 {
                new_update_authority,
                data,
                primary_sale_happened,
                is_mutable,
                collection,
                collection_details,
                uses,
                programmable_config,
                ..
            } => Metadata {
                update_authority: match new_update_authority {
                    Some(authority) => authority,
                    None => self.update_authority,
                },
                data: match data {
                    Some(data) => data,
                    None => self.data,
                },
                primary_sale_happened: match primary_sale_happened {
                    Some(happened) => happened,
                    None => self.primary_sale_happened,
                },
                is_mutable: match is_mutable {
                    Some(mutable) => mutable,
                    None => self.is_mutable,
                },
                collection: match collection {
                    CollectionToggle::Keep => self.collection,
                    CollectionToggle::Clear => None,
                    CollectionToggle::Replace(value) => Some(value),
                },
                collection_details: match collection_details {
                    CollectionDetailsToggle::Keep => self.collection_details,
                    CollectionDetailsToggle::Clear => None,
                    CollectionDetailsToggle::Replace(value) => Some(value),
                },
                uses: match uses {
                    UsesToggle::Keep => self.uses,
                    UsesToggle::Clear => None,
                    UsesToggle::Replace(value) => Some(value),
                },
                programmable_config: match programmable_config {
                    ProgrammableConfigToggle::Keep => self.programmable_config,
                    _ => if token_standard == TokenStandard::ProgrammableNonFungible {
                        programmable_config.spec_to_option()
                    } else {
                        self.programmable_config
                    },
                },
                ..self
            },
        }
    }

    /// Applies an update to the metadata. An update that is refused changes
    /// nothing; one whose optional values are all absent and whose toggles
    /// all keep succeeds and changes nothing either.
    pub fn update_v1(&mut self, args: UpdateArgs, token_standard: TokenStandard) -> (r: Result<
        (),
        OperationError,
    >)
        ensures
            match old(self).update_error(args) {
                Some(e) => r == Err::<(), OperationError>(custom(e)) && *final(self) == *old(self),
                None => r is Ok && *final(self) == old(self).updated(args, token_standard),
            },
            args.changes_nothing() ==> r is Ok && *final(self) == *old(self),
            final(self).primary_sale_happened || !old(self).primary_sale_happened,
            old(self).is_mutable || !final(self).is_mutable,
    {
        let UpdateArgs::V1 {
            data,
            primary_sale_happened,
            is_mutable,
            collection,
            uses,
            new_update_authority,
            programmable_config,
            collection_details,
            ..
        } = args;

        if data.is_some() && !self.is_mutable {
            return Err(OperationError::Custom(MetadataError::DataIsImmutable));
        }
        // if the collection is replaced, only allow updating if it is
        // unverified or if it exactly matches the existing collection; if it
        // is cleared, then only if it is unverified.

        let current_verified = match &self.collection {
            Some(current) => current.verified,
            None => false,
        };
        let allowed = match &collection {
            CollectionToggle::Keep => true,
            CollectionToggle::Clear => !current_verified,
            CollectionToggle::Replace(new) => {
                let same = match &self.collection {
                    Some(current) => current.key == new.key && current.verified == new.verified,
                    None => false,
                };
                same || (!new.verified && !current_verified)
            },
        };
        if !allowed {
            return Err(OperationError::Custom(MetadataError::CannotUpdateVerifiedCollection));
        }
        if let Some(primary_sale) = primary_sale_happened {
            // If received primary_sale is true, flip to true.
            if !(primary_sale || !self.primary_sale_happened) {
                return Err(OperationError::Custom(MetadataError::PrimarySaleCanOnlyBeFlippedToTrue));
            }
        }
        if let Some(mutable) = is_mutable {
            // If received value is false, flip to false.
            if !(!mutable || self.is_mutable) {
                return Err(OperationError::Custom(MetadataError::IsMutableCanOnlyBeFlippedToFalse));
            }
        }
        // nothing can fail from here on

        if let Some(data) = data {
            self.data = data;
        }
        if collection.is_some() {
            self.collection = collection.to_option();
        }
        if uses.is_some() {
            self.uses = uses.to_option();
        }
        if let Some(authority) = new_update_authority {
            self.update_authority = authority;
        }
        if let Some(primary_sale) = primary_sale_happened {
            self.primary_sale_happened = primary_sale;
        }
        if let Some(mutable) = is_mutable {
            self.is_mutable = mutable;
        }
        if token_standard == TokenStandard::ProgrammableNonFungible {
            // the rule set applies to programmable assets only
            if programmable_config.is_some() {
                self.programmable_config = programmable_config.to_option();
            }
        }
        if collection_details.is_some() {
            self.collection_details = collection_details.to_option();
        }
        Ok(())
    }
}

/// The checks on the accounts of an update, in their order: the authority
/// has signed, each account belongs to the program that keeps it, and the
/// well-known accounts are the ones expected.
pub open spec fn update_accounts_check(program_id: Pubkey, ids: &ProgramIds, ctx: Update) -> Result<
    (),
    OperationError,
> {
    if !ctx.authority_info.is_signer {
        Err(OperationError::MissingRequiredSignature)
    } else if ctx.metadata_info.owner != program_id || ctx.mint_info.owner != ids.spl_token || (
    ctx.delegate_record_info matches Some(info) && info.owner != program_id) {
        Err(custom(MetadataError::IncorrectOwner))
    } else if ctx.system_program_info.key != ids.system_program || ctx.sysvar_instructions_info.key
        != ids.sysvar_instructions {
        Err(custom(MetadataError::KeyMismatch))
    } else {
        Ok(())
    }
}

/// The delegate record that counts as evidence for an update: the record of
/// the account presented, provided that the account lies at the address
/// that was derived for the record of an update delegate, and holds a
/// delegate record.
pub open spec fn presented_delegate_record(ctx: Update, readings: &Readings) -> Option<
    MetadataDelegateRecord,
> {
    match ctx.delegate_record_info {
        Some(info) => {
            if derived_key(readings.delegate_record, info.key) is Ok
                && spec_delegate_record_from_account_info(info) is Ok {
                Some(spec_delegate_record_from_account_info(info)->Ok_0)
            } else {
                None
            }
        },
        None => None,
    }
}

/// Whether the requester may update: they are the update authority of the
/// asset, or its update delegate.
pub open spec fn may_update(ctx: Update, readings: &Readings, metadata: Metadata) -> bool {
    ||| ctx.authority_info.key == metadata.update_authority
    ||| (presented_delegate_record(ctx, readings) matches Some(record) && record.delegate
        == ctx.authority_info.key && record.mint == ctx.mint_info.key)
}

/// What has to hold before an update is applied; if it holds, the standard
/// of the asset and the rule set that governs it. After the checks on the
/// accounts, the metadata has to be that of the mint, and the requester has
/// to be the update authority or an update delegate, else
/// `InvalidAuthorityType`. The rule set that a programmable asset names has
/// to be among the accounts.
pub open spec fn update_validation(
    program_id: Pubkey,
    ids: &ProgramIds,
    ctx: Update,
    readings: &Readings,
) -> Result<(TokenStandard, Option<Pubkey>), OperationError> {
    if update_accounts_check(program_id, ids, ctx) is Err {
        Err(update_accounts_check(program_id, ids, ctx)->Err_0)
    } else if spec_metadata_from_account_info(ctx.metadata_info) is Err {
        Err(spec_metadata_from_account_info(ctx.metadata_info)->Err_0)
    } else {
        let metadata = spec_metadata_from_account_info(ctx.metadata_info)->Ok_0;
        let standard = settled_token_standard(metadata.token_standard, readings, ctx.edition_info);
        if metadata.mint != ctx.mint_info.key {
            Err(custom(MetadataError::MintMismatch))
        } else if !may_update(ctx, readings, metadata) {
            Err(custom(MetadataError::InvalidAuthorityType))
        } else if standard is Err {
            Err(standard->Err_0)
        } else {
            let rule_set = governing_rule_set(standard->Ok_0, metadata.programmable_config);
            if rule_set_presented(rule_set, ctx.authorization_rules_info) {
                Ok((standard->Ok_0, rule_set))
            } else {
                Err(custom(MetadataError::KeyMismatch))
            }
        }
    }
}

/// What an update leaves: the metadata to store, and the question to put to
/// the policy engine before it is stored.
#[derive(Clone, Debug, PartialEq, Eq)]
pub struct Updated {
    pub metadata: Metadata,
    pub effects: Vec<Effect>,
}

/// The metadata that an update leaves, or why the update fails.
pub open spec fn update_result(
    program_id: Pubkey,
    ids: &ProgramIds,
    ctx: Update,
    readings: &Readings,
    args: UpdateArgs,
) -> Result<Metadata, OperationError> {
    match update_validation(program_id, ids, ctx, readings) {
        Err(e) => Err(e),
        Ok((token_standard, _)) => {
            let metadata = spec_metadata_from_account_info(ctx.metadata_info)->Ok_0;
            match metadata.update_error(args) {
                Some(e) => Err(custom(e)),
                None => Ok(metadata.updated(args, token_standard)),
            }
        },
    }
}

/// The question that an update that succeeds puts to the policy engine.
pub open spec fn update_effects(
    program_id: Pubkey,
    ids: &ProgramIds,
    ctx: Update,
    readings: &Readings,
) -> Seq<Effect> {
    match update_validation(program_id, ids, ctx, readings) {
        Ok((_, rule_set)) => spec_authorize(
            rule_set,
            Operation::Update,
            ctx.mint_info.key,
            ctx.authority_info.key,
        ),
        Err(_) => Seq::empty(),
    }
}

/// What there is to read for an update: the mint, and the address of the
/// record of an update delegate, which is derived from the mint, the update
/// authority that the metadata names, and the requester.
pub open spec fn update_readings(program_id: Pubkey, ids: &ProgramIds, ctx: Update) -> Readings {
    Readings {
        delegate_record: match spec_metadata_from_account_info(ctx.metadata_info) {
            Ok(metadata) => program_address(
                metadata_delegate_seeds(
                    program_id,
                    ctx.mint_info.key,
                    MetadataDelegateRole::Update,
                    metadata.update_authority,
                    ctx.authority_info.key,
                ),
                program_id,
            ),
            Err(_) => None,
        },
        ..readings_of(ids, ctx.mint_info, None, None)
    }
}

/// Reads what there is to read for an update.
pub fn read_update(program_id: &Pubkey, ids: &ProgramIds, ctx: &Context<Update>) -> (readings:
    Readings)
    ensures
        readings == update_readings(*program_id, ids, ctx.accounts),
{
    let mut readings = read_accounts(ids, ctx.accounts.mint_info, None, None);
    match Metadata::from_account_info(ctx.accounts.metadata_info) {
        Ok(metadata) => {
            readings.delegate_record =
            find_metadata_delegate_record_account(
                program_id,
                &ctx.accounts.mint_info.key,
                MetadataDelegateRole::Update,
                &metadata.update_authority,
                &ctx.accounts.authority_info.key,
            );
        },
        Err(_) => {},
    }
    readings
}

/// Checks that the update may go ahead and settles the standard of the
/// asset and the rule set that governs it, given what was read of the
/// accounts.
pub fn validate_update(
    program_id: &Pubkey,
    ids: &ProgramIds,
    ctx: Context<Update>,
    readings: &Readings,
) -> (r: Result<(TokenStandard, Option<Pubkey>), OperationError>)
    ensures
        r == update_validation(*program_id, ids, ctx.accounts, readings),
{
    // signers
    assert_signer(ctx.accounts.authority_info)?;

    // ownership
    assert_owned_by(ctx.accounts.metadata_info, program_id)?;
    assert_owned_by(ctx.accounts.mint_info, &ids.spl_token)?;
    if let Some(delegate_record_info) = ctx.accounts.delegate_record_info {
        assert_owned_by(delegate_record_info, program_id)?;
    }
    // key match

    assert_keys_equal(&ctx.accounts.system_program_info.key, &ids.system_program)?;
    assert_keys_equal(&ctx.accounts.sysvar_instructions_info.key, &ids.sysvar_instructions)?;

    // account relationships
    let metadata = Metadata::from_account_info(ctx.accounts.metadata_info)?;
    if metadata.mint != ctx.accounts.mint_info.key {
        return Err(OperationError::Custom(MetadataError::MintMismatch));
    }
    // authority

    let precedence = vec![AuthorityType::Metadata, AuthorityType::MetadataDelegate];
    assert(precedence@ =~= seq![AuthorityType::Metadata, AuthorityType::MetadataDelegate]);
    let mut request = AuthorityRequest::new(
        ctx.accounts.authority_info.key,
        metadata.update_authority,
        ctx.accounts.mint_info.key,
        precedence,
    );
    if let Some(delegate_record_info) = ctx.accounts.delegate_record_info {
        if check_derived_key(readings.delegate_record, &delegate_record_info.key).is_ok() {
            match MetadataDelegateRecord::from_account_info(delegate_record_info) {
                Ok(record) => {
                    request.metadata_delegate_record = Some(record);
                },
                Err(_) => {},
            }
        }
    }
    request.metadata_delegate_role = Some(MetadataDelegateRole::Update);
    request.metadata_delegate_roles = vec![MetadataDelegateRole::Update];
    proof {
        assert(request.metadata_delegate_record == presented_delegate_record(
            ctx.accounts,
            readings,
        ));
        assert(request.metadata_delegate_roles@[0] == MetadataDelegateRole::Update);
        assert(request.precedence@[0] == AuthorityType::Metadata);
        assert(request.precedence@[1] == AuthorityType::MetadataDelegate);
    }
    AuthorityType::get_authority_type(&request)?;

    let token_standard = settle_token_standard(
        metadata.token_standard,
        readings,
        ctx.accounts.edition_info,
    )?;
    let rule_set = find_rule_set(
        token_standard,
        metadata.programmable_config,
        ctx.accounts.authorization_rules_info,
    )?;
    Ok((token_standard, rule_set))
}

/// Updates the metadata of an asset.
///
/// The accounts are bound by position, read and checked; then the update is
/// applied to the metadata that the metadata account holds. The result is
/// the metadata to store, with the question to put to the policy engine
/// first, or the first failure in the order of the checks. An update that
/// changes nothing returns the metadata as it was.
pub fn update(program_id: &Pubkey, ids: &ProgramIds, accounts: Vec<AccountInfo>, args: UpdateArgs) -> (r:
    Result<Updated, OperationError>)
    ensures
        accounts@.len() < Update::spec_len() ==> r is Err && r->Err_0
            == OperationError::NotEnoughAccountKeys,
        accounts@.len() >= Update::spec_len() ==> ({
            let ctx = Update::bind(accounts@, ids.token_metadata);
            let readings = update_readings(*program_id, ids, ctx);
            match r {
                Ok(updated) => update_result(*program_id, ids, ctx, &readings, args) == Ok::<
                    Metadata,
                    OperationError,
                >(updated.metadata) && updated.effects@ == update_effects(
                    *program_id,
                    ids,
                    ctx,
                    &readings,
                ) && (args.changes_nothing() ==> spec_metadata_from_account_info(&accounts@[4])
                    == Ok::<Metadata, OperationError>(updated.metadata)),
                Err(e) => update_result(*program_id, ids, ctx, &readings, args) == Err::<
                    Metadata,
                    OperationError,
                >(e),
            }
        }),
{
    let mut accounts = accounts;
    let context = Update::to_context(accounts.as_slice(), &ids.token_metadata)?;
    let readings = read_update(program_id, ids, &context);
    let mut effects: Vec<Effect> = Vec::new();
    let (token_standard, rule_set) = validate_update(program_id, ids, context, &readings)?;
    authorize(
        &mut effects,
        rule_set,
        Operation::Update,
        context.accounts.mint_info,
        context.accounts.authority_info,
    );
    let metadata_info = accounts.remove(4);
    match metadata_info.data {
        AccountData::Metadata(metadata) => {
            let mut metadata = metadata;
            metadata.update_v1(args, token_standard)?;
            Ok(Updated { metadata, effects })
        },
        _ => Err(OperationError::Custom(MetadataError::DataTypeMismatch)),
    }
}

} // verus!
