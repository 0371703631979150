use crate::account::{spec_metadata_from_account_info, AccountData, AccountInfo};
use crate::assertions::{assert_initialized, assert_owned_by, assert_signer, custom, initialized};
use crate::authority::{AuthorityRequest, AuthorityType};
use crate::edition::{unlink_edition, unlink_error};
use crate::error::{MetadataError, OperationError};
use crate::ids::ProgramIds;
use crate::instruction::{Burn, BurnArgs, Context};
use crate::ledger::{LedgerAction, TokenAccount};
use crate::pda::{
    check_derived_key, derived_key, edition_marker_seeds, find_edition_marker_account,
    find_master_edition_account, master_edition_seeds, program_address,
};
use crate::processor::{
    authorize, find_rule_set, governing_rule_set, is_plan, presented_token_record,
    read_accounts, read_presented_token_record, read_required_master_edition,
    read_required_token_record, readings_of, required_master_edition, required_token_record,
    rule_set_presented, settle_token_standard, settled_token_standard, spec_authorize,
    spec_thaw_if, thaw, Effect, Operation, Plan, Readings,
};
use crate::pubkey::Pubkey;
use crate::state::{Metadata, TokenDelegateRole, TokenStandard, TokenState};
use vstd::prelude::*;

verus! {

/// What a burn does, or why it fails.
pub open spec fn burn_plan(
    program_id: Pubkey,
    ids: &ProgramIds,
    ctx: Burn,
    readings: &Readings,
    args: BurnArgs,
) -> Plan {
    match args {
        BurnArgs::V1 { amount } => burn_v1_plan(program_id, ids, ctx, readings, amount),
    }
}

/// What there is to read for a burn: the mint and the token account; and,
/// where the mint of a master edition is among the accounts, the address of
/// that master edition and, for the print that the edition account holds, the
/// address of the marker that keeps its books.
pub open spec fn burn_readings(ids: &ProgramIds, ctx: Burn) -> Readings {
    Readings {
        parent_edition: match ctx.parent_mint_info {
            Some(parent_mint) => program_address(
                master_edition_seeds(ids.token_metadata, parent_mint.key),
                ids.token_metadata,
            ),
            None => None,
        },
        edition_marker: match (ctx.parent_mint_info, ctx.edition_info) {
            (Some(parent_mint), Some(edition)) => match edition.data {
                AccountData::Edition(print) => program_address(
                    edition_marker_seeds(ids.token_metadata, parent_mint.key, print.edition),
                    ids.token_metadata,
                ),
                _ => None,
            },
            _ => None,
        },
        ..readings_of(ids, ctx.mint_info, Some(ctx.token_info), None)
    }
}

/// Reads what there is to read for a burn.
pub fn read_burn(ids: &ProgramIds, ctx: &Context<Burn>) -> (readings: Readings)
    ensures
        readings == burn_readings(ids, ctx.accounts),
{
    let mut readings = read_accounts(
        ids,
        ctx.accounts.mint_info,
        Some(ctx.accounts.token_info),
        None,
    );
    if let Some(parent_mint) = ctx.accounts.parent_mint_info {
        readings.parent_edition =
        find_master_edition_account(&ids.token_metadata, &parent_mint.key);
        if let Some(edition) = ctx.accounts.edition_info {
            if let AccountData::Edition(print) = &edition.data {
                readings.edition_marker =
                find_edition_marker_account(&ids.token_metadata, &parent_mint.key, print.edition);
            }
        }
    }
    readings
}

/// Burns an asset: the tokens of a fungible one, or a non-fungible one with
/// its records.
///
/// The accounts are bound by position and read, and the burn is decided by
/// `burn_v1`. The result is the list of
/// changes to make, or the first failure in the order of the checks; nothing
/// is changed on failure.
pub fn burn(program_id: &Pubkey, ids: &ProgramIds, accounts: &[AccountInfo], args: BurnArgs) -> (r:
    Result<Vec<Effect>, OperationError>)
    ensures
        accounts@.len() < Burn::spec_len() ==> r is Err && r->Err_0
            == OperationError::NotEnoughAccountKeys,
        accounts@.len() >= Burn::spec_len() ==> is_plan(
            r,
            burn_plan(
                *program_id,
                ids,
                Burn::bind(accounts@, ids.token_metadata),
                &burn_readings(ids, Burn::bind(accounts@, ids.token_metadata)),
                args,
            ),
        ),
{
    let context = Burn::to_context(accounts, &ids.token_metadata)?;
    let readings = read_burn(ids, &context);

    match args {
        BurnArgs::V1 { amount } => burn_v1(program_id, ids, context, &readings, amount),
    }
}

/// Whether each account that is there belongs to `owner`.
pub open spec fn owned_if_present(info: Option<&AccountInfo>, owner: Pubkey) -> bool {
    info matches Some(account) ==> account.owner == owner
}

/// The checks on the accounts of a burn, in their order: the authority has
/// signed, each account belongs to the program that keeps it, and the
/// well-known accounts are the ones expected.
pub open spec fn burn_accounts_check(program_id: Pubkey, ids: &ProgramIds, ctx: Burn) -> Result<
    (),
    OperationError,
> {
    if !ctx.authority_info.is_signer {
        Err(OperationError::MissingRequiredSignature)
    } else if !(ctx.metadata_info.owner == program_id && ctx.mint_info.owner == ids.spl_token
        && ctx.token_info.owner == ids.spl_token && owned_if_present(ctx.edition_info, program_id)
        && owned_if_present(ctx.parent_edition_info, program_id) && owned_if_present(
        ctx.parent_mint_info,
        ids.spl_token,
    ) && owned_if_present(ctx.parent_token_info, ids.spl_token) && owned_if_present(
        ctx.edition_marker_info,
        program_id,
    )) {
        Err(custom(MetadataError::IncorrectOwner))
    } else if ctx.spl_token_program_info.key != ids.spl_token || ctx.system_program_info.key
        != ids.system_program || ctx.sysvar_instructions_info.key != ids.sysvar_instructions {
        Err(OperationError::IncorrectProgramId)
    } else {
        Ok(())
    }
}

/// The question that a burn puts to the resolver: the holder comes before
/// the token delegate, and a delegate has to be a utility delegate.
pub open spec fn burn_request_matches(
    request: &AuthorityRequest,
    ids: &ProgramIds,
    ctx: Burn,
    readings: &Readings,
    metadata: Metadata,
    token: TokenAccount,
) -> bool {
    &&& request.precedence@ == seq![AuthorityType::Holder, AuthorityType::TokenDelegate]
    &&& request.authority == ctx.authority_info.key
    &&& request.update_authority == metadata.update_authority
    &&& request.mint == ctx.mint_info.key
    &&& request.token_account == Some(token)
    &&& request.token_record == presented_token_record(
        ids,
        readings.token_record,
        ctx.token_record_info,
    )
    &&& request.token_delegate_roles@ == seq![TokenDelegateRole::Utility]
    &&& request.metadata_delegate_record is None
    &&& request.metadata_delegate_role is None
    &&& request.metadata_delegate_roles@.len() == 0
}

/// The authority under which the requester burns: `Holder` if they hold the
/// asset, else `TokenDelegate` if they are its utility delegate, else none.
pub open spec fn burn_authority(
    ids: &ProgramIds,
    ctx: Burn,
    readings: &Readings,
    token: TokenAccount,
) -> Option<AuthorityType> {
    let record = presented_token_record(ids, readings.token_record, ctx.token_record_info);
    if token.owner == ctx.authority_info.key && token.mint == ctx.mint_info.key && token.amount
        > 0 {
        Some(AuthorityType::Holder)
    } else if record matches Some(r) && r.delegate == Some(ctx.authority_info.key)
        && r.delegate_role == Some(TokenDelegateRole::Utility) {
        Some(AuthorityType::TokenDelegate)
    } else {
        None
    }
}

/// What is asked of the token account once the authority is known. A holder
/// holds a token account of the mint of the metadata. A delegate burns from
/// a token account of the mint and of the metadata, and no more than is there.
pub open spec fn burn_token_check(
    ctx: Burn,
    metadata: Metadata,
    token: TokenAccount,
    authority: AuthorityType,
    amount: u64,
) -> Result<(), OperationError> {
    match authority {
        AuthorityType::Holder => currently_holding(ctx.authority_info, metadata, ctx.mint_info, token),
        _ => if token.mint != ctx.mint_info.key {
            Err(custom(MetadataError::MintMismatch))
        } else if token.amount < amount {
            Err(custom(MetadataError::InsufficientTokenBalance))
        } else if token.mint != metadata.mint {
            Err(custom(MetadataError::MintMismatch))
        } else {
            Ok(())
        },
    }
}

/// What holding an asset asks of a token account: it is the requester's, it
/// is of the mint, it holds a token, and the mint is that of the metadata.
pub open spec fn currently_holding(
    owner_info: &AccountInfo,
    metadata: Metadata,
    mint_info: &AccountInfo,
    token: TokenAccount,
) -> Result<(), OperationError> {
    if token.owner != owner_info.key {
        Err(custom(MetadataError::InvalidOwner))
    } else if token.mint != mint_info.key {
        Err(custom(MetadataError::MintMismatch))
    } else if token.amount < 1 {
        Err(custom(MetadataError::NotEnoughTokens))
    } else if token.mint != metadata.mint {
        Err(custom(MetadataError::MintMismatch))
    } else {
        Ok(())
    }
}

/// Checks that the requester holds the asset in the token account.
pub fn assert_currently_holding(
    owner_info: &AccountInfo,
    metadata: &Metadata,
    mint_info: &AccountInfo,
    token: &TokenAccount,
) -> (r: Result<(), OperationError>)
    ensures
        r == currently_holding(owner_info, *metadata, mint_info, *token),
{
    if token.owner != owner_info.key {
        return Err(OperationError::Custom(MetadataError::InvalidOwner));
    }
    if token.mint != mint_info.key {
        return Err(OperationError::Custom(MetadataError::MintMismatch));
    }
    if token.amount < 1 {
        return Err(OperationError::Custom(MetadataError::NotEnoughTokens));
    }
    if token.mint != metadata.mint {
        return Err(OperationError::Custom(MetadataError::MintMismatch));
    }
    Ok(())
}

/// The ledger burns `amount` tokens of the token account.
pub open spec fn spec_ledger_burn(ctx: Burn, amount: u64) -> Effect {
    Effect::Ledger(
        LedgerAction::Burn {
            account: ctx.token_info.key,
            mint: ctx.mint_info.key,
            authority: ctx.authority_info.key,
            amount,
        },
    )
}

/// The ledger closes the token account and refunds the authority.
pub open spec fn spec_ledger_close(ctx: Burn) -> Effect {
    Effect::Ledger(
        LedgerAction::CloseAccount {
            account: ctx.token_info.key,
            destination: ctx.authority_info.key,
            owner: ctx.authority_info.key,
        },
    )
}

/// What burning a non-fungible asset changes: its one token is burned, its
/// token account closed, and its metadata and edition destroyed.
pub open spec fn burn_nonfungible_effects(ctx: Burn) -> Seq<Effect> {
    seq![
        spec_ledger_burn(ctx, 1),
        spec_ledger_close(ctx),
        Effect::CloseAccount {
            account: ctx.metadata_info.key,
            destination: ctx.authority_info.key,
        },
        Effect::CloseAccount {
            account: ctx.edition_info->0.key,
            destination: ctx.authority_info.key,
        },
    ]
}

/// What burning tokens of a fungible asset changes: the tokens are burned,
/// and the token account is closed if nothing is left in it.
pub open spec fn burn_fungible_effects(ctx: Burn, token: TokenAccount, amount: u64) -> Seq<Effect> {
    if amount == token.amount {
        seq![spec_ledger_burn(ctx, amount), spec_ledger_close(ctx)]
    } else {
        seq![spec_ledger_burn(ctx, amount)]
    }
}

/// What burning a master edition changes: its edition account has to lie
/// at the address derived for the mint; then it is burned with its records.
pub open spec fn burn_master_plan(ctx: Burn, readings: &Readings) -> Plan {
    if derived_key(readings.master_edition, ctx.edition_info->0.key) is Err {
        Err(custom(MetadataError::DerivedKeyInvalid))
    } else {
        Ok(burn_nonfungible_effects(ctx))
    }
}

/// Whether the accounts of a print are linked as they have to be: the
/// edition account lies at the address derived for the mint, the master
/// edition at the address derived for its own mint, and the marker at the
/// address derived for the number of the print.
pub open spec fn edition_linkage(ctx: Burn, readings: &Readings) -> bool {
    &&& derived_key(readings.master_edition, ctx.edition_info->0.key) is Ok
    &&& derived_key(readings.parent_edition, ctx.parent_edition_info->0.key) is Ok
    &&& derived_key(readings.edition_marker, ctx.edition_marker_info->0.key) is Ok
}

/// What burning a print changes. The master edition, its mint and the marker
/// of the print have to be there, and the three edition accounts have to
/// hold a print, a master edition and a marker. The accounts have to be
/// linked as `edition_linkage` says, else `DerivedKeyInvalid`, and the print
/// has to be one of the master edition. The print is taken out of the books,
/// as `unlink_edition` says, and then burned like a non-fungible asset.
pub open spec fn burn_edition_plan(ctx: Burn, readings: &Readings) -> Plan {
    if ctx.parent_edition_info is None || ctx.parent_mint_info is None || ctx.edition_marker_info
        is None {
        Err(custom(MetadataError::MissingEditionAccount))
    } else {
        match (
            ctx.edition_info->0.data,
            ctx.parent_edition_info->0.data,
            ctx.edition_marker_info->0.data,
        ) {
            (
                AccountData::Edition(print),
                AccountData::MasterEdition(master),
                AccountData::EditionMarker(marker),
            ) => if !edition_linkage(ctx, readings) {
                Err(custom(MetadataError::DerivedKeyInvalid))
            } else {
                match unlink_error(print, ctx.parent_edition_info->0.key, master, marker) {
                    Some(e) => Err(custom(e)),
                    None => Ok(
                        seq![
                            Effect::WriteMasterEdition {
                                account: ctx.parent_edition_info->0.key,
                                record: master.with_one_print_less(),
                            },
                            Effect::WriteEditionMarker {
                                account: ctx.edition_marker_info->0.key,
                                record: marker.without_edition(print.edition),
                            },
                        ] + burn_nonfungible_effects(ctx),
                    ),
                }
            },
            _ => Err(custom(MetadataError::DataTypeMismatch)),
        }
    }
}

/// What burning a programmable asset changes. The token record of the token
/// account has to be there and the token unlocked: a locked or listed token
/// cannot be burned.
/// The rule set that the asset names has to be among the accounts. Then the
/// policy engine is asked, a frozen token account is thawed, the asset is
/// burned like any non-fungible one, and the token record is destroyed with
/// it.
pub open spec fn burn_programmable_plan(
    ids: &ProgramIds,
    ctx: Burn,
    readings: &Readings,
    metadata: Metadata,
    token: TokenAccount,
) -> Plan {
    let rule_set = governing_rule_set(
        TokenStandard::ProgrammableNonFungible,
        metadata.programmable_config,
    );
    let found = required_token_record(ids, readings.token_record, ctx.token_record_info);
    if found is Err {
        Err(found->Err_0)
    } else if found->Ok_0.state != TokenState::Unlocked {
        Err(custom(MetadataError::IncorrectTokenState))
    } else if required_master_edition(ids, readings.master_edition, ctx.edition_info) is Err {
        Err(required_master_edition(ids, readings.master_edition, ctx.edition_info)->Err_0)
    } else if !rule_set_presented(rule_set, ctx.authorization_rules_info) {
        Err(custom(MetadataError::KeyMismatch))
    } else {
        Ok(
            spec_authorize(rule_set, Operation::Burn, ctx.mint_info.key, ctx.authority_info.key)
                + spec_thaw_if(
                token.is_frozen(),
                ctx.mint_info.key,
                ctx.token_info.key,
                ctx.edition_info->0.key,
            ) + burn_nonfungible_effects(ctx).push(
                Effect::CloseAccount {
                    account: ctx.token_record_info->0.key,
                    destination: ctx.authority_info.key,
                },
            ),
        )
    }
}

/// What a burn does once the requester is entitled to it. Of a non-fungible
/// asset exactly one token can be burned, and its edition has to be there.
pub open spec fn burn_standard_plan(
    ids: &ProgramIds,
    ctx: Burn,
    readings: &Readings,
    metadata: Metadata,
    token: TokenAccount,
    token_standard: TokenStandard,
    amount: u64,
) -> Plan {
    if token_standard.is_non_fungible() && amount != 1 {
        Err(custom(MetadataError::InvalidAmount))
    } else if token_standard.is_non_fungible() && ctx.edition_info is None {
        Err(custom(MetadataError::MissingEdition))
    } else {
        match token_standard {
            TokenStandard::NonFungible => burn_master_plan(ctx, readings),
            TokenStandard::NonFungibleEdition => burn_edition_plan(ctx, readings),
            TokenStandard::ProgrammableNonFungible => burn_programmable_plan(
                ids,
                ctx,
                readings,
                metadata,
                token,
            ),
            TokenStandard::Fungible | TokenStandard::FungibleAsset => Ok(
                burn_fungible_effects(ctx, token, amount),
            ),
        }
    }
}

/// What burning `amount` tokens does.
///
/// After the checks on the accounts, the metadata and the token account are
/// read. The requester has to hold the asset or be its utility delegate,
/// else `InvalidAuthorityType`. Then the token account is checked against
/// the mint and the metadata, the standard is settled, and the burn is
/// planned by the standard.
pub open spec fn burn_v1_plan(
    program_id: Pubkey,
    ids: &ProgramIds,
    ctx: Burn,
    readings: &Readings,
    amount: u64,
) -> Plan {
    if burn_accounts_check(program_id, ids, ctx) is Err {
        Err(burn_accounts_check(program_id, ids, ctx)->Err_0)
    } else if spec_metadata_from_account_info(ctx.metadata_info) is Err {
        Err(spec_metadata_from_account_info(ctx.metadata_info)->Err_0)
    } else if initialized(readings.token) is Err {
        Err(initialized(readings.token)->Err_0)
    } else {
        let metadata = spec_metadata_from_account_info(ctx.metadata_info)->Ok_0;
        let token = initialized(readings.token)->Ok_0;
        let standard = settled_token_standard(metadata.token_standard, readings, ctx.edition_info);
        match burn_authority(ids, ctx, readings, token) {
            None => Err(custom(MetadataError::InvalidAuthorityType)),
            Some(authority) => if burn_token_check(ctx, metadata, token, authority, amount)
                is Err {
                Err(burn_token_check(ctx, metadata, token, authority, amount)->Err_0)
            } else if standard is Err {
                Err(standard->Err_0)
            } else {
                burn_standard_plan(ids, ctx, readings, metadata, token, standard->Ok_0, amount)
            },
        }
    }
}

/// Checks that an account, if it is there, belongs to `owner`.
fn assert_owned_if_present(info: Option<&AccountInfo>, owner: &Pubkey) -> (r: Result<
    (),
    OperationError,
>)
    ensures
        r == crate::assertions::check(
            owned_if_present(info, *owner),
            custom(MetadataError::IncorrectOwner),
        ),
{
    match info {
        Some(account) => assert_owned_by(account, owner),
        None => Ok(()),
    }
}

/// Plans the burn of a non-fungible asset.
fn burn_nonfungible(effects: &mut Vec<Effect>, ctx: &Context<Burn>, edition_info: &AccountInfo)
    requires
        ctx.accounts.edition_info == Some(edition_info),
    ensures
        final(effects)@ == old(effects)@ + burn_nonfungible_effects(ctx.accounts),
{
    let authority = ctx.accounts.authority_info.key;
    effects.push(
        Effect::Ledger(
            LedgerAction::Burn {
                account: ctx.accounts.token_info.key,
                mint: ctx.accounts.mint_info.key,
                authority,
                amount: 1,
            },
        ),
    );
    effects.push(
        Effect::Ledger(
            LedgerAction::CloseAccount {
                account: ctx.accounts.token_info.key,
                destination: authority,
                owner: authority,
            },
        ),
    );
    effects.push(
        Effect::CloseAccount { account: ctx.accounts.metadata_info.key, destination: authority },
    );
    effects.push(Effect::CloseAccount { account: edition_info.key, destination: authority });
    assert(effects@ =~= old(effects)@ + burn_nonfungible_effects(ctx.accounts));
}

/// Plans the burn of tokens of a fungible asset.
fn burn_fungible(effects: &mut Vec<Effect>, ctx: &Context<Burn>, token: &TokenAccount, amount: u64)
    ensures
        final(effects)@ == old(effects)@ + burn_fungible_effects(ctx.accounts, *token, amount),
{
    let authority = ctx.accounts.authority_info.key;
    effects.push(
        Effect::Ledger(
            LedgerAction::Burn {
                account: ctx.accounts.token_info.key,
                mint: ctx.accounts.mint_info.key,
                authority,
                amount,
            },
        ),
    );
    if amount == token.amount {
        effects.push(
            Effect::Ledger(
                LedgerAction::CloseAccount {
                    account: ctx.accounts.token_info.key,
                    destination: authority,
                    owner: authority,
                },
            ),
        );
    }
    assert(effects@ =~= old(effects)@ + burn_fungible_effects(ctx.accounts, *token, amount));
}

/// Decides the burn of `amount` tokens of an asset, given what was read of
/// its mint and its token account.
pub fn burn_v1(
    program_id: &Pubkey,
    ids: &ProgramIds,
    ctx: Context<Burn>,
    readings: &Readings,
    amount: u64,
) -> (r: Result<Vec<Effect>, OperationError>)
    ensures
        is_plan(r, burn_v1_plan(*program_id, ids, ctx.accounts, readings, amount)),
{
    // Validate accounts
    // Assert signer
    assert_signer(ctx.accounts.authority_info)?;

    // Assert program ownership.
    assert_owned_by(ctx.accounts.metadata_info, program_id)?;
    assert_owned_by(ctx.accounts.mint_info, &ids.spl_token)?;
    assert_owned_by(ctx.accounts.token_info, &ids.spl_token)?;
    assert_owned_if_present(ctx.accounts.edition_info, program_id)?;
    assert_owned_if_present(ctx.accounts.parent_edition_info, program_id)?;
    assert_owned_if_present(ctx.accounts.parent_mint_info, &ids.spl_token)?;
    assert_owned_if_present(ctx.accounts.parent_token_info, &ids.spl_token)?;
    assert_owned_if_present(ctx.accounts.edition_marker_info, program_id)?;

    // Check program IDs.
    if ctx.accounts.spl_token_program_info.key != ids.spl_token {
        return Err(OperationError::IncorrectProgramId);
    }
    if ctx.accounts.system_program_info.key != ids.system_program {
        return Err(OperationError::IncorrectProgramId);
    }
    if ctx.accounts.sysvar_instructions_info.key != ids.sysvar_instructions {
        return Err(OperationError::IncorrectProgramId);
    }
    // Deserialize accounts.

    let metadata = Metadata::from_account_info(ctx.accounts.metadata_info)?;
    let token = assert_initialized(readings.token)?;

    // Getting authority type
    let precedence = vec![AuthorityType::Holder, AuthorityType::TokenDelegate];
    assert(precedence@ =~= seq![AuthorityType::Holder, AuthorityType::TokenDelegate]);
    let mut request = AuthorityRequest::new(
        ctx.accounts.authority_info.key,
        metadata.update_authority,
        ctx.accounts.mint_info.key,
        precedence,
    );
    request.token_account = Some(token);
    request.token_record =
    read_presented_token_record(ids, readings.token_record, ctx.accounts.token_record_info);
    request.token_delegate_roles = vec![TokenDelegateRole::Utility];
    assert(request.token_delegate_roles@ =~= seq![TokenDelegateRole::Utility]);
    assert(burn_request_matches(&request, ids, ctx.accounts, readings, *metadata, token));
    proof {
        lemma_burn_authority(&request, ids, ctx.accounts, readings, *metadata, token);
    }
    let authority_response = AuthorityType::get_authority_type(&request)?;

    match authority_response.authority_type {
        AuthorityType::Holder => {
            // The token account is the requester's, belongs to the mint,
            // holds a token, and the mint is that of the metadata.
            assert_currently_holding(
                ctx.accounts.authority_info,
                metadata,
                ctx.accounts.mint_info,
                &token,
            )?;
        },
        AuthorityType::TokenDelegate => {
            if token.mint != ctx.accounts.mint_info.key {
                return Err(OperationError::Custom(MetadataError::MintMismatch));
            }
            if token.amount < amount {
                return Err(OperationError::Custom(MetadataError::InsufficientTokenBalance));
            }
            if token.mint != metadata.mint {
                return Err(OperationError::Custom(MetadataError::MintMismatch));
            }
        },
        _ => {
            return Err(OperationError::Custom(MetadataError::InvalidAuthorityType));
        },
    }

    let token_standard = settle_token_standard(
        metadata.token_standard,
        readings,
        ctx.accounts.edition_info,
    )?;

    // NonFungible types can only burn one item and must have the edition
    // account present.
    if token_standard.is_non_fungible() {
        if amount != 1 {
            return Err(OperationError::Custom(MetadataError::InvalidAmount));
        }
        if ctx.accounts.edition_info.is_none() {
            return Err(OperationError::Custom(MetadataError::MissingEdition));
        }
    }
    let mut effects: Vec<Effect> = Vec::new();
    match token_standard {
        TokenStandard::NonFungible => {
            let edition_info = ctx.accounts.edition_info.unwrap();
            check_derived_key(readings.master_edition, &edition_info.key)?;
            burn_nonfungible(&mut effects, &ctx, edition_info);
        },
        TokenStandard::NonFungibleEdition => {
            let (parent, marker) = match (
                ctx.accounts.parent_edition_info,
                ctx.accounts.parent_mint_info,
                ctx.accounts.edition_marker_info,
            ) {
                (Some(parent), Some(_), Some(marker)) => (parent, marker),
                _ => {
                    return Err(OperationError::Custom(MetadataError::MissingEditionAccount));
                },
            };
            let edition_info = ctx.accounts.edition_info.unwrap();
            let (master, books) = match (&edition_info.data, &parent.data, &marker.data) {
                (
                    AccountData::Edition(print),
                    AccountData::MasterEdition(master),
                    AccountData::EditionMarker(books),
                ) => {
                    check_derived_key(readings.master_edition, &edition_info.key)?;
                    check_derived_key(readings.parent_edition, &parent.key)?;
                    check_derived_key(readings.edition_marker, &marker.key)?;
                    unlink_edition(print, &parent.key, master, books)?
                },
                _ => {
                    return Err(OperationError::Custom(MetadataError::DataTypeMismatch));
                },
            };
            effects.push(Effect::WriteMasterEdition { account: parent.key, record: master });
            effects.push(Effect::WriteEditionMarker { account: marker.key, record: books });
            burn_nonfungible(&mut effects, &ctx, edition_info);
        },
        TokenStandard::ProgrammableNonFungible => {
            // All the checks are the same as burning a NonFungible token
            // except we also have to check the token state.
            let token_record = read_required_token_record(
                ids,
                readings.token_record,
                ctx.accounts.token_record_info,
            )?;
            let token_record_info = ctx.accounts.token_record_info.unwrap();

            // Locked and Listed states cannot be burned.
            if token_record.is_locked() {
                return Err(OperationError::Custom(MetadataError::IncorrectTokenState));
            }
            let edition_info = read_required_master_edition(
                ids,
                readings.master_edition,
                ctx.accounts.edition_info,
            )?;
            let rule_set = find_rule_set(
                token_standard,
                metadata.programmable_config,
                ctx.accounts.authorization_rules_info,
            )?;
            authorize(
                &mut effects,
                rule_set,
                Operation::Burn,
                ctx.accounts.mint_info,
                ctx.accounts.authority_info,
            );
            thaw(
                &mut effects,
                token.is_frozen(),
                ctx.accounts.mint_info,
                ctx.accounts.token_info,
                edition_info,
            );
            burn_nonfungible(&mut effects, &ctx, edition_info);

            // Also close the token_record account.
            effects.push(
                Effect::CloseAccount {
                    account: token_record_info.key,
                    destination: ctx.accounts.authority_info.key,
                },
            );
        },
        TokenStandard::Fungible | TokenStandard::FungibleAsset => {
            burn_fungible(&mut effects, &ctx, &token, amount);
        },
    }
    assert(effects@ =~= burn_standard_plan(
        ids,
        ctx.accounts,
        readings,
        *metadata,
        token,
        token_standard,
        amount,
    )->Ok_0);
    Ok(effects)
}

/// The resolver places the requester of a burn as `burn_authority` says.
pub proof fn lemma_burn_authority(
    request: &AuthorityRequest,
    ids: &ProgramIds,
    ctx: Burn,
    readings: &Readings,
    metadata: Metadata,
    token: TokenAccount,
)
    requires
        burn_request_matches(request, ids, ctx, readings, metadata, token),
    ensures
        request.first_holding(request.precedence@) == burn_authority(ids, ctx, readings, token),
{
    let p = request.precedence@;
    assert(p.drop_first() =~= seq![AuthorityType::TokenDelegate]);
    assert(p.drop_first().drop_first() =~= Seq::<AuthorityType>::empty());
    reveal_with_fuel(AuthorityRequest::first_holding, 3);
    assert(request.token_delegate_roles@.contains(TokenDelegateRole::Utility)) by {
        assert(request.token_delegate_roles@[0] == TokenDelegateRole::Utility);
    }
}

} // verus!
