use crate::account::{spec_metadata_from_account_info, AccountInfo};
use crate::assertions::{
    assert_keys_equal, assert_owned_by, assert_signer, custom, unpack_account, unpacked,
};
use crate::authority::{AuthorityRequest, AuthorityType};
use crate::error::{MetadataError, OperationError};
use crate::ids::ProgramIds;
use crate::instruction::{Context, Delegate, DelegateArgs};
use crate::ledger::{LedgerAction, TokenAccount};
use crate::pda::{
    check_derived_key, derived_key, find_metadata_delegate_record_account,
    metadata_delegate_seeds, program_address,
};
use crate::processor::{
    authorize, find_rule_set, freeze, governing_rule_set, is_plan, read_accounts,
    read_required_master_edition, read_required_token_record, readings_of,
    required_master_edition, required_token_record, rule_set_presented, spec_authorize,
    spec_freeze, spec_thaw_if, thaw, Effect, Operation, Plan, Readings,
};
use crate::pubkey::Pubkey;
use crate::state::{
    Key, Metadata, MetadataDelegateRecord, MetadataDelegateRole, TokenDelegateRole, TokenStandard,
};
use vstd::prelude::*;

verus! {

/// The role that the arguments of a metadata delegation ask for; nothing for
/// a token delegation.
pub open spec fn metadata_delegation(args: DelegateArgs) -> Option<MetadataDelegateRole> {
    match args {
        DelegateArgs::CollectionV1 { .. } => Some(MetadataDelegateRole::Collection),
        DelegateArgs::UpdateV1 { .. } => Some(MetadataDelegateRole::Update),
        _ => None,
    }
}

/// What a delegation does, by the kind of delegate that the arguments name.
pub open spec fn delegate_plan(
    program_id: Pubkey,
    ids: &ProgramIds,
    ctx: Delegate,
    readings: &Readings,
    args: DelegateArgs,
) -> Plan {
    match args {
        DelegateArgs::CollectionV1 { .. } => metadata_delegate_plan(
            program_id,
            ids,
            ctx,
            readings,
            MetadataDelegateRole::Collection,
        ),
        DelegateArgs::UpdateV1 { .. } => metadata_delegate_plan(
            program_id,
            ids,
            ctx,
            readings,
            MetadataDelegateRole::Update,
        ),
        DelegateArgs::SaleV1 { amount, .. } => persistent_delegate_plan(
            program_id,
            ids,
            ctx,
            readings,
            TokenDelegateRole::Sale,
            amount,
        ),
        DelegateArgs::TransferV1 { amount, .. } => persistent_delegate_plan(
            program_id,
            ids,
            ctx,
            readings,
            TokenDelegateRole::Transfer,
            amount,
        ),
        DelegateArgs::UtilityV1 { amount, .. } => persistent_delegate_plan(
            program_id,
            ids,
            ctx,
            readings,
            TokenDelegateRole::Utility,
            amount,
        ),
        DelegateArgs::StakingV1 { amount, .. } => persistent_delegate_plan(
            program_id,
            ids,
            ctx,
            readings,
            TokenDelegateRole::Staking,
            amount,
        ),
    }
}

/// What there is to read for a delegation: the mint, the token account if
/// there is one, and, for a metadata delegate, the address of the record of
/// the delegation, which is derived from the mint, the role, the approver
/// and the delegate.
pub open spec fn delegate_readings(
    program_id: Pubkey,
    ids: &ProgramIds,
    ctx: Delegate,
    args: DelegateArgs,
) -> Readings {
    Readings {
        delegate_record: match metadata_delegation(args) {
            Some(role) => program_address(
                metadata_delegate_seeds(
                    program_id,
                    ctx.mint_info.key,
                    role,
                    ctx.approver_info.key,
                    ctx.delegate_info.key,
                ),
                program_id,
            ),
            None => None,
        },
        ..readings_of(ids, ctx.mint_info, ctx.token_info, None)
    }
}

/// Delegates an action over an asset to a specific account.
///
/// A collection or update delegate is scoped to the metadata and lives in a
/// record of its own; a sale, transfer, utility or staking delegate is scoped
/// to one token account. The accounts are bound by position and read, and the
/// delegation is decided by `create_delegate_v1` or by
/// `create_persistent_delegate_v1`. The result is the list of changes to
/// make, or the first failure in the order of the checks; nothing is changed
/// on failure.
pub fn delegate(
    program_id: &Pubkey,
    ids: &ProgramIds,
    accounts: &[AccountInfo],
    args: DelegateArgs,
) -> (r: Result<Vec<Effect>, OperationError>)
    ensures
        accounts@.len() < Delegate::spec_len() ==> r is Err && r->Err_0
            == OperationError::NotEnoughAccountKeys,
        accounts@.len() >= Delegate::spec_len() ==> is_plan(
            r,
            delegate_plan(
                *program_id,
                ids,
                Delegate::bind(accounts@, ids.token_metadata),
                &delegate_readings(
                    *program_id,
                    ids,
                    Delegate::bind(accounts@, ids.token_metadata),
                    args,
                ),
                args,
            ),
        ),
{
    let context = Delegate::to_context(accounts, &ids.token_metadata)?;
    let mut readings = read_accounts(
        ids,
        context.accounts.mint_info,
        context.accounts.token_info,
        None,
    );
    match args {
        DelegateArgs::CollectionV1 { .. } => {
            readings.delegate_record =
            find_delegate_record(program_id, &context, MetadataDelegateRole::Collection);
            create_delegate_v1(
                program_id,
                ids,
                context,
                &readings,
                MetadataDelegateRole::Collection,
            )
        },
        DelegateArgs::SaleV1 { amount, .. } => create_persistent_delegate_v1(
            program_id,
            ids,
            context,
            &readings,
            TokenDelegateRole::Sale,
            amount,
        ),
        DelegateArgs::TransferV1 { amount, .. } => create_persistent_delegate_v1(
            program_id,
            ids,
            context,
            &readings,
            TokenDelegateRole::Transfer,
            amount,
        ),
        DelegateArgs::UpdateV1 { .. } => {
            readings.delegate_record =
            find_delegate_record(program_id, &context, MetadataDelegateRole::Update);
            create_delegate_v1(program_id, ids, context, &readings, MetadataDelegateRole::Update)
        },
        DelegateArgs::UtilityV1 { amount, .. } => create_persistent_delegate_v1(
            program_id,
            ids,
            context,
            &readings,
            TokenDelegateRole::Utility,
            amount,
        ),
        DelegateArgs::StakingV1 { amount, .. } => create_persistent_delegate_v1(
            program_id,
            ids,
            context,
            &readings,
            TokenDelegateRole::Staking,
            amount,
        ),
    }
}

/// Derives the address of the record of a metadata delegation.
fn find_delegate_record(program_id: &Pubkey, ctx: &Context<Delegate>, role: MetadataDelegateRole) -> (r:
    Option<(Pubkey, u8)>)
    ensures
        r == program_address(
            metadata_delegate_seeds(
                *program_id,
                ctx.accounts.mint_info.key,
                role,
                ctx.accounts.approver_info.key,
                ctx.accounts.delegate_info.key,
            ),
            *program_id,
        ),
{
    find_metadata_delegate_record_account(
        program_id,
        &ctx.accounts.mint_info.key,
        role,
        &ctx.accounts.approver_info.key,
        &ctx.accounts.delegate_info.key,
    )
}

/// The checks on the accounts of a metadata delegation, in their order:
/// the payer and the approver have signed, the metadata belongs to this
/// program and the mint to the ledger, and the well-known accounts are the
/// ones expected.
pub open spec fn metadata_delegate_accounts_check(
    program_id: Pubkey,
    ids: &ProgramIds,
    ctx: Delegate,
) -> Result<(), OperationError> {
    if !ctx.payer_info.is_signer || !ctx.approver_info.is_signer {
        Err(OperationError::MissingRequiredSignature)
    } else if ctx.metadata_info.owner != program_id || ctx.mint_info.owner != ids.spl_token {
        Err(custom(MetadataError::IncorrectOwner))
    } else if ctx.system_program_info.key != ids.system_program || ctx.sysvar_instructions_info.key
        != ids.sysvar_instructions {
        Err(custom(MetadataError::KeyMismatch))
    } else {
        Ok(())
    }
}

/// What creating a metadata delegate does. After the checks on the accounts,
/// the approver has to be the update authority of the metadata, else
/// `InvalidAuthorityType`, and the metadata has to be that of the mint; then
/// the record is created as `create_pda_plan` says.
pub open spec fn metadata_delegate_plan(
    program_id: Pubkey,
    ids: &ProgramIds,
    ctx: Delegate,
    readings: &Readings,
    role: MetadataDelegateRole,
) -> Plan {
    if metadata_delegate_accounts_check(program_id, ids, ctx) is Err {
        Err(metadata_delegate_accounts_check(program_id, ids, ctx)->Err_0)
    } else if spec_metadata_from_account_info(ctx.metadata_info) is Err {
        Err(spec_metadata_from_account_info(ctx.metadata_info)->Err_0)
    } else {
        let metadata = spec_metadata_from_account_info(ctx.metadata_info)->Ok_0;
        if ctx.approver_info.key != metadata.update_authority {
            Err(custom(MetadataError::InvalidAuthorityType))
        } else if metadata.mint != ctx.mint_info.key {
            Err(custom(MetadataError::MintMismatch))
        } else if ctx.delegate_record_info is None {
            Err(custom(MetadataError::MissingTokenAccount))
        } else {
            create_pda_plan(
                readings.delegate_record,
                ctx.delegate_record_info->0,
                ctx.delegate_info.key,
                ctx.mint_info.key,
                ctx.approver_info.key,
                ctx.payer_info.key,
                role,
            )
        }
    }
}

/// Creates a collection or update delegate.
///
/// There can be any number of delegates of a role at a time, each in a
/// record of its own. Only the update authority of the asset can approve one.
pub fn create_delegate_v1(
    program_id: &Pubkey,
    ids: &ProgramIds,
    ctx: Context<Delegate>,
    readings: &Readings,
    role: MetadataDelegateRole,
) -> (r: Result<Vec<Effect>, OperationError>)
    ensures
        is_plan(r, metadata_delegate_plan(*program_id, ids, ctx.accounts, readings, role)),
{
    // signers
    assert_signer(ctx.accounts.payer_info)?;
    assert_signer(ctx.accounts.approver_info)?;

    // ownership
    assert_owned_by(ctx.accounts.metadata_info, program_id)?;
    assert_owned_by(ctx.accounts.mint_info, &ids.spl_token)?;

    // key match
    assert_keys_equal(&ctx.accounts.system_program_info.key, &ids.system_program)?;
    assert_keys_equal(&ctx.accounts.sysvar_instructions_info.key, &ids.sysvar_instructions)?;

    // account relationships
    let metadata = Metadata::from_account_info(ctx.accounts.metadata_info)?;
    // the approver has to be the update authority
    let precedence = vec![AuthorityType::Metadata];
    assert(precedence@ =~= seq![AuthorityType::Metadata]);
    let request = AuthorityRequest::new(
        ctx.accounts.approver_info.key,
        metadata.update_authority,
        ctx.accounts.mint_info.key,
        precedence,
    );
    assert(request.precedence@[0] == AuthorityType::Metadata);
    AuthorityType::get_authority_type(&request)?;

    if metadata.mint != ctx.accounts.mint_info.key {
        return Err(OperationError::Custom(MetadataError::MintMismatch));
    }
    let delegate_record_info = match ctx.accounts.delegate_record_info {
        Some(delegate_record_info) => delegate_record_info,
        None => {
            return Err(OperationError::Custom(MetadataError::MissingTokenAccount));
        },
    };

    // the derivation is checked where the record is created
    create_pda_account(
        readings.delegate_record,
        delegate_record_info,
        ctx.accounts.delegate_info,
        ctx.accounts.mint_info,
        ctx.accounts.approver_info,
        ctx.accounts.payer_info,
        role,
    )
}

/// What creating the record of a metadata delegation does. The account has
/// to be at the address that was derived for the record, else
/// `DerivedKeyInvalid`; it has to be empty, else the delegation exists
/// already. The one effect creates the record, which names the mint, the
/// delegate, the authority that approved it and the payer.
pub open spec fn create_pda_plan(
    derived: Option<(Pubkey, u8)>,
    delegate_record_info: &AccountInfo,
    delegate: Pubkey,
    mint: Pubkey,
    approver: Pubkey,
    payer: Pubkey,
    role: MetadataDelegateRole,
) -> Plan {
    let bump = derived_key(derived, delegate_record_info.key);
    if bump is Err {
        Err(bump->Err_0)
    } else if !delegate_record_info.data_is_empty() {
        Err(custom(MetadataError::DelegateAlreadyExists))
    } else {
        Ok(
            seq![
                Effect::CreateDelegateRecord {
                    account: delegate_record_info.key,
                    payer,
                    role,
                    record: MetadataDelegateRecord {
                        key: Key::MetadataDelegate,
                        bump: bump->Ok_0,
                        mint,
                        delegate,
                        update_authority: approver,
                        payer,
                    },
                },
            ],
        )
    }
}

/// Creates the record of a metadata delegation at its derived address.
pub fn create_pda_account(
    derived: Option<(Pubkey, u8)>,
    delegate_record_info: &AccountInfo,
    delegate_info: &AccountInfo,
    mint_info: &AccountInfo,
    approver_info: &AccountInfo,
    payer_info: &AccountInfo,
    delegate_role: MetadataDelegateRole,
) -> (r: Result<Vec<Effect>, OperationError>)
    ensures
        is_plan(
            r,
            create_pda_plan(
                derived,
                delegate_record_info,
                delegate_info.key,
                mint_info.key,
                approver_info.key,
                payer_info.key,
                delegate_role,
            ),
        ),
{
    // validates the delegate derivation
    let bump = check_derived_key(derived, &delegate_record_info.key)?;

    if !delegate_record_info.data_is_empty() {
        return Err(OperationError::Custom(MetadataError::DelegateAlreadyExists));
    }
    // the account is allocated and written by whoever carries out the effect

    let pda = MetadataDelegateRecord {
        key: Key::MetadataDelegate,
        bump,
        mint: mint_info.key,
        delegate: delegate_info.key,
        update_authority: approver_info.key,
        payer: payer_info.key,
    };
    let mut effects: Vec<Effect> = Vec::new();
    effects.push(
        Effect::CreateDelegateRecord {
            account: delegate_record_info.key,
            payer: payer_info.key,
            role: delegate_role,
            record: pda,
        },
    );
    assert(effects@ =~= create_pda_plan(
        derived,
        delegate_record_info,
        delegate_info.key,
        mint_info.key,
        approver_info.key,
        payer_info.key,
        delegate_role,
    )->Ok_0);
    Ok(effects)
}

/// The checks on the accounts of a token delegation, in their order: the
/// token account and the ledger program are there, the payer and the
/// approver have signed, the metadata belongs to this program and the mint
/// and the token account to the ledger, and the well-known accounts are the
/// ones expected.
pub open spec fn persistent_delegate_accounts_check(
    program_id: Pubkey,
    ids: &ProgramIds,
    ctx: Delegate,
) -> Result<(), OperationError> {
    if ctx.token_info is None {
        Err(custom(MetadataError::MissingTokenAccount))
    } else if ctx.spl_token_program_info is None {
        Err(custom(MetadataError::MissingSplTokenProgram))
    } else if !ctx.payer_info.is_signer || !ctx.approver_info.is_signer {
        Err(OperationError::MissingRequiredSignature)
    } else if ctx.metadata_info.owner != program_id || ctx.mint_info.owner != ids.spl_token
        || ctx.token_info->0.owner != ids.spl_token {
        Err(custom(MetadataError::IncorrectOwner))
    } else if ctx.system_program_info.key != ids.system_program || ctx.sysvar_instructions_info.key
        != ids.sysvar_instructions || ctx.spl_token_program_info->0.key != ids.spl_token {
        Err(custom(MetadataError::KeyMismatch))
    } else {
        Ok(())
    }
}

/// The ledger action that records a delegation on the token account.
pub open spec fn spec_approve(ctx: Delegate, amount: u64) -> Effect {
    Effect::Ledger(
        LedgerAction::Approve {
            source: ctx.token_info->0.key,
            delegate: ctx.delegate_info.key,
            owner: ctx.approver_info.key,
            amount,
        },
    )
}

/// What delegating the token of a programmable asset does.
///
/// While a sale delegate is set no other can be: `DelegateAlreadyExists`.
/// Any other delegate is replaced. The master edition, which freezes and
/// thaws for this program, has to be there, owned by this program and at
/// its derived address; the rule set that the asset names has to be among
/// the accounts. Then, in this order: the policy engine is asked; the token
/// record gets the delegate and the state of the role; a frozen token account
/// is thawed; the ledger records the delegate and the amount; the token
/// account is frozen.
pub open spec fn programmable_delegate_plan(
    ids: &ProgramIds,
    ctx: Delegate,
    readings: &Readings,
    rule_set: Option<Pubkey>,
    token: TokenAccount,
    role: TokenDelegateRole,
    amount: u64,
) -> Plan {
    let found = required_token_record(ids, readings.token_record, ctx.token_record_info);
    let edition = required_master_edition(ids, readings.master_edition, ctx.master_edition_info);
    if found is Err {
        Err(found->Err_0)
    } else if found->Ok_0.blocks_new_delegate() {
        Err(custom(MetadataError::DelegateAlreadyExists))
    } else if edition is Err {
        Err(edition->Err_0)
    } else if !rule_set_presented(rule_set, ctx.authorization_rules_info) {
        Err(custom(MetadataError::KeyMismatch))
    } else {
        Ok(
            spec_authorize(
                rule_set,
                Operation::Delegate,
                ctx.mint_info.key,
                ctx.approver_info.key,
            ) + seq![
                Effect::WriteTokenRecord {
                    account: ctx.token_record_info->0.key,
                    record: found->Ok_0.with_delegate(ctx.delegate_info.key, role),
                },
            ] + spec_thaw_if(
                token.is_frozen(),
                ctx.mint_info.key,
                ctx.token_info->0.key,
                edition->Ok_0,
            ) + seq![
                spec_approve(ctx, amount),
                spec_freeze(ctx.mint_info.key, ctx.token_info->0.key, edition->Ok_0),
            ],
        )
    }
}

/// Whether the approver of a token delegation holds the asset: the token
/// account is theirs, is of the mint, and holds at least one token.
pub open spec fn approver_holds(ctx: Delegate, token: TokenAccount) -> bool {
    token.owner == ctx.approver_info.key && token.mint == ctx.mint_info.key && token.amount > 0
}

/// What creating a token delegate does.
///
/// After the checks on the accounts, the metadata has to be that of the
/// mint, and the approver has to hold the asset, else `InvalidAuthorityType`:
/// the token account is theirs, is of the mint, and holds a token. For a
/// programmable asset the plan is that of `programmable_delegate_plan`. For
/// any other asset the delegation is the ledger's alone, and a sale delegate
/// is not available.
pub open spec fn persistent_delegate_plan(
    program_id: Pubkey,
    ids: &ProgramIds,
    ctx: Delegate,
    readings: &Readings,
    role: TokenDelegateRole,
    amount: u64,
) -> Plan {
    if persistent_delegate_accounts_check(program_id, ids, ctx) is Err {
        Err(persistent_delegate_accounts_check(program_id, ids, ctx)->Err_0)
    } else if spec_metadata_from_account_info(ctx.metadata_info) is Err {
        Err(spec_metadata_from_account_info(ctx.metadata_info)->Err_0)
    } else {
        let metadata = spec_metadata_from_account_info(ctx.metadata_info)->Ok_0;
        if metadata.mint != ctx.mint_info.key {
            Err(custom(MetadataError::MintMismatch))
        } else if unpacked(readings.token) is Err {
            Err(unpacked(readings.token)->Err_0)
        } else {
            let token = unpacked(readings.token)->Ok_0;
            if !approver_holds(ctx, token) {
                Err(custom(MetadataError::InvalidAuthorityType))
            } else if metadata.token_standard == Some(TokenStandard::ProgrammableNonFungible) {
                programmable_delegate_plan(
                    ids,
                    ctx,
                    readings,
                    governing_rule_set(
                        TokenStandard::ProgrammableNonFungible,
                        metadata.programmable_config,
                    ),
                    token,
                    role,
                    amount,
                )
            } else if role == TokenDelegateRole::Sale {
                Err(custom(MetadataError::InvalidTokenStandard))
            } else {
                Ok(seq![spec_approve(ctx, amount)])
            }
        }
    }
}

/// Creates a persistent delegate. For assets that are not programmable this
/// is the delegate of the ledger and nothing more.
///
/// A sale delegate is available for programmable assets only.
pub fn create_persistent_delegate_v1(
    program_id: &Pubkey,
    ids: &ProgramIds,
    ctx: Context<Delegate>,
    readings: &Readings,
    role: TokenDelegateRole,
    amount: u64,
) -> (r: Result<Vec<Effect>, OperationError>)
    ensures
        is_plan(
            r,
            persistent_delegate_plan(*program_id, ids, ctx.accounts, readings, role, amount),
        ),
{
    // retrieving required optional accounts
    let token_info = match ctx.accounts.token_info {
        Some(token_info) => token_info,
        None => {
            return Err(OperationError::Custom(MetadataError::MissingTokenAccount));
        },
    };
    let spl_token_program_info = match ctx.accounts.spl_token_program_info {
        Some(spl_token_program_info) => spl_token_program_info,
        None => {
            return Err(OperationError::Custom(MetadataError::MissingSplTokenProgram));
        },
    };

    // signers
    assert_signer(ctx.accounts.payer_info)?;
    assert_signer(ctx.accounts.approver_info)?;

    // ownership
    assert_owned_by(ctx.accounts.metadata_info, program_id)?;
    assert_owned_by(ctx.accounts.mint_info, &ids.spl_token)?;
    assert_owned_by(token_info, &ids.spl_token)?;

    // key match
    assert_keys_equal(&ctx.accounts.system_program_info.key, &ids.system_program)?;
    assert_keys_equal(&ctx.accounts.sysvar_instructions_info.key, &ids.sysvar_instructions)?;
    assert_keys_equal(&spl_token_program_info.key, &ids.spl_token)?;

    // account relationships
    let metadata = Metadata::from_account_info(ctx.accounts.metadata_info)?;
    if metadata.mint != ctx.accounts.mint_info.key {
        return Err(OperationError::Custom(MetadataError::MintMismatch));
    }
    // the approver has to hold the asset: the ledger requires the token
    // owner to set a delegate

    let token_account = unpack_account(readings.token)?;
    let precedence = vec![AuthorityType::Holder];
    assert(precedence@ =~= seq![AuthorityType::Holder]);
    let mut request = AuthorityRequest::new(
        ctx.accounts.approver_info.key,
        metadata.update_authority,
        ctx.accounts.mint_info.key,
        precedence,
    );
    request.token_account = Some(token_account);
    assert(request.precedence@[0] == AuthorityType::Holder);
    AuthorityType::get_authority_type(&request)?;
    // process the delegation

    let approve = Effect::Ledger(
        LedgerAction::Approve {
            source: token_info.key,
            delegate: ctx.accounts.delegate_info.key,
            owner: ctx.accounts.approver_info.key,
            amount,
        },
    );
    let mut effects: Vec<Effect> = Vec::new();
    let programmable = match metadata.token_standard {
        Some(TokenStandard::ProgrammableNonFungible) => true,
        _ => false,
    };

    if programmable {
        let mut token_record = read_required_token_record(
            ids,
            readings.token_record,
            ctx.accounts.token_record_info,
        )?;
        let token_record_info = ctx.accounts.token_record_info.unwrap();
        // a delegate can be replaced only if it is not a sale delegate,
        // which needs to be revoked first
        match token_record.set_delegate(ctx.accounts.delegate_info.key, role) {
            Ok(()) => {},
            Err(e) => {
                return Err(OperationError::Custom(e));
            },
        }
        let master_edition_info = read_required_master_edition(
            ids,
            readings.master_edition,
            ctx.accounts.master_edition_info,
        )?;
        let rule_set = find_rule_set(
            TokenStandard::ProgrammableNonFungible,
            metadata.programmable_config,
            ctx.accounts.authorization_rules_info,
        )?;

        authorize(
            &mut effects,
            rule_set,
            Operation::Delegate,
            ctx.accounts.mint_info,
            ctx.accounts.approver_info,
        );
        effects.push(
            Effect::WriteTokenRecord { account: token_record_info.key, record: token_record },
        );
        thaw(
            &mut effects,
            token_account.is_frozen(),
            ctx.accounts.mint_info,
            token_info,
            master_edition_info,
        );
        // creates the delegate of the ledger
        effects.push(approve);
        freeze(&mut effects, ctx.accounts.mint_info, token_info, master_edition_info);
        assert(effects@ =~= programmable_delegate_plan(
            ids,
            ctx.accounts,
            readings,
            rule_set,
            token_account,
            role,
            amount,
        )->Ok_0);
        Ok(effects)
    } else {
        if let TokenDelegateRole::Sale = role {
            // a sale delegate is available for programmable assets only
            return Err(OperationError::Custom(MetadataError::InvalidTokenStandard));
        }
        // creates the delegate of the ledger
        effects.push(approve);
        assert(effects@ =~= seq![spec_approve(ctx.accounts, amount)]);
        Ok(effects)
    }
}

} // verus!
