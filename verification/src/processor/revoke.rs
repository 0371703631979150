use crate::account::{
    spec_delegate_record_from_account_info, spec_metadata_from_account_info, AccountInfo,
};
use crate::assertions::{
    assert_keys_equal, assert_owned_by, assert_signer, custom, unpack_account, unpacked,
};
use crate::authority::{AuthorityRequest, AuthorityType};
use crate::error::{MetadataError, OperationError};
use crate::ids::ProgramIds;
use crate::instruction::{Context, Delegate, RevokeArgs};
use crate::ledger::{LedgerAction, TokenAccount};
use crate::pda::{
    check_derived_key, derived_key, find_metadata_delegate_record_account,
    metadata_delegate_seeds, program_address,
};
use crate::processor::delegate::{
    metadata_delegate_accounts_check, persistent_delegate_accounts_check,
};
use crate::processor::{
    is_plan, presented_token_record, read_accounts, read_presented_token_record,
    read_required_master_edition, read_required_token_record, readings_of,
    required_master_edition, required_token_record, spec_thaw_if, thaw, Effect, Plan, Readings,
};
use crate::pubkey::Pubkey;
use crate::state::{
    Metadata, MetadataDelegateRecord, MetadataDelegateRole, TokenDelegateRole, TokenRecord,
    TokenStandard,
};
use vstd::prelude::*;

verus! {

/// The role of the metadata delegate that the arguments name; nothing for a
/// token delegate.
pub open spec fn metadata_revocation(args: RevokeArgs) -> Option<MetadataDelegateRole> {
    match args {
        RevokeArgs::CollectionV1 => Some(MetadataDelegateRole::Collection),
        RevokeArgs::UpdateV1 => Some(MetadataDelegateRole::Update),
        _ => None,
    }
}

/// What a revocation does, by the kind of delegate that the arguments name.
pub open spec fn revoke_plan(
    program_id: Pubkey,
    ids: &ProgramIds,
    ctx: Delegate,
    readings: &Readings,
    args: RevokeArgs,
) -> Plan {
    match args {
        RevokeArgs::CollectionV1 => metadata_revoke_plan(
            program_id,
            ids,
            ctx,
            readings,
            MetadataDelegateRole::Collection,
        ),
        RevokeArgs::UpdateV1 => metadata_revoke_plan(
            program_id,
            ids,
            ctx,
            readings,
            MetadataDelegateRole::Update,
        ),
        RevokeArgs::SaleV1 => persistent_revoke_plan(
            program_id,
            ids,
            ctx,
            readings,
            TokenDelegateRole::Sale,
        ),
        RevokeArgs::TransferV1 => persistent_revoke_plan(
            program_id,
            ids,
            ctx,
            readings,
            TokenDelegateRole::Transfer,
        ),
        RevokeArgs::UtilityV1 => persistent_revoke_plan(
            program_id,
            ids,
            ctx,
            readings,
            TokenDelegateRole::Utility,
        ),
        RevokeArgs::StakingV1 => persistent_revoke_plan(
            program_id,
            ids,
            ctx,
            readings,
            TokenDelegateRole::Staking,
        ),
    }
}

/// What there is to read for a revocation: the mint, the token account if
/// there is one, and, for a metadata delegate whose record is there, the
/// address of that record, which is derived from the mint, the role, the
/// authority that the record names as its approver, and the delegate.
pub open spec fn revoke_readings(
    program_id: Pubkey,
    ids: &ProgramIds,
    ctx: Delegate,
    args: RevokeArgs,
) -> Readings {
    Readings {
        delegate_record: match (metadata_revocation(args), ctx.delegate_record_info) {
            (Some(role), Some(info)) => match spec_delegate_record_from_account_info(info) {
                Ok(record) => program_address(
                    metadata_delegate_seeds(
                        program_id,
                        ctx.mint_info.key,
                        role,
                        record.update_authority,
                        ctx.delegate_info.key,
                    ),
                    program_id,
                ),
                Err(_) => None,
            },
            _ => None,
        },
        ..readings_of(ids, ctx.mint_info, ctx.token_info, None)
    }
}

/// Revokes a delegation. The accounts are those of the delegation, with the
/// one who revokes in the place of the approver.
///
/// The accounts are bound by position and read, and the revocation is
/// decided by `revoke_delegate_v1` or by `revoke_persistent_delegate_v1`. The
/// result is the list of changes to make, or the first failure in the order
/// of the checks; nothing is changed on failure.
pub fn revoke(program_id: &Pubkey, ids: &ProgramIds, accounts: &[AccountInfo], args: RevokeArgs) -> (r:
    Result<Vec<Effect>, OperationError>)
    ensures
        accounts@.len() < Delegate::spec_len() ==> r is Err && r->Err_0
            == OperationError::NotEnoughAccountKeys,
        accounts@.len() >= Delegate::spec_len() ==> is_plan(
            r,
            revoke_plan(
                *program_id,
                ids,
                Delegate::bind(accounts@, ids.token_metadata),
                &revoke_readings(
                    *program_id,
                    ids,
                    Delegate::bind(accounts@, ids.token_metadata),
                    args,
                ),
                args,
            ),
        ),
{
    let context = Delegate::to_context(accounts, &ids.token_metadata)?;
    let mut readings = read_accounts(
        ids,
        context.accounts.mint_info,
        context.accounts.token_info,
        None,
    );
    match args {
        RevokeArgs::CollectionV1 => {
            readings.delegate_record =
            find_revoked_record(program_id, &context, MetadataDelegateRole::Collection);
            revoke_delegate_v1(
                program_id,
                ids,
                context,
                &readings,
                MetadataDelegateRole::Collection,
            )
        },
        RevokeArgs::SaleV1 => revoke_persistent_delegate_v1(
            program_id,
            ids,
            context,
            &readings,
            TokenDelegateRole::Sale,
        ),
        RevokeArgs::TransferV1 => revoke_persistent_delegate_v1(
            program_id,
            ids,
            context,
            &readings,
            TokenDelegateRole::Transfer,
        ),
        RevokeArgs::UpdateV1 => {
            readings.delegate_record =
            find_revoked_record(program_id, &context, MetadataDelegateRole::Update);
            revoke_delegate_v1(program_id, ids, context, &readings, MetadataDelegateRole::Update)
        },
        RevokeArgs::UtilityV1 => revoke_persistent_delegate_v1(
            program_id,
            ids,
            context,
            &readings,
            TokenDelegateRole::Utility,
        ),
        RevokeArgs::StakingV1 => revoke_persistent_delegate_v1(
            program_id,
            ids,
            context,
            &readings,
            TokenDelegateRole::Staking,
        ),
    }
}

/// Derives the address of the delegate record that is to be revoked, from
/// the approver that the record names.
fn find_revoked_record(program_id: &Pubkey, ctx: &Context<Delegate>, role: MetadataDelegateRole) -> (r:
    Option<(Pubkey, u8)>)
    ensures
        r == match ctx.accounts.delegate_record_info {
            Some(info) => match spec_delegate_record_from_account_info(info) {
                Ok(record) => program_address(
                    metadata_delegate_seeds(
                        *program_id,
                        ctx.accounts.mint_info.key,
                        role,
                        record.update_authority,
                        ctx.accounts.delegate_info.key,
                    ),
                    *program_id,
                ),
                Err(_) => None,
            },
            None => None,
        },
{
    match ctx.accounts.delegate_record_info {
        Some(info) => match MetadataDelegateRecord::from_account_info(info) {
            Ok(record) => find_metadata_delegate_record_account(
                program_id,
                &ctx.accounts.mint_info.key,
                role,
                &record.update_authority,
                &ctx.accounts.delegate_info.key,
            ),
            Err(_) => None,
        },
        None => None,
    }
}

/// The delegate record that a revocation destroys. The account has to be
/// there, owned by this program, and hold a delegate record; it has to lie
/// at the address that was derived for the record; and the record has to
/// name the delegate and the mint.
pub open spec fn revoked_delegate_record(program_id: Pubkey, ctx: Delegate, readings: &Readings) -> Result<
    MetadataDelegateRecord,
    OperationError,
> {
    if ctx.delegate_record_info is None {
        Err(custom(MetadataError::MissingDelegateRecord))
    } else {
        let info = ctx.delegate_record_info->0;
        if info.owner != program_id {
            Err(custom(MetadataError::IncorrectOwner))
        } else if spec_delegate_record_from_account_info(info) is Err {
            Err(custom(MetadataError::DelegateNotFound))
        } else {
            let record = spec_delegate_record_from_account_info(info)->Ok_0;
            if derived_key(readings.delegate_record, info.key) is Err {
                Err(custom(MetadataError::DerivedKeyInvalid))
            } else if record.delegate != ctx.delegate_info.key || record.mint
                != ctx.mint_info.key {
                Err(custom(MetadataError::InvalidDelegate))
            } else {
                Ok(record)
            }
        }
    }
}

/// The delegate record that counts as evidence for the one who revokes: the
/// record of the account presented, provided that the account belongs to
/// this program, holds a delegate record, and lies at the address that was
/// derived for it.
pub open spec fn presented_revoked_record(
    program_id: Pubkey,
    ctx: Delegate,
    readings: &Readings,
) -> Option<MetadataDelegateRecord> {
    match ctx.delegate_record_info {
        Some(info) => if info.owner == program_id && spec_delegate_record_from_account_info(info)
            is Ok && derived_key(readings.delegate_record, info.key) is Ok {
            Some(spec_delegate_record_from_account_info(info)->Ok_0)
        } else {
            None
        },
        None => None,
    }
}

/// Whether the one who revokes may revoke a metadata delegate: the update
/// authority of the asset, or the delegate itself, as the record presented
/// names it.
pub open spec fn may_revoke_metadata(
    program_id: Pubkey,
    ctx: Delegate,
    readings: &Readings,
    metadata: Metadata,
) -> bool {
    ||| ctx.approver_info.key == metadata.update_authority
    ||| (presented_revoked_record(program_id, ctx, readings) matches Some(record) && record.delegate
        == ctx.approver_info.key && record.mint == ctx.mint_info.key)
}

/// What revoking a metadata delegate does. After the checks on the accounts,
/// the metadata has to be that of the mint, and the one who revokes has to
/// be the update authority of the asset or the delegate itself, else
/// `InvalidAuthorityType`. Then the record is checked. The one effect
/// destroys the record and hands what its account held to whoever paid for
/// its creation, as the record names them.
pub open spec fn metadata_revoke_plan(
    program_id: Pubkey,
    ids: &ProgramIds,
    ctx: Delegate,
    readings: &Readings,
    role: MetadataDelegateRole,
) -> Plan {
    if metadata_delegate_accounts_check(program_id, ids, ctx) is Err {
        Err(metadata_delegate_accounts_check(program_id, ids, ctx)->Err_0)
    } else if spec_metadata_from_account_info(ctx.metadata_info) is Err {
        Err(spec_metadata_from_account_info(ctx.metadata_info)->Err_0)
    } else {
        let metadata = spec_metadata_from_account_info(ctx.metadata_info)->Ok_0;
        if metadata.mint != ctx.mint_info.key {
            Err(custom(MetadataError::MintMismatch))
        } else if !may_revoke_metadata(program_id, ctx, readings, metadata) {
            Err(custom(MetadataError::InvalidAuthorityType))
        } else if revoked_delegate_record(program_id, ctx, readings) is Err {
            Err(revoked_delegate_record(program_id, ctx, readings)->Err_0)
        } else {
            Ok(
                seq![
                    Effect::CloseAccount {
                        account: ctx.delegate_record_info->0.key,
                        destination: revoked_delegate_record(program_id, ctx, readings)->Ok_0.payer,
                    },
                ],
            )
        }
    }
}

/// Revokes a collection or update delegate.
pub fn revoke_delegate_v1(
    program_id: &Pubkey,
    ids: &ProgramIds,
    ctx: Context<Delegate>,
    readings: &Readings,
    role: MetadataDelegateRole,
) -> (r: Result<Vec<Effect>, OperationError>)
    ensures
        is_plan(r, metadata_revoke_plan(*program_id, ids, ctx.accounts, readings, role)),
{
    // signers
    assert_signer(ctx.accounts.payer_info)?;
    assert_signer(ctx.accounts.approver_info)?;

    // ownership
    assert_owned_by(ctx.accounts.metadata_info, program_id)?;
    assert_owned_by(ctx.accounts.mint_info, &ids.spl_token)?;

    // key match
    assert_keys_equal(&ctx.accounts.system_program_info.key, &ids.system_program)?;
    assert_keys_equal(&ctx.accounts.sysvar_instructions_info.key, &ids.sysvar_instructions)?;

    // account relationships
    let metadata = Metadata::from_account_info(ctx.accounts.metadata_info)?;
    if metadata.mint != ctx.accounts.mint_info.key {
        return Err(OperationError::Custom(MetadataError::MintMismatch));
    }
    // the delegate itself or the update authority may revoke
    let precedence = vec![AuthorityType::MetadataDelegate, AuthorityType::Metadata];
    assert(precedence@ =~= seq![AuthorityType::MetadataDelegate, AuthorityType::Metadata]);
    let mut request = AuthorityRequest::new(
        ctx.accounts.approver_info.key,
        metadata.update_authority,
        ctx.accounts.mint_info.key,
        precedence,
    );
    if let Some(presented) = ctx.accounts.delegate_record_info {
        if presented.owner == *program_id && check_derived_key(
            readings.delegate_record,
            &presented.key,
        ).is_ok() {
            match MetadataDelegateRecord::from_account_info(presented) {
                Ok(record) => {
                    request.metadata_delegate_record = Some(record);
                },
                Err(_) => {},
            }
        }
    }
    request.metadata_delegate_role = Some(role);
    request.metadata_delegate_roles = vec![role];
    proof {
        assert(request.metadata_delegate_record == presented_revoked_record(
            *program_id,
            ctx.accounts,
            readings,
        ));
        assert(request.metadata_delegate_roles@[0] == role);
        assert(request.precedence@[0] == AuthorityType::MetadataDelegate);
        assert(request.precedence@[1] == AuthorityType::Metadata);
    }
    AuthorityType::get_authority_type(&request)?;

    // the record that is revoked
    let delegate_record_info = match ctx.accounts.delegate_record_info {
        Some(delegate_record_info) => delegate_record_info,
        None => {
            return Err(OperationError::Custom(MetadataError::MissingDelegateRecord));
        },
    };
    assert_owned_by(delegate_record_info, program_id)?;
    let record = match MetadataDelegateRecord::from_account_info(delegate_record_info) {
        Ok(record) => record,
        Err(_) => {
            return Err(OperationError::Custom(MetadataError::DelegateNotFound));
        },
    };
    check_derived_key(readings.delegate_record, &delegate_record_info.key)?;
    if record.delegate != ctx.accounts.delegate_info.key || record.mint
        != ctx.accounts.mint_info.key {
        return Err(OperationError::Custom(MetadataError::InvalidDelegate));
    }

    let mut effects: Vec<Effect> = Vec::new();
    effects.push(
        Effect::CloseAccount { account: delegate_record_info.key, destination: record.payer },
    );
    assert(effects@ =~= metadata_revoke_plan(
        *program_id,
        ids,
        ctx.accounts,
        readings,
        role,
    )->Ok_0);
    Ok(effects)
}

/// The ledger action that removes the delegate of the token account.
pub open spec fn spec_ledger_revoke(ctx: Delegate, token: TokenAccount) -> Effect {
    Effect::Ledger(LedgerAction::Revoke { source: ctx.token_info->0.key, owner: token.owner })
}

/// Whether the one who revokes may revoke the delegate of a token: the
/// holder who approved it, the delegate itself, as the token record
/// presented names it, or the update authority of the asset.
pub open spec fn may_revoke(
    ctx: Delegate,
    metadata: Metadata,
    token: TokenAccount,
    record: Option<TokenRecord>,
    role: TokenDelegateRole,
) -> bool {
    let authority = ctx.approver_info.key;
    ||| (token.owner == authority && token.mint == ctx.mint_info.key && token.amount > 0)
    ||| (record matches Some(r) && r.delegate == Some(authority) && r.delegate_role == Some(role))
    ||| authority == metadata.update_authority
}

/// What revoking the delegate of the token of a programmable asset does.
///
/// The token record has to name the delegate in the role given, else
/// `DelegateNotFound` where it names none and `InvalidDelegate` where it
/// names another. Then, in this order: the token record loses its delegate
/// and the token is unlocked; a frozen token account is thawed; the ledger
/// forgets the delegate. The token account stays thawed.
pub open spec fn programmable_revoke_plan(
    ids: &ProgramIds,
    ctx: Delegate,
    readings: &Readings,
    token: TokenAccount,
    role: TokenDelegateRole,
) -> Plan {
    let found = required_token_record(ids, readings.token_record, ctx.token_record_info);
    let edition = required_master_edition(ids, readings.master_edition, ctx.master_edition_info);
    if found is Err {
        Err(found->Err_0)
    } else if found->Ok_0.delegate is None {
        Err(custom(MetadataError::DelegateNotFound))
    } else if found->Ok_0.delegate != Some(ctx.delegate_info.key) || found->Ok_0.delegate_role
        != Some(role) {
        Err(custom(MetadataError::InvalidDelegate))
    } else if edition is Err {
        Err(edition->Err_0)
    } else {
        Ok(
            seq![
                Effect::WriteTokenRecord {
                    account: ctx.token_record_info->0.key,
                    record: found->Ok_0.without_delegate(),
                },
            ] + spec_thaw_if(
                token.is_frozen(),
                ctx.mint_info.key,
                ctx.token_info->0.key,
                edition->Ok_0,
            ) + seq![spec_ledger_revoke(ctx, token)],
        )
    }
}

/// What revoking a token delegate does.
///
/// After the checks on the accounts, the metadata has to be that of the
/// mint, and the one who revokes has to be entitled to, as `may_revoke`
/// says, else `InvalidAuthorityType`. For a programmable asset the plan is
/// then that of `programmable_revoke_plan`. For any other asset there are
/// no sale delegates, and the ledger has to name the delegate, which is
/// revoked on the ledger.
pub open spec fn persistent_revoke_plan(
    program_id: Pubkey,
    ids: &ProgramIds,
    ctx: Delegate,
    readings: &Readings,
    role: TokenDelegateRole,
) -> Plan {
    if persistent_delegate_accounts_check(program_id, ids, ctx) is Err {
        Err(persistent_delegate_accounts_check(program_id, ids, ctx)->Err_0)
    } else if spec_metadata_from_account_info(ctx.metadata_info) is Err {
        Err(spec_metadata_from_account_info(ctx.metadata_info)->Err_0)
    } else {
        let metadata = spec_metadata_from_account_info(ctx.metadata_info)->Ok_0;
        if metadata.mint != ctx.mint_info.key {
            Err(custom(MetadataError::MintMismatch))
        } else if unpacked(readings.token) is Err {
            Err(unpacked(readings.token)->Err_0)
        } else {
            let token = unpacked(readings.token)->Ok_0;
            let presented = presented_token_record(
                ids,
                readings.token_record,
                ctx.token_record_info,
            );
            if !may_revoke(ctx, metadata, token, presented, role) {
                Err(custom(MetadataError::InvalidAuthorityType))
            } else if metadata.token_standard == Some(TokenStandard::ProgrammableNonFungible) {
                programmable_revoke_plan(ids, ctx, readings, token, role)
            } else if role == TokenDelegateRole::Sale {
                Err(custom(MetadataError::InvalidTokenStandard))
            } else if token.delegate is None {
                Err(custom(MetadataError::DelegateNotFound))
            } else if token.delegate != Some(ctx.delegate_info.key) {
                Err(custom(MetadataError::InvalidDelegate))
            } else {
                Ok(seq![spec_ledger_revoke(ctx, token)])
            }
        }
    }
}

/// Revokes a sale, transfer, utility or staking delegate.
pub fn revoke_persistent_delegate_v1(
    program_id: &Pubkey,
    ids: &ProgramIds,
    ctx: Context<Delegate>,
    readings: &Readings,
    role: TokenDelegateRole,
) -> (r: Result<Vec<Effect>, OperationError>)
    ensures
        is_plan(r, persistent_revoke_plan(*program_id, ids, ctx.accounts, readings, role)),
{
    // retrieving required optional accounts
    let token_info = match ctx.accounts.token_info {
        Some(token_info) => token_info,
        None => {
            return Err(OperationError::Custom(MetadataError::MissingTokenAccount));
        },
    };
    let spl_token_program_info = match ctx.accounts.spl_token_program_info {
        Some(spl_token_program_info) => spl_token_program_info,
        None => {
            return Err(OperationError::Custom(MetadataError::MissingSplTokenProgram));
        },
    };

    // signers
    assert_signer(ctx.accounts.payer_info)?;
    assert_signer(ctx.accounts.approver_info)?;

    // ownership
    assert_owned_by(ctx.accounts.metadata_info, program_id)?;
    assert_owned_by(ctx.accounts.mint_info, &ids.spl_token)?;
    assert_owned_by(token_info, &ids.spl_token)?;

    // key match
    assert_keys_equal(&ctx.accounts.system_program_info.key, &ids.system_program)?;
    assert_keys_equal(&ctx.accounts.sysvar_instructions_info.key, &ids.sysvar_instructions)?;
    assert_keys_equal(&spl_token_program_info.key, &ids.spl_token)?;

    // account relationships
    let metadata = Metadata::from_account_info(ctx.accounts.metadata_info)?;
    if metadata.mint != ctx.accounts.mint_info.key {
        return Err(OperationError::Custom(MetadataError::MintMismatch));
    }
    let token_account = unpack_account(readings.token)?;
    let programmable = match metadata.token_standard {
        Some(TokenStandard::ProgrammableNonFungible) => true,
        _ => false,
    };

    let precedence = vec![
        AuthorityType::Holder,
        AuthorityType::TokenDelegate,
        AuthorityType::Metadata,
    ];
    assert(precedence@ =~= seq![
        AuthorityType::Holder,
        AuthorityType::TokenDelegate,
        AuthorityType::Metadata,
    ]);
    let mut request = AuthorityRequest::new(
        ctx.accounts.approver_info.key,
        metadata.update_authority,
        ctx.accounts.mint_info.key,
        precedence,
    );
    request.token_account = Some(token_account);
    request.token_record =
    read_presented_token_record(ids, readings.token_record, ctx.accounts.token_record_info);
    request.token_delegate_roles = vec![role];
    proof {
        assert(request.token_delegate_roles@ =~= seq![role]);
        assert(request.token_delegate_roles@[0] == role);
        assert(request.precedence@[0] == AuthorityType::Holder);
        assert(request.precedence@[1] == AuthorityType::TokenDelegate);
        assert(request.precedence@[2] == AuthorityType::Metadata);
    }
    AuthorityType::get_authority_type(&request)?;
    let revoke = Effect::Ledger(
        LedgerAction::Revoke { source: token_info.key, owner: token_account.owner },
    );
    let mut effects: Vec<Effect> = Vec::new();

    if programmable {
        let mut token_record = read_required_token_record(
            ids,
            readings.token_record,
            ctx.accounts.token_record_info,
        )?;
        let named = match (token_record.delegate, token_record.delegate_role) {
            (None, _) => {
                return Err(OperationError::Custom(MetadataError::DelegateNotFound));
            },
            (Some(delegate), Some(current)) => delegate == ctx.accounts.delegate_info.key
                && current == role,
            (Some(_), None) => false,
        };
        if !named {
            return Err(OperationError::Custom(MetadataError::InvalidDelegate));
        }
        let master_edition_info = read_required_master_edition(
            ids,
            readings.master_edition,
            ctx.accounts.master_edition_info,
        )?;

        token_record.clear_delegate();
        effects.push(
            Effect::WriteTokenRecord {
                account: ctx.accounts.token_record_info.unwrap().key,
                record: token_record,
            },
        );
        thaw(
            &mut effects,
            token_account.is_frozen(),
            ctx.accounts.mint_info,
            token_info,
            master_edition_info,
        );
        effects.push(revoke);
        assert(effects@ =~= programmable_revoke_plan(
            ids,
            ctx.accounts,
            readings,
            token_account,
            role,
        )->Ok_0);
        Ok(effects)
    } else {
        if let TokenDelegateRole::Sale = role {
            return Err(OperationError::Custom(MetadataError::InvalidTokenStandard));
        }
        match token_account.delegate {
            None => {
                return Err(OperationError::Custom(MetadataError::DelegateNotFound));
            },
            Some(delegate) => {
                if delegate != ctx.accounts.delegate_info.key {
                    return Err(OperationError::Custom(MetadataError::InvalidDelegate));
                }
            },
        }
        effects.push(revoke);
        assert(effects@ =~= seq![spec_ledger_revoke(ctx.accounts, token_account)]);
        Ok(effects)
    }
}

} // verus!
