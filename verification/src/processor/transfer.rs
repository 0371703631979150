use crate::account::{spec_metadata_from_account_info, AccountInfo};
use crate::assertions::{assert_initialized, assert_owned_by, assert_signer, custom, initialized};
use crate::authority::{AuthorityRequest, AuthorityType};
use crate::error::{MetadataError, OperationError};
use crate::ids::ProgramIds;
use crate::instruction::metadata::TransferArgs;
use crate::instruction::{Context, Transfer};
use crate::ledger::{LedgerAction, TokenAccount};
use crate::processor::{
    authorize, find_rule_set, governing_rule_set, is_plan, presented_token_record,
    read_accounts, read_presented_token_record, read_required_master_edition,
    read_required_token_record, readings_of, required_master_edition, required_token_record,
    rule_set_presented, settle_token_standard, settled_token_standard, spec_authorize,
    spec_thaw_if, thaw, Effect, Operation, Plan, Readings,
};
use crate::pubkey::Pubkey;
use crate::state::{Metadata, TokenDelegateRole, TokenRecord, TokenStandard};
use vstd::prelude::*;

verus! {

/// What a transfer does, or why it fails.
pub open spec fn transfer_plan(
    program_id: Pubkey,
    ids: &ProgramIds,
    ctx: Transfer,
    readings: &Readings,
    args: TransferArgs,
) -> Plan {
    match args {
        TransferArgs::V1 { amount, .. } => transfer_v1_plan(program_id, ids, ctx, readings, amount),
    }
}

/// What there is to read for a transfer: the mint and the two token
/// accounts.
pub open spec fn transfer_readings(ids: &ProgramIds, ctx: Transfer) -> Readings {
    readings_of(ids, ctx.mint_info, Some(ctx.token_info), Some(ctx.destination_info))
}

/// Transfers tokens of an asset from one token account to another.
///
/// The accounts are bound by position, the mint and the two token accounts
/// are read, and the transfer is decided by `transfer_v1`. The result is the
/// list of changes to make, or the first failure in the order of the checks;
/// nothing is changed on failure, on either side.
pub fn transfer(
    program_id: &Pubkey,
    ids: &ProgramIds,
    accounts: &[AccountInfo],
    args: TransferArgs,
) -> (r: Result<Vec<Effect>, OperationError>)
    ensures
        accounts@.len() < Transfer::spec_len() ==> r is Err && r->Err_0
            == OperationError::NotEnoughAccountKeys,
        accounts@.len() >= Transfer::spec_len() ==> is_plan(
            r,
            transfer_plan(
                *program_id,
                ids,
                Transfer::bind(accounts@, ids.token_metadata),
                &transfer_readings(ids, Transfer::bind(accounts@, ids.token_metadata)),
                args,
            ),
        ),
{
    let context = Transfer::to_context(accounts, &ids.token_metadata)?;
    let readings = read_accounts(
        ids,
        context.accounts.mint_info,
        Some(context.accounts.token_info),
        Some(context.accounts.destination_info),
    );
    match args {
        TransferArgs::V1 { amount, .. } => transfer_v1(program_id, ids, context, &readings, amount),
    }
}

/// The checks on the accounts of a transfer, in their order: the authority
/// and the payer have signed, each account belongs to the program that
/// keeps it, and the well-known accounts are the ones expected.
pub open spec fn transfer_accounts_check(program_id: Pubkey, ids: &ProgramIds, ctx: Transfer) -> Result<
    (),
    OperationError,
> {
    if !ctx.authority_info.is_signer || !ctx.payer_info.is_signer {
        Err(OperationError::MissingRequiredSignature)
    } else if ctx.metadata_info.owner != program_id || ctx.mint_info.owner != ids.spl_token
        || ctx.token_info.owner != ids.spl_token || ctx.destination_info.owner != ids.spl_token {
        Err(custom(MetadataError::IncorrectOwner))
    } else if ctx.spl_token_program_info.key != ids.spl_token || ctx.system_program_info.key
        != ids.system_program || ctx.sysvar_instructions_info.key != ids.sysvar_instructions {
        Err(OperationError::IncorrectProgramId)
    } else {
        Ok(())
    }
}

/// What is asked of the two token accounts: both are of the mint, each
/// belongs to the owner named for it, and the source holds the amount.
pub open spec fn transfer_tokens_check(
    ctx: Transfer,
    token: TokenAccount,
    destination: TokenAccount,
    amount: u64,
) -> Result<(), OperationError> {
    if token.mint != ctx.mint_info.key || destination.mint != ctx.mint_info.key {
        Err(custom(MetadataError::MintMismatch))
    } else if token.owner != ctx.token_owner_info.key || destination.owner
        != ctx.destination_owner_info.key {
        Err(custom(MetadataError::InvalidOwner))
    } else if token.amount < amount {
        Err(custom(MetadataError::InsufficientTokenBalance))
    } else {
        Ok(())
    }
}

/// The authority under which the requester transfers: `Holder` if they hold
/// the asset, else `TokenDelegate` if they are its sale or transfer delegate,
/// else none.
pub open spec fn transfer_authority(
    ids: &ProgramIds,
    ctx: Transfer,
    readings: &Readings,
    token: TokenAccount,
) -> Option<AuthorityType> {
    let record = presented_token_record(ids, readings.token_record, ctx.token_record_info);
    if token.owner == ctx.authority_info.key && token.mint == ctx.mint_info.key && token.amount
        > 0 {
        Some(AuthorityType::Holder)
    } else if record matches Some(r) && r.delegate == Some(ctx.authority_info.key) && (
    r.delegate_role == Some(TokenDelegateRole::Sale) || r.delegate_role == Some(
        TokenDelegateRole::Transfer,
    )) {
        Some(AuthorityType::TokenDelegate)
    } else {
        None
    }
}

/// The ledger moves the tokens.
pub open spec fn spec_ledger_transfer(ctx: Transfer, amount: u64) -> Effect {
    Effect::Ledger(
        LedgerAction::Transfer {
            source: ctx.token_info.key,
            destination: ctx.destination_info.key,
            authority: ctx.authority_info.key,
            amount,
        },
    )
}

/// What transferring a programmable asset does.
///
/// The token record of the source has to be there. A holder transfers an
/// unlocked token only, else `IncorrectTokenState`; a delegate transfers the
/// token that is locked or listed for them, and is used up by it. The rule
/// set that the asset names has to be among the accounts. Then, in this
/// order: a frozen source is thawed; the policy engine is asked; the ledger
/// moves the token; the source record loses its delegate and is unlocked;
/// the destination gets a fresh, unlocked record at its derived address.
/// No delegate is left, so nothing is frozen again.
pub open spec fn transfer_programmable_plan(
    ids: &ProgramIds,
    ctx: Transfer,
    readings: &Readings,
    metadata: Metadata,
    token: TokenAccount,
    authority: AuthorityType,
    amount: u64,
) -> Plan {
    let found = required_token_record(ids, readings.token_record, ctx.token_record_info);
    let edition = required_master_edition(ids, readings.master_edition, ctx.edition_info);
    let target = readings.destination_record;
    let rule_set = governing_rule_set(
        TokenStandard::ProgrammableNonFungible,
        metadata.programmable_config,
    );
    if found is Err {
        Err(found->Err_0)
    } else if authority == AuthorityType::Holder && found->Ok_0.is_locked() {
        Err(custom(MetadataError::IncorrectTokenState))
    } else if edition is Err {
        Err(edition->Err_0)
    } else if !rule_set_presented(rule_set, ctx.authorization_rules_info) {
        Err(custom(MetadataError::KeyMismatch))
    } else {
        match target {
            None => Err(custom(MetadataError::DerivedKeyInvalid)),
            Some((account, bump)) => Ok(
                spec_thaw_if(
                    token.is_frozen(),
                    ctx.mint_info.key,
                    ctx.token_info.key,
                    edition->Ok_0,
                ) + spec_authorize(
                    rule_set,
                    Operation::Transfer,
                    ctx.mint_info.key,
                    ctx.authority_info.key,
                ) + seq![
                    spec_ledger_transfer(ctx, amount),
                    Effect::WriteTokenRecord {
                        account: ctx.token_record_info->0.key,
                        record: found->Ok_0.without_delegate(),
                    },
                    Effect::CreateTokenRecord {
                        account,
                        payer: ctx.payer_info.key,
                        mint: ctx.mint_info.key,
                        token: ctx.destination_info.key,
                        record: (TokenRecord {
                            key: crate::state::Key::TokenRecord,
                            bump,
                            state: crate::state::TokenState::Unlocked,
                            rule_set_revision: None,
                            delegate: None,
                            delegate_role: None,
                        }),
                    },
                ],
            ),
        }
    }
}

/// What transferring `amount` tokens does.
///
/// After the checks on the accounts, the metadata has to be that of the
/// mint, and the two token accounts are read. The requester has to hold the
/// asset or be its sale or transfer delegate, else `InvalidAuthorityType`:
/// nothing else about the request is looked at before. Then the two token
/// accounts are checked: in particular a transfer of more than the source
/// holds fails with `InsufficientTokenBalance`. Of a non-fungible asset
/// exactly one token is transferred. A programmable asset is transferred as
/// `transfer_programmable_plan` says; for any other the ledger moves the
/// tokens and that is all.
pub open spec fn transfer_v1_plan(
    program_id: Pubkey,
    ids: &ProgramIds,
    ctx: Transfer,
    readings: &Readings,
    amount: u64,
) -> Plan {
    if transfer_accounts_check(program_id, ids, ctx) is Err {
        Err(transfer_accounts_check(program_id, ids, ctx)->Err_0)
    } else if spec_metadata_from_account_info(ctx.metadata_info) is Err {
        Err(spec_metadata_from_account_info(ctx.metadata_info)->Err_0)
    } else if spec_metadata_from_account_info(ctx.metadata_info)->Ok_0.mint != ctx.mint_info.key {
        Err(custom(MetadataError::MintMismatch))
    } else if initialized(readings.token) is Err {
        Err(initialized(readings.token)->Err_0)
    } else if initialized(readings.destination) is Err {
        Err(initialized(readings.destination)->Err_0)
    } else {
        let metadata = spec_metadata_from_account_info(ctx.metadata_info)->Ok_0;
        let token = initialized(readings.token)->Ok_0;
        let destination = initialized(readings.destination)->Ok_0;
        let standard = settled_token_standard(metadata.token_standard, readings, ctx.edition_info);
        if transfer_authority(ids, ctx, readings, token) is None {
            Err(custom(MetadataError::InvalidAuthorityType))
        } else if transfer_tokens_check(ctx, token, destination, amount) is Err {
            Err(transfer_tokens_check(ctx, token, destination, amount)->Err_0)
        } else if standard is Err {
            Err(standard->Err_0)
        } else if standard->Ok_0.is_non_fungible() && amount != 1 {
            Err(custom(MetadataError::InvalidAmount))
        } else if standard->Ok_0 == TokenStandard::ProgrammableNonFungible {
            transfer_programmable_plan(
                ids,
                ctx,
                readings,
                metadata,
                token,
                transfer_authority(ids, ctx, readings, token)->0,
                amount,
            )
        } else {
            Ok(seq![spec_ledger_transfer(ctx, amount)])
        }
    }
}

/// The question that a transfer puts to the resolver.
pub open spec fn transfer_request_matches(
    request: &AuthorityRequest,
    ids: &ProgramIds,
    ctx: Transfer,
    readings: &Readings,
    metadata: Metadata,
    token: TokenAccount,
) -> bool {
    &&& request.precedence@ == seq![AuthorityType::Holder, AuthorityType::TokenDelegate]
    &&& request.authority == ctx.authority_info.key
    &&& request.update_authority == metadata.update_authority
    &&& request.mint == ctx.mint_info.key
    &&& request.token_account == Some(token)
    &&& request.token_record == presented_token_record(
        ids,
        readings.token_record,
        ctx.token_record_info,
    )
    &&& request.token_delegate_roles@ == seq![TokenDelegateRole::Sale, TokenDelegateRole::Transfer]
}

/// The resolver places the requester of a transfer as `transfer_authority`
/// says.
pub proof fn lemma_transfer_authority(
    request: &AuthorityRequest,
    ids: &ProgramIds,
    ctx: Transfer,
    readings: &Readings,
    metadata: Metadata,
    token: TokenAccount,
)
    requires
        transfer_request_matches(request, ids, ctx, readings, metadata, token),
    ensures
        request.first_holding(request.precedence@) == transfer_authority(
            ids,
            ctx,
            readings,
            token,
        ),
{
    let p = request.precedence@;
    assert(p.drop_first() =~= seq![AuthorityType::TokenDelegate]);
    assert(p.drop_first().drop_first() =~= Seq::<AuthorityType>::empty());
    reveal_with_fuel(AuthorityRequest::first_holding, 3);
    let roles = request.token_delegate_roles@;
    assert(roles[0] == TokenDelegateRole::Sale);
    assert(roles[1] == TokenDelegateRole::Transfer);
    assert(forall|role: TokenDelegateRole|
        roles.contains(role) <==> (role == TokenDelegateRole::Sale || role
            == TokenDelegateRole::Transfer));
}

/// Decides the transfer of `amount` tokens of an asset, given what was read
/// of its mint and of the two token accounts.
pub fn transfer_v1(
    program_id: &Pubkey,
    ids: &ProgramIds,
    ctx: Context<Transfer>,
    readings: &Readings,
    amount: u64,
) -> (r: Result<Vec<Effect>, OperationError>)
    ensures
        is_plan(r, transfer_v1_plan(*program_id, ids, ctx.accounts, readings, amount)),
{
    // signers
    assert_signer(ctx.accounts.authority_info)?;
    assert_signer(ctx.accounts.payer_info)?;

    // ownership
    assert_owned_by(ctx.accounts.metadata_info, program_id)?;
    assert_owned_by(ctx.accounts.mint_info, &ids.spl_token)?;
    assert_owned_by(ctx.accounts.token_info, &ids.spl_token)?;
    assert_owned_by(ctx.accounts.destination_info, &ids.spl_token)?;

    // program ids
    if ctx.accounts.spl_token_program_info.key != ids.spl_token {
        return Err(OperationError::IncorrectProgramId);
    }
    if ctx.accounts.system_program_info.key != ids.system_program {
        return Err(OperationError::IncorrectProgramId);
    }
    if ctx.accounts.sysvar_instructions_info.key != ids.sysvar_instructions {
        return Err(OperationError::IncorrectProgramId);
    }
    // account relationships

    let metadata = Metadata::from_account_info(ctx.accounts.metadata_info)?;
    if metadata.mint != ctx.accounts.mint_info.key {
        return Err(OperationError::Custom(MetadataError::MintMismatch));
    }
    let token = assert_initialized(readings.token)?;
    let destination = assert_initialized(readings.destination)?;
    // authority

    let precedence = vec![AuthorityType::Holder, AuthorityType::TokenDelegate];
    assert(precedence@ =~= seq![AuthorityType::Holder, AuthorityType::TokenDelegate]);
    let mut request = AuthorityRequest::new(
        ctx.accounts.authority_info.key,
        metadata.update_authority,
        ctx.accounts.mint_info.key,
        precedence,
    );
    request.token_account = Some(token);
    request.token_record =
    read_presented_token_record(ids, readings.token_record, ctx.accounts.token_record_info);
    request.token_delegate_roles = vec![TokenDelegateRole::Sale, TokenDelegateRole::Transfer];
    proof {
        assert(request.token_delegate_roles@ =~= seq![
            TokenDelegateRole::Sale,
            TokenDelegateRole::Transfer,
        ]);
        lemma_transfer_authority(&request, ids, ctx.accounts, readings, *metadata, token);
    }
    let authority_response = AuthorityType::get_authority_type(&request)?;

    if token.mint != ctx.accounts.mint_info.key || destination.mint != ctx.accounts.mint_info.key {
        return Err(OperationError::Custom(MetadataError::MintMismatch));
    }
    if token.owner != ctx.accounts.token_owner_info.key || destination.owner
        != ctx.accounts.destination_owner_info.key {
        return Err(OperationError::Custom(MetadataError::InvalidOwner));
    }
    // the source has to hold what is moved

    if token.amount < amount {
        return Err(OperationError::Custom(MetadataError::InsufficientTokenBalance));
    }
    let token_standard = settle_token_standard(
        metadata.token_standard,
        readings,
        ctx.accounts.edition_info,
    )?;
    if token_standard.is_non_fungible() && amount != 1 {
        return Err(OperationError::Custom(MetadataError::InvalidAmount));
    }
    let transfer = Effect::Ledger(
        LedgerAction::Transfer {
            source: ctx.accounts.token_info.key,
            destination: ctx.accounts.destination_info.key,
            authority: ctx.accounts.authority_info.key,
            amount,
        },
    );
    let mut effects: Vec<Effect> = Vec::new();
    if token_standard == TokenStandard::ProgrammableNonFungible {
        let mut token_record = read_required_token_record(
            ids,
            readings.token_record,
            ctx.accounts.token_record_info,
        )?;
        if authority_response.authority_type == AuthorityType::Holder
            && token_record.is_locked() {
            return Err(OperationError::Custom(MetadataError::IncorrectTokenState));
        }
        let edition_info = read_required_master_edition(
            ids,
            readings.master_edition,
            ctx.accounts.edition_info,
        )?;
        let rule_set = find_rule_set(
            token_standard,
            metadata.programmable_config,
            ctx.accounts.authorization_rules_info,
        )?;
        let (target, bump) = match readings.destination_record {
            Some(found) => found,
            None => {
                return Err(OperationError::Custom(MetadataError::DerivedKeyInvalid));
            },
        };
        thaw(
            &mut effects,
            token.is_frozen(),
            ctx.accounts.mint_info,
            ctx.accounts.token_info,
            edition_info,
        );
        authorize(
            &mut effects,
            rule_set,
            Operation::Transfer,
            ctx.accounts.mint_info,
            ctx.accounts.authority_info,
        );
        effects.push(transfer);
        token_record.clear_delegate();
        effects.push(
            Effect::WriteTokenRecord {
                account: ctx.accounts.token_record_info.unwrap().key,
                record: token_record,
            },
        );
        effects.push(
            Effect::CreateTokenRecord {
                account: target,
                payer: ctx.accounts.payer_info.key,
                mint: ctx.accounts.mint_info.key,
                token: ctx.accounts.destination_info.key,
                record: TokenRecord::new(bump),
            },
        );
        assert(effects@ =~= transfer_programmable_plan(
            ids,
            ctx.accounts,
            readings,
            *metadata,
            token,
            authority_response.authority_type,
            amount,
        )->Ok_0);
        Ok(effects)
    } else {
        effects.push(transfer);
        assert(effects@ =~= seq![spec_ledger_transfer(ctx.accounts, amount)]);
        Ok(effects)
    }
}

} // verus!
