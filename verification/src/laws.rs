use crate::account::{
    spec_metadata_from_account_info, spec_token_record_from_account_info, AccountData,
};
use crate::assertions::{custom, initialized, unpacked};
use crate::authority::{AuthorityRequest, AuthorityResponse, AuthorityType};
use crate::edition::{spec_marker_index, spec_marker_mask, spec_marker_offset};
use crate::error::{MetadataError, OperationError};
use crate::ids::ProgramIds;
use crate::instruction::metadata::UpdateArgs;
use crate::instruction::{Burn, Delegate, Transfer};
use crate::ledger::{frozen_after, TokenAccount};
use crate::processor::burn::{
    burn_accounts_check, burn_authority, burn_programmable_plan, burn_token_check, burn_v1_plan,
};
use crate::processor::delegate::{
    approver_holds, metadata_delegate_accounts_check, metadata_delegate_plan,
    persistent_delegate_accounts_check, persistent_delegate_plan, programmable_delegate_plan,
};
use crate::processor::revoke::{
    may_revoke, may_revoke_metadata, metadata_revoke_plan, persistent_revoke_plan,
    programmable_revoke_plan,
};
use crate::processor::transfer::{
    transfer_accounts_check, transfer_authority, transfer_programmable_plan, transfer_v1_plan,
};
use crate::processor::{
    governing_rule_set, ledger_actions, presented_token_record, required_master_edition,
    required_token_record, rule_set_presented, token_record_after, Effect, Readings,
};
use crate::pubkey::Pubkey;
use crate::state::{
    EditionMarker, Metadata, MetadataDelegateRole, TokenDelegateRole, TokenRecord, TokenStandard,
    TokenState,
};
use vstd::prelude::*;

verus! {

/// A requester who satisfies the test of no category of the precedence list
/// is refused with `InvalidAuthorityType`, whatever the list.
pub proof fn law_no_authority_is_refused(request: AuthorityRequest)
    requires
        forall|i: int|
            0 <= i < request.precedence@.len() ==> !request.holds(
                #[trigger] request.precedence@[i],
            ),
    ensures
        request.resolve() == Err::<AuthorityResponse, OperationError>(
            custom(MetadataError::InvalidAuthorityType),
        ),
{
    request.lemma_first_holding(request.precedence@);
}

/// The resolver answers with the first category of the list that holds: a
/// category that comes earlier in the list and holds is never passed over.
pub proof fn law_precedence_decides(request: AuthorityRequest, i: int)
    requires
        0 <= i < request.precedence@.len(),
        request.holds(request.precedence@[i]),
        forall|j: int| 0 <= j < i ==> !request.holds(#[trigger] request.precedence@[j]),
    ensures
        request.resolve() == Ok::<AuthorityResponse, OperationError>(
            request.response(request.precedence@[i]),
        ),
{
    request.lemma_first_holding(request.precedence@);
    let p = request.precedence@;
    let found = request.first_holding(p);
    assert(found is Some);
    let k = choose|k: int|
        0 <= k < p.len() && #[trigger] p[k] == found->0 && request.holds(found->0) && forall|
            j: int,
        |
            0 <= j < k ==> !request.holds(#[trigger] p[j]);
    if k < i {
        assert(!request.holds(p[k]));
    } else if i < k {
        assert(!request.holds(p[i]));
    }
}

/// A burn by a requester who neither holds the asset nor is its utility
/// delegate fails with `InvalidAuthorityType`, and so changes nothing.
pub proof fn law_burn_needs_authority(
    program_id: Pubkey,
    ids: &ProgramIds,
    ctx: Burn,
    readings: &Readings,
    amount: u64,
)
    requires
        burn_accounts_check(program_id, ids, ctx) is Ok,
        spec_metadata_from_account_info(ctx.metadata_info) is Ok,
        initialized(readings.token) is Ok,
        burn_authority(ids, ctx, readings, initialized(readings.token)->Ok_0) is None,
    ensures
        burn_v1_plan(program_id, ids, ctx, readings, amount) == Err::<Seq<Effect>, OperationError>(
            custom(MetadataError::InvalidAuthorityType),
        ),
{
}

/// A transfer by a requester who neither holds the asset nor is its sale or
/// transfer delegate fails with `InvalidAuthorityType`, whatever the amount,
/// and so changes nothing.
pub proof fn law_transfer_needs_authority(
    program_id: Pubkey,
    ids: &ProgramIds,
    ctx: Transfer,
    readings: &Readings,
    amount: u64,
)
    requires
        transfer_accounts_check(program_id, ids, ctx) is Ok,
        spec_metadata_from_account_info(ctx.metadata_info) is Ok,
        spec_metadata_from_account_info(ctx.metadata_info)->Ok_0.mint == ctx.mint_info.key,
        initialized(readings.token) is Ok,
        initialized(readings.destination) is Ok,
        transfer_authority(ids, ctx, readings, initialized(readings.token)->Ok_0) is None,
    ensures
        transfer_v1_plan(program_id, ids, ctx, readings, amount) == Err::<
            Seq<Effect>,
            OperationError,
        >(
            custom(MetadataError::InvalidAuthorityType),
        ),
{
}

/// A token delegation by an approver who does not hold the asset fails with
/// `InvalidAuthorityType`, whatever the role and the standard, and so
/// changes nothing.
pub proof fn law_token_delegate_needs_the_holder(
    program_id: Pubkey,
    ids: &ProgramIds,
    ctx: Delegate,
    readings: &Readings,
    role: TokenDelegateRole,
    amount: u64,
)
    requires
        persistent_delegate_accounts_check(program_id, ids, ctx) is Ok,
        spec_metadata_from_account_info(ctx.metadata_info) is Ok,
        spec_metadata_from_account_info(ctx.metadata_info)->Ok_0.mint == ctx.mint_info.key,
        unpacked(readings.token) is Ok,
        !approver_holds(ctx, unpacked(readings.token)->Ok_0),
    ensures
        persistent_delegate_plan(program_id, ids, ctx, readings, role, amount) == Err::<
            Seq<Effect>,
            OperationError,
        >(custom(MetadataError::InvalidAuthorityType)),
{
}

/// A metadata delegation by an approver who is not the update authority of
/// the asset fails with `InvalidAuthorityType`, whatever the role, and so
/// creates no record.
pub proof fn law_metadata_delegate_needs_the_update_authority(
    program_id: Pubkey,
    ids: &ProgramIds,
    ctx: Delegate,
    readings: &Readings,
    role: MetadataDelegateRole,
)
    requires
        metadata_delegate_accounts_check(program_id, ids, ctx) is Ok,
        spec_metadata_from_account_info(ctx.metadata_info) is Ok,
        ctx.approver_info.key != spec_metadata_from_account_info(
            ctx.metadata_info,
        )->Ok_0.update_authority,
    ensures
        metadata_delegate_plan(program_id, ids, ctx, readings, role) == Err::<
            Seq<Effect>,
            OperationError,
        >(custom(MetadataError::InvalidAuthorityType)),
{
}

/// A revocation of a token delegate by one who is neither the holder, nor
/// the delegate, nor the update authority fails with `InvalidAuthorityType`,
/// whatever the role and the standard, and so changes nothing.
pub proof fn law_token_revoke_needs_authority(
    program_id: Pubkey,
    ids: &ProgramIds,
    ctx: Delegate,
    readings: &Readings,
    role: TokenDelegateRole,
)
    requires
        persistent_delegate_accounts_check(program_id, ids, ctx) is Ok,
        spec_metadata_from_account_info(ctx.metadata_info) is Ok,
        spec_metadata_from_account_info(ctx.metadata_info)->Ok_0.mint == ctx.mint_info.key,
        unpacked(readings.token) is Ok,
        !may_revoke(
            ctx,
            spec_metadata_from_account_info(ctx.metadata_info)->Ok_0,
            unpacked(readings.token)->Ok_0,
            presented_token_record(ids, readings.token_record, ctx.token_record_info),
            role,
        ),
    ensures
        persistent_revoke_plan(program_id, ids, ctx, readings, role) == Err::<
            Seq<Effect>,
            OperationError,
        >(custom(MetadataError::InvalidAuthorityType)),
{
}

/// A revocation of a metadata delegate by one who is neither the update
/// authority nor the delegate fails with `InvalidAuthorityType`, whatever
/// the role, and so destroys no record.
pub proof fn law_metadata_revoke_needs_authority(
    program_id: Pubkey,
    ids: &ProgramIds,
    ctx: Delegate,
    readings: &Readings,
    role: MetadataDelegateRole,
)
    requires
        metadata_delegate_accounts_check(program_id, ids, ctx) is Ok,
        spec_metadata_from_account_info(ctx.metadata_info) is Ok,
        spec_metadata_from_account_info(ctx.metadata_info)->Ok_0.mint == ctx.mint_info.key,
        !may_revoke_metadata(
            program_id,
            ctx,
            readings,
            spec_metadata_from_account_info(ctx.metadata_info)->Ok_0,
        ),
    ensures
        metadata_revoke_plan(program_id, ids, ctx, readings, role) == Err::<
            Seq<Effect>,
            OperationError,
        >(custom(MetadataError::InvalidAuthorityType)),
{
}

/// A well-formed token record has at most one delegate, which has exactly
/// one role; and the token is locked or listed exactly if it has a delegate.
pub proof fn law_token_record_invariant(record: TokenRecord)
    requires
        record.wf(),
    ensures
        record.delegate is Some <==> record.delegate_role is Some,
        (record.state == TokenState::Locked || record.state == TokenState::Listed)
            <==> record.delegate is Some,
        record.state == TokenState::Unlocked <==> record.delegate is None,
        record.state == TokenState::Listed <==> record.delegate_role == Some(
            TokenDelegateRole::Sale,
        ),
{
}

/// Setting and removing a delegate keep a token record well formed, and the
/// delegate that is set is the only one: it replaces the one before.
pub proof fn law_token_record_stays_well_formed(
    record: TokenRecord,
    delegate: Pubkey,
    role: TokenDelegateRole,
)
    requires
        record.wf(),
    ensures
        record.with_delegate(delegate, role).wf(),
        record.with_delegate(delegate, role).delegate == Some(delegate),
        record.with_delegate(delegate, role).delegate_role == Some(role),
        record.without_delegate().wf(),
        record.without_delegate().state == TokenState::Unlocked,
{
}

/// Every token record that a delegation, a revocation or a transfer writes
/// is well formed.
pub proof fn law_plans_write_well_formed_records(
    program_id: Pubkey,
    ids: &ProgramIds,
    delegation: Delegate,
    transfer: Transfer,
    readings: &Readings,
    role: TokenDelegateRole,
    amount: u64,
)
    ensures
        persistent_delegate_plan(program_id, ids, delegation, readings, role, amount) matches Ok(
            effects,
        ) ==> writes_well_formed(effects),
        persistent_revoke_plan(program_id, ids, delegation, readings, role) matches Ok(effects)
            ==> writes_well_formed(effects),
        transfer_v1_plan(program_id, ids, transfer, readings, amount) matches Ok(effects)
            ==> writes_well_formed(effects),
{
}

/// Each token record that the effects write or create is well formed.
pub open spec fn writes_well_formed(effects: Seq<Effect>) -> bool {
    forall|i: int|
        0 <= i < effects.len() ==> match #[trigger] effects[i] {
            Effect::WriteTokenRecord { record, .. } => record.wf(),
            Effect::CreateTokenRecord { record, .. } => record.wf(),
            _ => true,
        }
}

/// While a sale delegate is set on the token of a programmable asset, no
/// delegate of any role can be created: the delegation fails with
/// `DelegateAlreadyExists`.
pub proof fn law_sale_delegate_blocks(
    ids: &ProgramIds,
    ctx: Delegate,
    readings: &Readings,
    rule_set: Option<Pubkey>,
    token: TokenAccount,
    role: TokenDelegateRole,
    amount: u64,
)
    requires
        required_token_record(ids, readings.token_record, ctx.token_record_info) is Ok,
        required_token_record(
            ids,
            readings.token_record,
            ctx.token_record_info,
        )->Ok_0.delegate_role == Some(TokenDelegateRole::Sale),
    ensures
        programmable_delegate_plan(ids, ctx, readings, rule_set, token, role, amount) == Err::<
            Seq<Effect>,
            OperationError,
        >(custom(MetadataError::DelegateAlreadyExists)),
{
}

/// Once the sale delegate is revoked, a delegate can be created again.
///
/// `before` are the accounts of a revocation that succeeds, `after` the same
/// accounts once the token record that the revocation writes is stored: a
/// delegation of any role then gets past the token record and succeeds, and
/// the record it writes names the new delegate.
pub proof fn law_revoked_sale_delegate_makes_room(
    ids: &ProgramIds,
    before: Delegate,
    after: Delegate,
    readings: &Readings,
    rule_set: Option<Pubkey>,
    token: TokenAccount,
    role: TokenDelegateRole,
    amount: u64,
)
    requires
        programmable_revoke_plan(ids, before, readings, token, TokenDelegateRole::Sale)
            is Ok,
        after.token_record_info is Some,
        after.token_record_info->0.key == before.token_record_info->0.key,
        after.token_record_info->0.owner == before.token_record_info->0.owner,
        after.token_record_info->0.data == AccountData::TokenRecord(
            token_record_after(
                programmable_revoke_plan(
                    ids,
                    before,
                    readings,
                    token,
                    TokenDelegateRole::Sale,
                )->Ok_0,
                before.token_record_info->0.key,
                None,
            )->0,
        ),
        after.mint_info == before.mint_info,
        after.token_info == before.token_info,
        after.master_edition_info == before.master_edition_info,
        rule_set_presented(rule_set, after.authorization_rules_info),
    ensures
        programmable_delegate_plan(ids, after, readings, rule_set, token, role, amount) matches Ok(
            effects,
        ) && token_record_after(effects, after.token_record_info->0.key, None) matches Some(
            record,
        ) && record.delegate == Some(after.delegate_info.key) && record.delegate_role == Some(
            role,
        ),
{
    let revoked = programmable_revoke_plan(
        ids,
        before,
        readings,
        token,
        TokenDelegateRole::Sale,
    )->Ok_0;
    let found = required_token_record(ids, readings.token_record, before.token_record_info)->Ok_0;
    let account = before.token_record_info->0.key;
    lemma_revoke_leaves_record(ids, before, readings, token, TokenDelegateRole::Sale);
    assert(token_record_after(revoked, account, None) == Some(found.without_delegate()));
    assert(found.without_delegate().wf());
    assert(spec_token_record_from_account_info(after.token_record_info->0) == Ok::<
        TokenRecord,
        OperationError,
    >(found.without_delegate()));
    assert(required_token_record(ids, readings.token_record, after.token_record_info) == Ok::<
        TokenRecord,
        OperationError,
    >(found.without_delegate()));
    lemma_delegate_leaves_record(ids, after, readings, rule_set, token, role, amount);
}

/// The token record that a successful revocation leaves is the record it
/// found, without its delegate; and the token account is left thawed.
pub proof fn lemma_revoke_leaves_record(
    ids: &ProgramIds,
    ctx: Delegate,
    readings: &Readings,
    token: TokenAccount,
    role: TokenDelegateRole,
)
    requires
        programmable_revoke_plan(ids, ctx, readings, token, role) is Ok,
    ensures
        ({
            let effects = programmable_revoke_plan(
                ids,
                ctx,
                readings,
                token,
                role,
            )->Ok_0;
            let found = required_token_record(
                ids,
                readings.token_record,
                ctx.token_record_info,
            )->Ok_0;
            &&& token_record_after(effects, ctx.token_record_info->0.key, None) == Some(
                found.without_delegate(),
            )
            &&& !frozen_after(ledger_actions(effects), token.is_frozen())
        }),
{
    let effects = programmable_revoke_plan(ids, ctx, readings, token, role)->Ok_0;
    let account = ctx.token_record_info->0.key;
    if token.is_frozen() {
        assert(effects.len() == 3);
        assert(effects.drop_last().len() == 2);
        assert(effects.drop_last().drop_last().len() == 1);
        reveal_with_fuel(token_record_after, 4);
        reveal_with_fuel(ledger_actions, 4);
        assert(effects.drop_last().drop_last().drop_last().len() == 0);
        let actions = ledger_actions(effects);
        assert(actions.len() == 2);
        assert(actions.drop_last().len() == 1);
        reveal_with_fuel(frozen_after, 3);
    } else {
        assert(effects.len() == 2);
        assert(effects.drop_last().len() == 1);
        reveal_with_fuel(token_record_after, 3);
        reveal_with_fuel(ledger_actions, 3);
        assert(effects.drop_last().drop_last().len() == 0);
        let actions = ledger_actions(effects);
        assert(actions.len() == 1);
        assert(actions.drop_last().len() == 0);
        reveal_with_fuel(frozen_after, 3);
    }
}

/// The token record that a successful delegation leaves is the record it
/// found, with the new delegate; and the token account is left frozen.
pub proof fn lemma_delegate_leaves_record(
    ids: &ProgramIds,
    ctx: Delegate,
    readings: &Readings,
    rule_set: Option<Pubkey>,
    token: TokenAccount,
    role: TokenDelegateRole,
    amount: u64,
)
    requires
        required_token_record(ids, readings.token_record, ctx.token_record_info) is Ok,
        !required_token_record(
            ids,
            readings.token_record,
            ctx.token_record_info,
        )->Ok_0.blocks_new_delegate(),
        required_master_edition(ids, readings.master_edition, ctx.master_edition_info) is Ok,
        rule_set_presented(rule_set, ctx.authorization_rules_info),
    ensures
        programmable_delegate_plan(ids, ctx, readings, rule_set, token, role, amount) matches Ok(
            effects,
        ) && ({
            &&& token_record_after(effects, ctx.token_record_info->0.key, None) == Some(
                required_token_record(
                    ids,
                    readings.token_record,
                    ctx.token_record_info,
                )->Ok_0.with_delegate(ctx.delegate_info.key, role),
            )
            &&& frozen_after(ledger_actions(effects), token.is_frozen())
        }),
{
    let effects = programmable_delegate_plan(
        ids,
        ctx,
        readings,
        rule_set,
        token,
        role,
        amount,
    )->Ok_0;
    let written = Effect::WriteTokenRecord {
        account: ctx.token_record_info->0.key,
        record: required_token_record(
            ids,
            readings.token_record,
            ctx.token_record_info,
        )->Ok_0.with_delegate(ctx.delegate_info.key, role),
    };
    let asked: int = if rule_set is Some {
        1
    } else {
        0
    };
    let thawed: int = if token.is_frozen() {
        1
    } else {
        0
    };
    assert(effects.len() == asked + thawed + 3);
    assert(effects[asked] == written);
    assert(effects.last() is Ledger);
    assert(effects.last()->Ledger_0 is Freeze);
    lemma_last_write(effects, asked, ctx.token_record_info->0.key, None);
    reveal_with_fuel(ledger_actions, 2);
}

/// The token record that effects leave in an account is the one that the
/// write at `at` stores, if no effect after it touches a token record or
/// closes an account.
pub proof fn lemma_last_write(
    effects: Seq<Effect>,
    at: int,
    account: Pubkey,
    before: Option<TokenRecord>,
)
    requires
        0 <= at < effects.len(),
        effects[at] matches Effect::WriteTokenRecord { account: a, .. } && a == account,
        forall|i: int| at < i < effects.len() ==> #[trigger] effects[i] is Ledger,
    ensures
        token_record_after(effects, account, before) == Some(
            effects[at]->WriteTokenRecord_record,
        ),
    decreases effects.len(),
{
    if at == effects.len() - 1 {
    } else {
        assert(effects.last() is Ledger);
        let rest = effects.drop_last();
        assert(rest[at] == effects[at]);
        assert forall|i: int| at < i < rest.len() implies #[trigger] rest[i] is Ledger by {
            assert(rest[i] == effects[i]);
        }
        lemma_last_write(rest, at, account, before);
    }
}

/// The token account of a programmable asset is frozen exactly while its
/// token is locked or listed: a delegation leaves the token locked or listed
/// and the account frozen; a revocation leaves the token unlocked and the
/// account thawed.
pub proof fn law_frozen_mirrors_state(
    ids: &ProgramIds,
    ctx: Delegate,
    readings: &Readings,
    rule_set: Option<Pubkey>,
    token: TokenAccount,
    role: TokenDelegateRole,
    amount: u64,
)
    ensures
        programmable_delegate_plan(ids, ctx, readings, rule_set, token, role, amount) matches Ok(
            effects,
        ) ==> {
            &&& token_record_after(effects, ctx.token_record_info->0.key, None) matches Some(
                record,
            )
            &&& record.is_locked()
            &&& frozen_after(ledger_actions(effects), token.is_frozen())
        },
        programmable_revoke_plan(ids, ctx, readings, token, role) matches Ok(effects)
            ==> {
            &&& token_record_after(effects, ctx.token_record_info->0.key, None) matches Some(
                record,
            )
            &&& !record.is_locked()
            &&& !frozen_after(ledger_actions(effects), token.is_frozen())
        },
{
    if programmable_delegate_plan(ids, ctx, readings, rule_set, token, role, amount) is Ok {
        lemma_delegate_leaves_record(ids, ctx, readings, rule_set, token, role, amount);
    }
    if programmable_revoke_plan(ids, ctx, readings, token, role) is Ok {
        lemma_revoke_leaves_record(ids, ctx, readings, token, role);
    }
}

/// A transfer of a programmable asset uses up the delegate: it leaves the
/// token of the source unlocked and its token account thawed, whoever
/// transferred.
pub proof fn law_transfer_unlocks(
    ids: &ProgramIds,
    ctx: Transfer,
    readings: &Readings,
    metadata: Metadata,
    token: TokenAccount,
    authority: AuthorityType,
    amount: u64,
)
    ensures
        transfer_programmable_plan(ids, ctx, readings, metadata, token, authority, amount)
            matches Ok(effects) ==> {
            &&& token_record_after(effects, ctx.token_record_info->0.key, None) matches Some(
                record,
            )
            &&& record.wf()
            &&& !record.is_locked()
            &&& !frozen_after(ledger_actions(effects), token.is_frozen())
        },
{
    let plan = transfer_programmable_plan(ids, ctx, readings, metadata, token, authority, amount);
    if plan is Ok {
        let effects = plan->Ok_0;
        let n = effects.len() as int;
        let account = ctx.token_record_info->0.key;
        assert(effects[n - 1] is CreateTokenRecord);
        assert(effects[n - 2] is WriteTokenRecord);
        assert(effects[n - 3] is Ledger && effects[n - 3]->Ledger_0 is Transfer);
        let rest = effects.drop_last();
        assert(rest.last() == effects[n - 2]);
        reveal_with_fuel(token_record_after, 3);
        // the ledger is asked for the transfer last, and for a thaw before it at most
        let moved = rest.drop_last();
        assert(moved.last() == effects[n - 3]);
        assert(ledger_actions(effects) == ledger_actions(rest)) by {
            reveal_with_fuel(ledger_actions, 2);
        }
        assert(ledger_actions(rest) == ledger_actions(moved)) by {
            reveal_with_fuel(ledger_actions, 2);
        }
        let before = moved.drop_last();
        assert(ledger_actions(moved) == ledger_actions(before).push(effects[n - 3]->Ledger_0))
            by {
            reveal_with_fuel(ledger_actions, 2);
        }
        if token.is_frozen() {
            assert(before[0] == effects[0] && before[0] is Ledger);
        }
        lemma_thaw_and_question(before, token.is_frozen());
        let actions = ledger_actions(moved);
        assert(actions.drop_last() =~= ledger_actions(before));
        reveal_with_fuel(frozen_after, 3);
    }
}

/// Among effects that hold at most one thaw and one question to the policy
/// engine, the ledger is asked for the thaw alone.
proof fn lemma_thaw_and_question(effects: Seq<Effect>, frozen: bool)
    requires
        effects.len() <= 2,
        forall|i: int|
            0 <= i < effects.len() ==> (#[trigger] effects[i] is Authorize || (effects[i]
                is Ledger && effects[i]->Ledger_0 is Thaw)),
        frozen ==> exists|i: int|
            0 <= i < effects.len() && #[trigger] effects[i] is Ledger,
        !frozen ==> forall|i: int| 0 <= i < effects.len() ==> #[trigger] effects[i] is Authorize,
    ensures
        !frozen_after(ledger_actions(effects), frozen),
{
    reveal_with_fuel(ledger_actions, 3);
    reveal_with_fuel(frozen_after, 3);
    if effects.len() == 2 {
        assert(effects.drop_last().len() == 1);
        assert(effects.drop_last()[0] == effects[0]);
        assert(effects.drop_last().drop_last().len() == 0);
    } else if effects.len() == 1 {
        assert(effects.drop_last().len() == 0);
    }
}

/// A programmable asset whose token is locked or listed cannot be burned:
/// the burn fails with `IncorrectTokenState`.
pub proof fn law_burn_of_locked_token_fails(
    ids: &ProgramIds,
    ctx: Burn,
    readings: &Readings,
    metadata: Metadata,
    token: TokenAccount,
)
    requires
        required_token_record(ids, readings.token_record, ctx.token_record_info) is Ok,
        required_token_record(ids, readings.token_record, ctx.token_record_info)->Ok_0.state
            != TokenState::Unlocked,
    ensures
        burn_programmable_plan(ids, ctx, readings, metadata, token) == Err::<
            Seq<Effect>,
            OperationError,
        >(custom(MetadataError::IncorrectTokenState)),
{
}

/// What has to hold of a burn of one token of a programmable asset for the
/// state of the token to decide: the accounts are in order, the metadata
/// names the standard, the token account is in use, the requester is
/// entitled to burn from it, and the edition and the token record are there.
pub open spec fn burn_reaches_token_state(
    program_id: Pubkey,
    ids: &ProgramIds,
    ctx: Burn,
    readings: &Readings,
) -> bool {
    &&& burn_accounts_check(program_id, ids, ctx) is Ok
    &&& spec_metadata_from_account_info(ctx.metadata_info) is Ok
    &&& spec_metadata_from_account_info(ctx.metadata_info)->Ok_0.token_standard == Some(
        TokenStandard::ProgrammableNonFungible,
    )
    &&& initialized(readings.token) is Ok
    &&& burn_authority(ids, ctx, readings, initialized(readings.token)->Ok_0) is Some
    &&& burn_token_check(
        ctx,
        spec_metadata_from_account_info(ctx.metadata_info)->Ok_0,
        initialized(readings.token)->Ok_0,
        burn_authority(ids, ctx, readings, initialized(readings.token)->Ok_0)->0,
        1,
    ) is Ok
    &&& ctx.edition_info is Some
    &&& required_token_record(ids, readings.token_record, ctx.token_record_info) is Ok
}

/// A burn of a programmable asset whose token is listed fails with
/// `IncorrectTokenState` although the request is in order otherwise.
pub proof fn law_burn_of_listed_asset_fails(
    program_id: Pubkey,
    ids: &ProgramIds,
    ctx: Burn,
    readings: &Readings,
)
    requires
        burn_reaches_token_state(program_id, ids, ctx, readings),
        required_token_record(ids, readings.token_record, ctx.token_record_info)->Ok_0.state
            == TokenState::Listed,
    ensures
        burn_v1_plan(program_id, ids, ctx, readings, 1) == Err::<Seq<Effect>, OperationError>(
            custom(MetadataError::IncorrectTokenState),
        ),
{
}

/// A burn of one token of a programmable asset whose token is unlocked and
/// whose edition is the master edition of the mint succeeds, and the token
/// record is gone afterwards.
pub proof fn law_burn_of_unlocked_asset_succeeds(
    program_id: Pubkey,
    ids: &ProgramIds,
    ctx: Burn,
    readings: &Readings,
)
    requires
        burn_reaches_token_state(program_id, ids, ctx, readings),
        required_token_record(ids, readings.token_record, ctx.token_record_info)->Ok_0.state
            == TokenState::Unlocked,
        required_master_edition(ids, readings.master_edition, ctx.edition_info) is Ok,
        rule_set_presented(
            governing_rule_set(
                TokenStandard::ProgrammableNonFungible,
                spec_metadata_from_account_info(ctx.metadata_info)->Ok_0.programmable_config,
            ),
            ctx.authorization_rules_info,
        ),
    ensures
        burn_v1_plan(program_id, ids, ctx, readings, 1) matches Ok(effects) && token_record_after(
            effects,
            ctx.token_record_info->0.key,
            Some(required_token_record(ids, readings.token_record, ctx.token_record_info)->Ok_0),
        ) is None,
{
    let token = initialized(readings.token)->Ok_0;
    let metadata = spec_metadata_from_account_info(ctx.metadata_info)->Ok_0;
    let effects = burn_programmable_plan(ids, ctx, readings, metadata, token)->Ok_0;
    assert(burn_v1_plan(program_id, ids, ctx, readings, 1) == Ok::<Seq<Effect>, OperationError>(
        effects,
    ));
    assert(effects.last() == (Effect::CloseAccount {
        account: ctx.token_record_info->0.key,
        destination: ctx.authority_info.key,
    }));
}

/// An update whose optional values are all absent and whose toggles all
/// keep is never refused and leaves the metadata exactly as it was.
pub proof fn law_empty_update_changes_nothing(
    metadata: Metadata,
    args: UpdateArgs,
    token_standard: TokenStandard,
)
    requires
        args.changes_nothing(),
    ensures
        metadata.update_error(args) is None,
        metadata.updated(args, token_standard) == metadata,
{
}

/// An update never takes `primary_sale_happened` back to `false` nor
/// `is_mutable` back to `true`: one that asks for it is refused.
pub proof fn law_flags_move_one_way(
    metadata: Metadata,
    args: UpdateArgs,
    token_standard: TokenStandard,
)
    requires
        metadata.update_error(args) is None,
    ensures
        metadata.primary_sale_happened ==> metadata.updated(
            args,
            token_standard,
        ).primary_sale_happened,
        !metadata.is_mutable ==> !metadata.updated(args, token_standard).is_mutable,
{
}

/// A transfer of more tokens than the source holds fails with
/// `InsufficientTokenBalance` for every requester who is entitled to
/// transfer, and so changes the balance on neither side.
pub proof fn law_transfer_beyond_balance_fails(
    program_id: Pubkey,
    ids: &ProgramIds,
    ctx: Transfer,
    readings: &Readings,
    amount: u64,
)
    requires
        transfer_accounts_check(program_id, ids, ctx) is Ok,
        spec_metadata_from_account_info(ctx.metadata_info) is Ok,
        spec_metadata_from_account_info(ctx.metadata_info)->Ok_0.mint == ctx.mint_info.key,
        initialized(readings.token) is Ok,
        initialized(readings.destination) is Ok,
        initialized(readings.token)->Ok_0.mint == ctx.mint_info.key,
        initialized(readings.destination)->Ok_0.mint == ctx.mint_info.key,
        initialized(readings.token)->Ok_0.owner == ctx.token_owner_info.key,
        initialized(readings.destination)->Ok_0.owner == ctx.destination_owner_info.key,
        transfer_authority(ids, ctx, readings, initialized(readings.token)->Ok_0) is Some,
        amount > initialized(readings.token)->Ok_0.amount,
    ensures
        transfer_v1_plan(program_id, ids, ctx, readings, amount) == Err::<
            Seq<Effect>,
            OperationError,
        >(custom(MetadataError::InsufficientTokenBalance)),
{
}

/// Taking a print out of the books clears its bit: the books do not hold it
/// afterwards, and they hold every other print exactly if they held it
/// before.
pub proof fn law_unlinking_forgets_one_print(marker: EditionMarker, edition: u64, other: u64)
    ensures
        !marker.without_edition(edition).edition_taken(edition),
        (spec_marker_offset(other) != spec_marker_offset(edition)) ==> (marker.without_edition(
            edition,
        ).edition_taken(other) <==> marker.edition_taken(other)),
{
    let index = spec_marker_index(edition);
    let mask = spec_marker_mask(edition);
    let byte = marker.ledger@[index];
    let after = marker.without_edition(edition);
    vstd::array::axiom_spec_array_update(marker.ledger, index, byte & !mask);
    assert(after.ledger@[index] == byte & !mask);
    assert((byte & !mask) & mask == 0) by (bit_vector);
    if spec_marker_offset(other) != spec_marker_offset(edition) {
        let j = spec_marker_index(other);
        let m = spec_marker_mask(other);
        if j == index {
            assert(m != mask);
            assert(mask == 0x80 || mask == 0x40 || mask == 0x20 || mask == 0x10 || mask == 0x08
                || mask == 0x04 || mask == 0x02 || mask == 0x01);
            assert(m == 0x80 || m == 0x40 || m == 0x20 || m == 0x10 || m == 0x08 || m == 0x04 || m
                == 0x02 || m == 0x01);
            assert((mask == 0x80 || mask == 0x40 || mask == 0x20 || mask == 0x10 || mask == 0x08
                || mask == 0x04 || mask == 0x02 || mask == 0x01) && (m == 0x80 || m == 0x40 || m
                == 0x20 || m == 0x10 || m == 0x08 || m == 0x04 || m == 0x02 || m == 0x01) && m
                != mask ==> ((byte & !mask) & m == byte & m)) by (bit_vector);
        } else {
            assert(after.ledger@[j] == marker.ledger@[j]);
        }
    }
}

} // verus!
