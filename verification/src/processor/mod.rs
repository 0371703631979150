pub mod burn;
pub mod delegate;
pub mod revoke;
pub mod transfer;
pub mod update;

use crate::account::{spec_token_record_from_account_info, AccountData, AccountInfo};
use crate::assertions::custom;
use crate::error::{MetadataError, OperationError};
use crate::ids::ProgramIds;
use crate::ledger::{ledger_account, ledger_mint, LedgerAction, Mint, TokenAccount};
use crate::pda::{
    check_derived_key, derived_key, find_master_edition_account, find_token_record_account,
    master_edition_seeds, program_address, token_record_seeds,
};
use crate::pubkey::Pubkey;
use crate::state::{
    EditionMarker, Key, MasterEdition, MetadataDelegateRecord, MetadataDelegateRole,
    ProgrammableConfig, TokenRecord, TokenStandard,
};
use vstd::prelude::*;

verus! {

/// One change that an operation makes. An operation that succeeds returns
/// its changes in the order in which they are to be made; it makes none
/// itself, and one that fails returns none.
#[allow(inconsistent_fields)]
#[derive(Clone, Copy, Debug, PartialEq, Eq)]
pub enum Effect {
    /// Store `record` in the token record account.
    WriteTokenRecord { account: Pubkey, record: TokenRecord },
    /// Store `record` in the token record account of `token`, at its derived
    /// address, allocating the account, paid for by `payer`, if it is not
    /// there.
    CreateTokenRecord {
        account: Pubkey,
        payer: Pubkey,
        mint: Pubkey,
        token: Pubkey,
        record: TokenRecord,
    },
    /// Allocate the delegate record account at its derived address, paid for
    /// by `payer`, and store `record` in it.
    CreateDelegateRecord {
        account: Pubkey,
        payer: Pubkey,
        role: MetadataDelegateRole,
        record: MetadataDelegateRecord,
    },
    /// Destroy a record of this program and hand what its account held to
    /// `destination`.
    CloseAccount { account: Pubkey, destination: Pubkey },
    /// Store the master edition, whose supply has changed.
    WriteMasterEdition { account: Pubkey, record: MasterEdition },
    /// Store the edition marker, whose books have changed.
    WriteEditionMarker { account: Pubkey, record: EditionMarker },
    /// Ask the policy engine whether the rule set allows the operation on
    /// the asset of `mint`. A denial ends the invocation with the reason that
    /// the engine gives.
    Authorize { rule_set: Pubkey, operation: Operation, mint: Pubkey, authority: Pubkey },
    /// Ask the token ledger for a change.
    Ledger(LedgerAction),
}

/// The operations that a rule set can allow or deny.
#[derive(Clone, Copy, Debug, PartialEq, Eq, Structural)]
pub enum Operation {
    Burn,
    Delegate,
    Transfer,
    Update,
}

/// What an operation returns, as plain values.
pub type Plan = Result<Seq<Effect>, OperationError>;

/// The result of an operation is the plan `plan`.
pub open spec fn is_plan(r: Result<Vec<Effect>, OperationError>, plan: Plan) -> bool {
    match r {
        Ok(effects) => plan == Ok::<Seq<Effect>, OperationError>(effects@),
        Err(e) => plan == Err::<Seq<Effect>, OperationError>(e),
    }
}

/// The ledger actions among the effects, in their order.
pub open spec fn ledger_actions(effects: Seq<Effect>) -> Seq<LedgerAction>
    decreases effects.len(),
{
    if effects.len() == 0 {
        Seq::empty()
    } else {
        match effects.last() {
            Effect::Ledger(action) => ledger_actions(effects.drop_last()).push(action),
            _ => ledger_actions(effects.drop_last()),
        }
    }
}

/// The token record that the effects leave in `account`, which held `before`:
/// the one written last; none once the account is closed.
pub open spec fn token_record_after(
    effects: Seq<Effect>,
    account: Pubkey,
    before: Option<TokenRecord>,
) -> Option<TokenRecord>
    decreases effects.len(),
{
    if effects.len() == 0 {
        before
    } else {
        match effects.last() {
            Effect::WriteTokenRecord { account: a, record } if a == account => Some(record),
            Effect::CreateTokenRecord { account: a, record, .. } if a == account => Some(record),
            Effect::CloseAccount { account: a, .. } if a == account => None,
            _ => token_record_after(effects.drop_last(), account, before),
        }
    }
}

/// What the token ledger and the runtime say of the accounts of an
/// operation. It is read once, before anything is decided; the decisions are
/// a function of the accounts and of this.
#[derive(Clone, Copy, Debug, PartialEq, Eq)]
pub struct Readings {
    /// The token account that the ledger finds in the token account.
    pub token: Option<TokenAccount>,
    /// The token account that the ledger finds in the destination.
    pub destination: Option<TokenAccount>,
    /// The mint that the ledger finds in the mint account.
    pub mint: Option<Mint>,
    /// The address derived for the master edition of the mint.
    pub master_edition: Option<(Pubkey, u8)>,
    /// The address derived for the token record of the token account.
    pub token_record: Option<(Pubkey, u8)>,
    /// The address derived for the token record of the destination.
    pub destination_record: Option<(Pubkey, u8)>,
    /// The address derived for the delegate record of the operation.
    pub delegate_record: Option<(Pubkey, u8)>,
    /// The address derived for the master edition that a print was made of.
    pub parent_edition: Option<(Pubkey, u8)>,
    /// The address derived for the marker that keeps the books for a print.
    pub edition_marker: Option<(Pubkey, u8)>,
}

/// What there is to read of a mint account and of up to two token accounts.
/// No delegate record is looked for, and nothing about prints.
pub open spec fn readings_of(
    ids: &ProgramIds,
    mint_info: &AccountInfo,
    token_info: Option<&AccountInfo>,
    destination_info: Option<&AccountInfo>,
) -> Readings {
    Readings {
        token: match token_info {
            Some(info) => ledger_account(info.spec_bytes()),
            None => None,
        },
        destination: match destination_info {
            Some(info) => ledger_account(info.spec_bytes()),
            None => None,
        },
        mint: ledger_mint(mint_info.spec_bytes()),
        master_edition: program_address(
            master_edition_seeds(ids.token_metadata, mint_info.key),
            ids.token_metadata,
        ),
        token_record: match token_info {
            Some(info) => program_address(
                token_record_seeds(ids.token_metadata, mint_info.key, info.key),
                ids.token_metadata,
            ),
            None => None,
        },
        destination_record: match destination_info {
            Some(info) => program_address(
                token_record_seeds(ids.token_metadata, mint_info.key, info.key),
                ids.token_metadata,
            ),
            None => None,
        },
        delegate_record: None,
        parent_edition: None,
        edition_marker: None,
    }
}

/// Reads what the token ledger and the runtime say of a mint account and of
/// up to two token accounts.
pub fn read_accounts(
    ids: &ProgramIds,
    mint_info: &AccountInfo,
    token_info: Option<&AccountInfo>,
    destination_info: Option<&AccountInfo>,
) -> (readings: Readings)
    ensures
        readings == readings_of(ids, mint_info, token_info, destination_info),
{
    Readings {
        token: match token_info {
            Some(info) => info.token_account(),
            None => None,
        },
        destination: match destination_info {
            Some(info) => info.token_account(),
            None => None,
        },
        mint: mint_info.mint(),
        master_edition: find_master_edition_account(&ids.token_metadata, &mint_info.key),
        token_record: match token_info {
            Some(info) => find_token_record_account(
                &ids.token_metadata,
                &mint_info.key,
                &info.key,
            ),
            None => None,
        },
        destination_record: match destination_info {
            Some(info) => find_token_record_account(
                &ids.token_metadata,
                &mint_info.key,
                &info.key,
            ),
            None => None,
        },
        delegate_record: None,
        parent_edition: None,
        edition_marker: None,
    }
}

/// The action that freezes the token account of a programmable asset.
pub open spec fn spec_freeze(mint: Pubkey, token: Pubkey, edition: Pubkey) -> Effect {
    Effect::Ledger(LedgerAction::Freeze { account: token, mint, authority: edition })
}

/// The action that thaws the token account of a programmable asset.
pub open spec fn spec_thaw(mint: Pubkey, token: Pubkey, edition: Pubkey) -> Effect {
    Effect::Ledger(LedgerAction::Thaw { account: token, mint, authority: edition })
}

/// The thaw that has to come before a change to a token account: one thaw
/// if the account is frozen, nothing if it is not.
pub open spec fn spec_thaw_if(frozen: bool, mint: Pubkey, token: Pubkey, edition: Pubkey) -> Seq<
    Effect,
> {
    if frozen {
        seq![spec_thaw(mint, token, edition)]
    } else {
        Seq::empty()
    }
}

/// Plans the freeze of a token account.
pub fn freeze(effects: &mut Vec<Effect>, mint: &AccountInfo, token: &AccountInfo, edition: &AccountInfo)
    ensures
        final(effects)@ == old(effects)@.push(spec_freeze(mint.key, token.key, edition.key)),
{
    effects.push(
        Effect::Ledger(
            LedgerAction::Freeze { account: token.key, mint: mint.key, authority: edition.key },
        ),
    );
}

/// Plans the thaw of a token account that is frozen.
pub fn thaw(
    effects: &mut Vec<Effect>,
    frozen: bool,
    mint: &AccountInfo,
    token: &AccountInfo,
    edition: &AccountInfo,
)
    ensures
        final(effects)@ == old(effects)@ + spec_thaw_if(frozen, mint.key, token.key, edition.key),
{
    if frozen {
        effects.push(
            Effect::Ledger(
                LedgerAction::Thaw { account: token.key, mint: mint.key, authority: edition.key },
            ),
        );
    }
    assert(effects@ =~= old(effects)@ + spec_thaw_if(frozen, mint.key, token.key, edition.key));
}

/// The token record that counts as evidence for a request: the record of
/// the account presented, provided that the account belongs to this program,
/// lies at the address derived for it, and holds a well-formed record.
/// Anything else is no evidence.
pub open spec fn presented_token_record(
    ids: &ProgramIds,
    derived: Option<(Pubkey, u8)>,
    info: Option<&AccountInfo>,
) -> Option<TokenRecord> {
    match info {
        Some(info) => {
            if info.owner == ids.token_metadata && derived_key(derived, info.key) is Ok
                && spec_token_record_from_account_info(info) is Ok {
                Some(spec_token_record_from_account_info(info)->Ok_0)
            } else {
                None
            }
        },
        None => None,
    }
}

/// Reads the token record that a request presents as evidence.
pub fn read_presented_token_record(
    ids: &ProgramIds,
    derived: Option<(Pubkey, u8)>,
    info: Option<&AccountInfo>,
) -> (r: Option<TokenRecord>)
    ensures
        r == presented_token_record(ids, derived, info),
        r matches Some(record) ==> record.wf(),
{
    match info {
        Some(info) => {
            if info.owner != ids.token_metadata {
                return None;
            }
            if check_derived_key(derived, &info.key).is_err() {
                return None;
            }
            match TokenRecord::from_account_info(info) {
                Ok(record) => Some(record),
                Err(_) => None,
            }
        },
        None => None,
    }
}

/// The token record that an operation on a programmable asset works on. The
/// record has to be there, at the address derived for it, owned by this
/// program, and well formed.
pub open spec fn required_token_record(
    ids: &ProgramIds,
    derived: Option<(Pubkey, u8)>,
    info: Option<&AccountInfo>,
) -> Result<TokenRecord, OperationError> {
    if info is None {
        Err(custom(MetadataError::MissingTokenRecord))
    } else if derived_key(derived, info->0.key) is Err {
        Err(custom(MetadataError::KeyMismatch))
    } else if info->0.owner != ids.token_metadata {
        Err(custom(MetadataError::IncorrectOwner))
    } else {
        spec_token_record_from_account_info(info->0)
    }
}

/// Reads the token record that an operation on a programmable asset works on.
pub fn read_required_token_record(
    ids: &ProgramIds,
    derived: Option<(Pubkey, u8)>,
    info: Option<&AccountInfo>,
) -> (r: Result<TokenRecord, OperationError>)
    ensures
        r == required_token_record(ids, derived, info),
        r matches Ok(record) ==> record.wf() && presented_token_record(ids, derived, info)
            == Some(record),
{
    let info = match info {
        Some(info) => info,
        None => {
            return Err(OperationError::Custom(MetadataError::MissingTokenRecord));
        },
    };
    if check_derived_key(derived, &info.key).is_err() {
        return Err(OperationError::Custom(MetadataError::KeyMismatch));
    }
    if info.owner != ids.token_metadata {
        return Err(OperationError::Custom(MetadataError::IncorrectOwner));
    }
    TokenRecord::from_account_info(info)
}

/// The master edition that freezes and thaws for this program: it has to be
/// there, owned by this program, and at the address derived for it.
pub open spec fn required_master_edition(
    ids: &ProgramIds,
    derived: Option<(Pubkey, u8)>,
    info: Option<&AccountInfo>,
) -> Result<Pubkey, OperationError> {
    if info is None {
        Err(custom(MetadataError::MissingEditionAccount))
    } else if info->0.owner != ids.token_metadata {
        Err(custom(MetadataError::IncorrectOwner))
    } else if derived_key(derived, info->0.key) is Err {
        Err(custom(MetadataError::DerivedKeyInvalid))
    } else {
        Ok(info->0.key)
    }
}

/// Finds the master edition among the accounts and checks it.
pub fn read_required_master_edition<'a>(
    ids: &ProgramIds,
    derived: Option<(Pubkey, u8)>,
    info: Option<&'a AccountInfo>,
) -> (r: Result<&'a AccountInfo, OperationError>)
    ensures
        r is Ok <==> required_master_edition(ids, derived, info) is Ok,
        r matches Ok(edition) ==> info == Some(edition),
        r matches Err(e) ==> required_master_edition(ids, derived, info) == Err::<
            Pubkey,
            OperationError,
        >(e),
{
    let info = match info {
        Some(info) => info,
        None => {
            return Err(OperationError::Custom(MetadataError::MissingEditionAccount));
        },
    };
    if info.owner != ids.token_metadata {
        return Err(OperationError::Custom(MetadataError::IncorrectOwner));
    }
    check_derived_key(derived, &info.key)?;
    Ok(info)
}

/// The standard of an asset whose metadata does not name one, from its mint
/// and its edition account.
///
/// The ledger has to find a mint in the mint account, else
/// `InvalidAccountData`. With an edition account the asset is non-fungible:
/// the mint has to have no decimals and a supply of one, and the tag of the
/// edition tells a master edition from a print. Without one the asset is
/// fungible; then the master edition must not be the mint authority, which
/// would make the asset a non-fungible one whose edition was left out.
pub open spec fn token_standard_of(
    mint: Option<Mint>,
    master_edition: Option<(Pubkey, u8)>,
    edition_info: Option<&AccountInfo>,
) -> Result<TokenStandard, OperationError> {
    match mint {
        None => Err(OperationError::InvalidAccountData),
        Some(mint) => match edition_info {
            Some(edition) => {
                let single = mint.decimals == 0 && mint.supply == 1;
                if single && (edition.data matches AccountData::MasterEdition(master) && (
                master.key == Key::MasterEditionV1 || master.key == Key::MasterEditionV2)) {
                    Ok(TokenStandard::NonFungible)
                } else if single && (edition.data matches AccountData::Edition(print) && print.key
                    == Key::EditionV1) {
                    Ok(TokenStandard::NonFungibleEdition)
                } else {
                    Err(custom(MetadataError::CouldNotDetermineTokenStandard))
                }
            },
            None => {
                if master_edition matches Some((key, _)) && mint.mint_authority == Some(key) {
                    Err(custom(MetadataError::MissingEditionAccount))
                } else if mint.decimals == 0 {
                    Ok(TokenStandard::FungibleAsset)
                } else {
                    Ok(TokenStandard::Fungible)
                }
            },
        },
    }
}

/// Infers the standard of an asset from its mint and its edition account.
pub fn check_token_standard(
    mint: Option<Mint>,
    master_edition: Option<(Pubkey, u8)>,
    edition_info: Option<&AccountInfo>,
) -> (r: Result<TokenStandard, OperationError>)
    ensures
        r == token_standard_of(mint, master_edition, edition_info),
{
    let mint = match mint {
        Some(mint) => mint,
        None => {
            return Err(OperationError::InvalidAccountData);
        },
    };
    match edition_info {
        Some(edition) => {
            let single = mint.decimals == 0 && mint.supply == 1;
            let standard = match &edition.data {
                AccountData::MasterEdition(master) => match master.key {
                    Key::MasterEditionV1 | Key::MasterEditionV2 => Some(TokenStandard::NonFungible),
                    _ => None,
                },
                AccountData::Edition(print) => match print.key {
                    Key::EditionV1 => Some(TokenStandard::NonFungibleEdition),
                    _ => None,
                },
                _ => None,
            };
            match standard {
                Some(standard) if single => Ok(standard),
                _ => Err(OperationError::Custom(MetadataError::CouldNotDetermineTokenStandard)),
            }
        },
        None => {
            let edition_mints = match (master_edition, mint.mint_authority) {
                (Some((key, _)), Some(authority)) => key == authority,
                _ => false,
            };
            if edition_mints {
                Err(OperationError::Custom(MetadataError::MissingEditionAccount))
            } else if mint.decimals == 0 {
                Ok(TokenStandard::FungibleAsset)
            } else {
                Ok(TokenStandard::Fungible)
            }
        },
    }
}

/// The standard of an asset: the one its metadata names, else the one
/// inferred from the mint and the edition.
pub open spec fn settled_token_standard(
    named: Option<TokenStandard>,
    readings: &Readings,
    edition_info: Option<&AccountInfo>,
) -> Result<TokenStandard, OperationError> {
    match named {
        Some(token_standard) => Ok(token_standard),
        None => token_standard_of(readings.mint, readings.master_edition, edition_info),
    }
}

/// Settles the standard of an asset.
pub fn settle_token_standard(
    named: Option<TokenStandard>,
    readings: &Readings,
    edition_info: Option<&AccountInfo>,
) -> (r: Result<TokenStandard, OperationError>)
    ensures
        r == settled_token_standard(named, readings, edition_info),
{
    match named {
        Some(token_standard) => Ok(token_standard),
        None => check_token_standard(readings.mint, readings.master_edition, edition_info),
    }
}

/// The rule set that governs an operation on an asset: the one that the
/// metadata of a programmable asset names, and none for any other asset.
pub open spec fn governing_rule_set(
    token_standard: TokenStandard,
    config: Option<ProgrammableConfig>,
) -> Option<Pubkey> {
    match config {
        Some(config) if token_standard == TokenStandard::ProgrammableNonFungible => Some(
            config.rule_set,
        ),
        _ => None,
    }
}

/// Whether the rule set that governs the operation is among the accounts, in
/// the place of the rule set. Where no rule set governs, nothing is asked.
pub open spec fn rule_set_presented(rule_set: Option<Pubkey>, rules_info: Option<&AccountInfo>) -> bool {
    rule_set matches Some(rule_set) ==> (rules_info matches Some(rules) && rules.key == rule_set)
}

/// The question that is put to the policy engine before anything is
/// changed: whether the rule set allows the operation. Nothing is asked
/// where no rule set governs.
pub open spec fn spec_authorize(
    rule_set: Option<Pubkey>,
    operation: Operation,
    mint: Pubkey,
    authority: Pubkey,
) -> Seq<Effect> {
    match rule_set {
        Some(rule_set) => seq![Effect::Authorize { rule_set, operation, mint, authority }],
        None => Seq::empty(),
    }
}

/// Finds the rule set that governs an operation and checks that it is among
/// the accounts: `KeyMismatch` where it is not.
pub fn find_rule_set(
    token_standard: TokenStandard,
    config: Option<ProgrammableConfig>,
    rules_info: Option<&AccountInfo>,
) -> (r: Result<Option<Pubkey>, OperationError>)
    ensures
        r == if rule_set_presented(governing_rule_set(token_standard, config), rules_info) {
            Ok::<Option<Pubkey>, OperationError>(governing_rule_set(token_standard, config))
        } else {
            Err::<Option<Pubkey>, OperationError>(custom(MetadataError::KeyMismatch))
        },
{
    let rule_set = match config {
        Some(config) => if token_standard == TokenStandard::ProgrammableNonFungible {
            Some(config.rule_set)
        } else {
            None
        },
        None => None,
    };
    match rule_set {
        Some(rule_set) => {
            let presented = match rules_info {
                Some(rules) => rules.key == rule_set,
                None => false,
            };
            if presented {
                Ok(Some(rule_set))
            } else {
                Err(OperationError::Custom(MetadataError::KeyMismatch))
            }
        },
        None => Ok(None),
    }
}

/// Plans the question to the policy engine.
pub fn authorize(
    effects: &mut Vec<Effect>,
    rule_set: Option<Pubkey>,
    operation: Operation,
    mint: &AccountInfo,
    authority: &AccountInfo,
)
    ensures
        final(effects)@ == old(effects)@ + spec_authorize(
            rule_set,
            operation,
            mint.key,
            authority.key,
        ),
{
    if let Some(rule_set) = rule_set {
        effects.push(
            Effect::Authorize { rule_set, operation, mint: mint.key, authority: authority.key },
        );
    }
    assert(effects@ =~= old(effects)@ + spec_authorize(
        rule_set,
        operation,
        mint.key,
        authority.key,
    ));
}

} // verus!
