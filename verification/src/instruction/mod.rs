pub mod builders;
pub mod metadata;

use crate::account::{spec_optional, optional, AccountInfo};
use crate::error::OperationError;
use crate::instruction::metadata::{
    CreateArgs, CreateMetadataAccountArgsV3, MigrateArgs, MintArgs, TransferArgs, UpdateArgs,
    UpdateMetadataAccountArgsV2,
};
use crate::ledger::AccountMeta;
use crate::pubkey::Pubkey;
use vstd::prelude::*;

verus! {

/// The payload that the policy engine reads. This program carries it and
/// never looks inside.
#[verifier::external_type_specification]
#[verifier::external_body]
pub struct ExPayload(mpl_token_auth_rules::payload::Payload);

/// `Clone::clone` of `mpl_token_auth_rules::payload::Payload`. Nothing is
/// claimed of the copy: this program never reads a payload.
pub assume_specification[ <mpl_token_auth_rules::payload::Payload as Clone>::clone ](
    payload: &mpl_token_auth_rules::payload::Payload,
) -> mpl_token_auth_rules::payload::Payload;

/// What the requester hands over for the policy engine to judge.
#[derive(Clone, Debug, PartialEq, Eq)]
pub struct AuthorizationData {
    pub payload: mpl_token_auth_rules::payload::Payload,
}

/// The arguments of a burn.
#[derive(Clone, Debug, PartialEq, Eq)]
pub enum BurnArgs {
    V1 { amount: u64 },
}

/// The arguments of a delegation, one variant for each role.
#[derive(Clone, Debug, PartialEq, Eq)]
pub enum DelegateArgs {
    CollectionV1 { authorization_data: Option<AuthorizationData> },
    SaleV1 { amount: u64, authorization_data: Option<AuthorizationData> },
    TransferV1 { amount: u64, authorization_data: Option<AuthorizationData> },
    UpdateV1 { authorization_data: Option<AuthorizationData> },
    UtilityV1 { amount: u64, authorization_data: Option<AuthorizationData> },
    StakingV1 { amount: u64, authorization_data: Option<AuthorizationData> },
}

/// The delegation to revoke.
#[derive(Clone, Copy, Debug, PartialEq, Eq, Structural)]
pub enum RevokeArgs {
    CollectionV1,
    SaleV1,
    TransferV1,
    UpdateV1,
    UtilityV1,
    StakingV1,
}

/// What this program can be asked to do, with the arguments of each request.
#[derive(Clone, Debug, PartialEq, Eq)]
pub enum MetadataInstruction {
    CreateMetadataAccountV3(CreateMetadataAccountArgsV3),
    PuffMetadata,
    RemoveCreatorVerification,
    SetTokenStandard,
    SignMetadata,
    UpdateMetadataAccountV2(UpdateMetadataAccountArgsV2),
    UpdatePrimarySaleHappenedViaToken,
    Burn(BurnArgs),
    Create(CreateArgs),
    Delegate(DelegateArgs),
    Migrate(MigrateArgs),
    Mint(MintArgs),
    Revoke(RevokeArgs),
    Transfer(TransferArgs),
    Update(UpdateArgs),
}

/// A request to this program: the program, the accounts in their positions,
/// and what is asked. The request is put on the wire by whoever sends it.
#[derive(Clone, Debug, PartialEq, Eq)]
pub struct Instruction {
    pub program_id: Pubkey,
    pub accounts: Vec<AccountMeta>,
    pub data: MetadataInstruction,
}

/// A value from which a request to this program is built.
pub trait InstructionBuilder: Sized {
    /// The request that the builder stands for.
    spec fn spec_instruction(self) -> (Pubkey, Seq<AccountMeta>, MetadataInstruction);

    /// Builds the request.
    fn instruction(self) -> (ix: Instruction)
        ensures
            (ix.program_id, ix.accounts@, ix.data) == self.spec_instruction(),
    ;
}

/// How an optional account is bound: as a writable account if it is there,
/// else as the read-only address of this program.
pub open spec fn spec_optional_writable(key: Option<Pubkey>, program_id: Pubkey) -> AccountMeta {
    match key {
        Some(key) => AccountMeta::spec_new(key, false),
        None => AccountMeta::spec_new_readonly(program_id, false),
    }
}

/// How an optional account that is only read is bound: as itself if it is
/// there, else as the address of this program.
pub open spec fn spec_optional_readonly(key: Option<Pubkey>, program_id: Pubkey) -> AccountMeta {
    match key {
        Some(key) => AccountMeta::spec_new_readonly(key, false),
        None => AccountMeta::spec_new_readonly(program_id, false),
    }
}

#[verifier::when_used_as_spec(spec_optional_writable)]
pub fn optional_writable(key: Option<Pubkey>, program_id: Pubkey) -> (meta: AccountMeta)
    ensures
        meta == spec_optional_writable(key, program_id),
{
    match key {
        Some(key) => AccountMeta::new(key, false),
        None => AccountMeta::new_readonly(program_id, false),
    }
}

#[verifier::when_used_as_spec(spec_optional_readonly)]
pub fn optional_readonly(key: Option<Pubkey>, program_id: Pubkey) -> (meta: AccountMeta)
    ensures
        meta == spec_optional_readonly(key, program_id),
{
    match key {
        Some(key) => AccountMeta::new_readonly(key, false),
        None => AccountMeta::new_readonly(program_id, false),
    }
}

/// The accounts of a burn, by name.
#[derive(Clone, Copy, Debug)]
pub struct Burn<'a> {
    /// The holder of the asset or its utility delegate.
    pub authority_info: &'a AccountInfo,
    pub metadata_info: &'a AccountInfo,
    pub edition_info: Option<&'a AccountInfo>,
    pub mint_info: &'a AccountInfo,
    pub token_info: &'a AccountInfo,
    pub parent_edition_info: Option<&'a AccountInfo>,
    pub parent_mint_info: Option<&'a AccountInfo>,
    pub parent_token_info: Option<&'a AccountInfo>,
    pub edition_marker_info: Option<&'a AccountInfo>,
    pub token_record_info: Option<&'a AccountInfo>,
    pub system_program_info: &'a AccountInfo,
    pub sysvar_instructions_info: &'a AccountInfo,
    pub spl_token_program_info: &'a AccountInfo,
    pub authorization_rules_program_info: Option<&'a AccountInfo>,
    pub authorization_rules_info: Option<&'a AccountInfo>,
}

/// The accounts of a delegation or of a revocation, by name.
#[derive(Clone, Copy, Debug)]
pub struct Delegate<'a> {
    pub delegate_record_info: Option<&'a AccountInfo>,
    pub delegate_info: &'a AccountInfo,
    pub metadata_info: &'a AccountInfo,
    pub master_edition_info: Option<&'a AccountInfo>,
    pub token_record_info: Option<&'a AccountInfo>,
    pub mint_info: &'a AccountInfo,
    pub token_info: Option<&'a AccountInfo>,
    /// The holder or update authority who approves or revokes.
    pub approver_info: &'a AccountInfo,
    pub payer_info: &'a AccountInfo,
    pub system_program_info: &'a AccountInfo,
    pub sysvar_instructions_info: &'a AccountInfo,
    pub spl_token_program_info: Option<&'a AccountInfo>,
    pub authorization_rules_program_info: Option<&'a AccountInfo>,
    pub authorization_rules_info: Option<&'a AccountInfo>,
}

/// The accounts of an operation together with what else was passed.
#[derive(Clone, Copy, Debug)]
pub struct Context<T> {
    pub accounts: T,
}

impl<'a> Burn<'a> {
    /// The number of positions of the account list.
    pub open spec fn spec_len() -> nat {
        15
    }

    /// The accounts at their positions; the program's own address at an
    /// optional position stands for no account.
    pub open spec fn bind(accounts: Seq<AccountInfo>, program_id: Pubkey) -> Burn<'a> {
        Burn {
            authority_info: &accounts[0],
            metadata_info: &accounts[1],
            edition_info: spec_optional(&accounts[2], program_id),
            mint_info: &accounts[3],
            token_info: &accounts[4],
            parent_edition_info: spec_optional(&accounts[5], program_id),
            parent_mint_info: spec_optional(&accounts[6], program_id),
            parent_token_info: spec_optional(&accounts[7], program_id),
            edition_marker_info: spec_optional(&accounts[8], program_id),
            token_record_info: spec_optional(&accounts[9], program_id),
            system_program_info: &accounts[10],
            sysvar_instructions_info: &accounts[11],
            spl_token_program_info: &accounts[12],
            authorization_rules_program_info: spec_optional(&accounts[13], program_id),
            authorization_rules_info: spec_optional(&accounts[14], program_id),
        }
    }

    /// Binds the accounts of a burn by position. Fails with
    /// `NotEnoughAccountKeys` where the list is too short, and then only.
    pub fn to_context(accounts: &'a [AccountInfo], program_id: &Pubkey) -> (r: Result<
        Context<Burn<'a>>,
        OperationError,
    >)
        ensures
            accounts@.len() < Burn::spec_len() ==> r is Err && r->Err_0
                == OperationError::NotEnoughAccountKeys,
            accounts@.len() >= Burn::spec_len() ==> r is Ok && r->Ok_0.accounts == Burn::bind(
                accounts@,
                *program_id,
            ),
    {
        if accounts.len() < 15 {
            return Err(OperationError::NotEnoughAccountKeys);
        }
        Ok(
            Context {
                accounts: Burn {
                    authority_info: &accounts[0],
                    metadata_info: &accounts[1],
                    edition_info: optional(&accounts[2], program_id),
                    mint_info: &accounts[3],
                    token_info: &accounts[4],
                    parent_edition_info: optional(&accounts[5], program_id),
                    parent_mint_info: optional(&accounts[6], program_id),
                    parent_token_info: optional(&accounts[7], program_id),
                    edition_marker_info: optional(&accounts[8], program_id),
                    token_record_info: optional(&accounts[9], program_id),
                    system_program_info: &accounts[10],
                    sysvar_instructions_info: &accounts[11],
                    spl_token_program_info: &accounts[12],
                    authorization_rules_program_info: optional(&accounts[13], program_id),
                    authorization_rules_info: optional(&accounts[14], program_id),
                },
            },
        )
    }
}

impl<'a> Delegate<'a> {
    /// The number of positions of the account list.
    pub open spec fn spec_len() -> nat {
        14
    }

    /// The accounts at their positions; the program's own address at an
    /// optional position stands for no account.
    pub open spec fn bind(accounts: Seq<AccountInfo>, program_id: Pubkey) -> Delegate<'a> {
        Delegate {
            delegate_record_info: spec_optional(&accounts[0], program_id),
            delegate_info: &accounts[1],
            metadata_info: &accounts[2],
            master_edition_info: spec_optional(&accounts[3], program_id),
            token_record_info: spec_optional(&accounts[4], program_id),
            mint_info: &accounts[5],
            token_info: spec_optional(&accounts[6], program_id),
            approver_info: &accounts[7],
            payer_info: &accounts[8],
            system_program_info: &accounts[9],
            sysvar_instructions_info: &accounts[10],
            spl_token_program_info: spec_optional(&accounts[11], program_id),
            authorization_rules_program_info: spec_optional(&accounts[12], program_id),
            authorization_rules_info: spec_optional(&accounts[13], program_id),
        }
    }

    /// Binds the accounts of a delegation by position. Fails with
    /// `NotEnoughAccountKeys` where the list is too short, and then only.
    pub fn to_context(accounts: &'a [AccountInfo], program_id: &Pubkey) -> (r: Result<
        Context<Delegate<'a>>,
        OperationError,
    >)
        ensures
            accounts@.len() < Delegate::spec_len() ==> r is Err && r->Err_0
                == OperationError::NotEnoughAccountKeys,
            accounts@.len() >= Delegate::spec_len() ==> r is Ok && r->Ok_0.accounts
                == Delegate::bind(accounts@, *program_id),
    {
        if accounts.len() < 14 {
            return Err(OperationError::NotEnoughAccountKeys);
        }
        Ok(
            Context {
                accounts: Delegate {
                    delegate_record_info: optional(&accounts[0], program_id),
                    delegate_info: &accounts[1],
                    metadata_info: &accounts[2],
                    master_edition_info: optional(&accounts[3], program_id),
                    token_record_info: optional(&accounts[4], program_id),
                    mint_info: &accounts[5],
                    token_info: optional(&accounts[6], program_id),
                    approver_info: &accounts[7],
                    payer_info: &accounts[8],
                    system_program_info: &accounts[9],
                    sysvar_instructions_info: &accounts[10],
                    spl_token_program_info: optional(&accounts[11], program_id),
                    authorization_rules_program_info: optional(&accounts[12], program_id),
                    authorization_rules_info: optional(&accounts[13], program_id),
                },
            },
        )
    }
}

/// The accounts of a transfer, by name.
#[derive(Clone, Copy, Debug)]
pub struct Transfer<'a> {
    /// The holder of the asset or its sale or transfer delegate.
    pub authority_info: &'a AccountInfo,
    /// The token record of the token account that the tokens leave.
    pub token_record_info: Option<&'a AccountInfo>,
    pub token_info: &'a AccountInfo,
    pub token_owner_info: &'a AccountInfo,
    pub destination_info: &'a AccountInfo,
    pub destination_owner_info: &'a AccountInfo,
    pub mint_info: &'a AccountInfo,
    pub metadata_info: &'a AccountInfo,
    pub edition_info: Option<&'a AccountInfo>,
    pub payer_info: &'a AccountInfo,
    pub spl_token_program_info: &'a AccountInfo,
    pub spl_ata_program_info: &'a AccountInfo,
    pub system_program_info: &'a AccountInfo,
    pub sysvar_instructions_info: &'a AccountInfo,
    pub authorization_rules_program_info: Option<&'a AccountInfo>,
    pub authorization_rules_info: Option<&'a AccountInfo>,
}

impl<'a> Transfer<'a> {
    /// The number of positions of the account list.
    pub open spec fn spec_len() -> nat {
        16
    }

    /// The accounts at their positions; the program's own address at an
    /// optional position stands for no account.
    pub open spec fn bind(accounts: Seq<AccountInfo>, program_id: Pubkey) -> Transfer<'a> {
        Transfer {
            authority_info: &accounts[0],
            token_record_info: spec_optional(&accounts[1], program_id),
            token_info: &accounts[2],
            token_owner_info: &accounts[3],
            destination_info: &accounts[4],
            destination_owner_info: &accounts[5],
            mint_info: &accounts[6],
            metadata_info: &accounts[7],
            edition_info: spec_optional(&accounts[8], program_id),
            payer_info: &accounts[9],
            spl_token_program_info: &accounts[10],
            spl_ata_program_info: &accounts[11],
            system_program_info: &accounts[12],
            sysvar_instructions_info: &accounts[13],
            authorization_rules_program_info: spec_optional(&accounts[14], program_id),
            authorization_rules_info: spec_optional(&accounts[15], program_id),
        }
    }

    /// Binds the accounts of a transfer by position. Fails with
    /// `NotEnoughAccountKeys` where the list is too short, and then only.
    pub fn to_context(accounts: &'a [AccountInfo], program_id: &Pubkey) -> (r: Result<
        Context<Transfer<'a>>,
        OperationError,
    >)
        ensures
            accounts@.len() < Transfer::spec_len() ==> r is Err && r->Err_0
                == OperationError::NotEnoughAccountKeys,
            accounts@.len() >= Transfer::spec_len() ==> r is Ok && r->Ok_0.accounts
                == Transfer::bind(accounts@, *program_id),
    {
        if accounts.len() < 16 {
            return Err(OperationError::NotEnoughAccountKeys);
        }
        Ok(
            Context {
                accounts: Transfer {
                    authority_info: &accounts[0],
                    token_record_info: optional(&accounts[1], program_id),
                    token_info: &accounts[2],
                    token_owner_info: &accounts[3],
                    destination_info: &accounts[4],
                    destination_owner_info: &accounts[5],
                    mint_info: &accounts[6],
                    metadata_info: &accounts[7],
                    edition_info: optional(&accounts[8], program_id),
                    payer_info: &accounts[9],
                    spl_token_program_info: &accounts[10],
                    spl_ata_program_info: &accounts[11],
                    system_program_info: &accounts[12],
                    sysvar_instructions_info: &accounts[13],
                    authorization_rules_program_info: optional(&accounts[14], program_id),
                    authorization_rules_info: optional(&accounts[15], program_id),
                },
            },
        )
    }
}

/// The accounts of an update, by name.
#[derive(Clone, Copy, Debug)]
pub struct Update<'a> {
    /// The update authority of the asset or its update delegate.
    pub authority_info: &'a AccountInfo,
    pub delegate_record_info: Option<&'a AccountInfo>,
    pub token_info: Option<&'a AccountInfo>,
    pub mint_info: &'a AccountInfo,
    pub metadata_info: &'a AccountInfo,
    pub edition_info: Option<&'a AccountInfo>,
    pub system_program_info: &'a AccountInfo,
    pub sysvar_instructions_info: &'a AccountInfo,
    pub authorization_rules_program_info: Option<&'a AccountInfo>,
    pub authorization_rules_info: Option<&'a AccountInfo>,
}

impl<'a> Update<'a> {
    /// The number of positions of the account list.
    pub open spec fn spec_len() -> nat {
        10
    }

    /// The accounts at their positions; the program's own address at an
    /// optional position stands for no account.
    pub open spec fn bind(accounts: Seq<AccountInfo>, program_id: Pubkey) -> Update<'a> {
        Update {
            authority_info: &accounts[0],
            delegate_record_info: spec_optional(&accounts[1], program_id),
            token_info: spec_optional(&accounts[2], program_id),
            mint_info: &accounts[3],
            metadata_info: &accounts[4],
            edition_info: spec_optional(&accounts[5], program_id),
            system_program_info: &accounts[6],
            sysvar_instructions_info: &accounts[7],
            authorization_rules_program_info: spec_optional(&accounts[8], program_id),
            authorization_rules_info: spec_optional(&accounts[9], program_id),
        }
    }

    /// Binds the accounts of an update by position. Fails with
    /// `NotEnoughAccountKeys` where the list is too short, and then only.
    pub fn to_context(accounts: &'a [AccountInfo], program_id: &Pubkey) -> (r: Result<
        Context<Update<'a>>,
        OperationError,
    >)
        ensures
            accounts@.len() < Update::spec_len() ==> r is Err && r->Err_0
                == OperationError::NotEnoughAccountKeys,
            accounts@.len() >= Update::spec_len() ==> r is Ok && r->Ok_0.accounts == Update::bind(
                accounts@,
                *program_id,
            ),
    {
        if accounts.len() < 10 {
            return Err(OperationError::NotEnoughAccountKeys);
        }
        Ok(
            Context {
                accounts: Update {
                    authority_info: &accounts[0],
                    delegate_record_info: optional(&accounts[1], program_id),
                    token_info: optional(&accounts[2], program_id),
                    mint_info: &accounts[3],
                    metadata_info: &accounts[4],
                    edition_info: optional(&accounts[5], program_id),
                    system_program_info: &accounts[6],
                    sysvar_instructions_info: &accounts[7],
                    authorization_rules_program_info: optional(&accounts[8], program_id),
                    authorization_rules_info: optional(&accounts[9], program_id),
                },
            },
        )
    }
}

} // verus!
