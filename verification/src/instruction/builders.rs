use crate::instruction::metadata::{CreateArgs, MigrateArgs, MintArgs, TransferArgs, UpdateArgs};
use crate::pubkey::Pubkey;
use vstd::prelude::*;

verus! {

/// Builds the instruction that creates the metadata of a mint and the
/// accounts that go with it.
#[derive(Clone, Debug, PartialEq, Eq)]
pub struct Create {
    pub metadata: Pubkey,
    pub master_edition: Option<Pubkey>,
    pub mint: Pubkey,
    pub mint_authority: Pubkey,
    pub payer: Pubkey,
    pub update_authority: Pubkey,
    pub system_program: Pubkey,
    pub sysvar_instructions: Pubkey,
    pub spl_token_program: Pubkey,
    pub initialize_mint: bool,
    pub update_authority_as_signer: bool,
    pub args: CreateArgs,
}

/// Builds the instruction that migrates an asset to another standard.
#[derive(Clone, Debug, PartialEq, Eq)]
pub struct Migrate {
    pub metadata: Pubkey,
    pub edition: Pubkey,
    pub token: Pubkey,
    pub mint: Pubkey,
    pub payer: Pubkey,
    pub authority: Pubkey,
    pub collection_metadata: Pubkey,
    pub system_program: Pubkey,
    pub sysvar_instructions: Pubkey,
    pub spl_token_program: Pubkey,
    pub authorization_rules: Option<Pubkey>,
    pub args: MigrateArgs,
}

/// Builds the instruction that mints tokens of an asset.
#[derive(Clone, Debug, PartialEq, Eq)]
pub struct Mint {
    pub token: Pubkey,
    pub token_owner: Option<Pubkey>,
    pub metadata: Pubkey,
    pub master_edition: Option<Pubkey>,
    pub mint: Pubkey,
    pub payer: Pubkey,
    pub authority: Pubkey,
    pub system_program: Pubkey,
    pub sysvar_instructions: Pubkey,
    pub spl_token_program: Pubkey,
    pub spl_ata_program: Pubkey,
    pub authorization_rules: Option<Pubkey>,
    pub args: MintArgs,
}

/// Builds the instruction that transfers tokens of an asset.
#[derive(Clone, Debug, PartialEq, Eq)]
pub struct Transfer {
    pub authority: Pubkey,
    pub delegate_record: Option<Pubkey>,
    pub token: Pubkey,
    pub token_owner: Pubkey,
    pub destination: Pubkey,
    pub destination_owner: Pubkey,
    pub mint: Pubkey,
    pub metadata: Pubkey,
    pub edition: Option<Pubkey>,
    pub payer: Pubkey,
    pub spl_token_program: Pubkey,
    pub spl_ata_program: Pubkey,
    pub system_program: Pubkey,
    pub sysvar_instructions: Pubkey,
    pub authorization_rules_program: Option<Pubkey>,
    pub authorization_rules: Option<Pubkey>,
    pub args: TransferArgs,
}

/// Builds the instruction that updates the metadata of an asset.
#[derive(Clone, Debug, PartialEq, Eq)]
pub struct Update {
    pub authority: Pubkey,
    pub delegate_record: Option<Pubkey>,
    pub token: Option<Pubkey>,
    pub mint: Pubkey,
    pub metadata: Pubkey,
    pub edition: Option<Pubkey>,
    pub system_program: Pubkey,
    pub sysvar_instructions: Pubkey,
    pub authorization_rules: Option<Pubkey>,
    pub args: UpdateArgs,
}

} // verus!
