use crate::pubkey::Pubkey;
use vstd::prelude::*;

verus! {

/// The address of this program.
pub const TOKEN_METADATA_ID: [u8; 32] = [
    11, 112, 101, 177, 227, 209, 124, 69, 56, 157, 82, 127, 107, 4, 195, 205, 88, 184, 108, 115, 26,
    160, 253, 181, 73, 182, 209, 188, 3, 248, 41, 70,
];

/// The address of the token ledger program.
pub const SPL_TOKEN_ID: [u8; 32] = [
    6, 221, 246, 225, 215, 101, 161, 147, 217, 203, 225, 70, 206, 235, 121, 172, 28, 180, 133, 237,
    95, 91, 55, 145, 58, 140, 245, 133, 126, 255, 0, 169,
];

/// The address of the system program.
pub const SYSTEM_PROGRAM_ID: [u8; 32] = [
    0, 0, 0, 0, 0, 0, 0, 0, 0, 0, 0, 0, 0, 0, 0, 0, 0, 0, 0, 0, 0, 0, 0, 0, 0, 0, 0, 0, 0, 0, 0, 0,
];

/// The address of the account through which a program inspects the
/// instructions of its transaction.
pub const SYSVAR_INSTRUCTIONS_ID: [u8; 32] = [
    6, 167, 213, 23, 24, 123, 209, 102, 53, 218, 212, 4, 85, 253, 194, 192, 193, 36, 198, 143, 33,
    86, 117, 165, 219, 186, 203, 95, 8, 0, 0, 0,
];

/// The address of the policy engine.
pub const AUTH_RULES_ID: [u8; 32] = [
    8, 175, 248, 148, 195, 250, 103, 192, 22, 58, 48, 242, 52, 163, 61, 52, 103, 240, 58, 161, 100,
    23, 49, 94, 180, 184, 20, 39, 189, 155, 166, 237,
];

/// Calls `spl_token::id`. The contract claims that the ledger program
/// declares the address `TokenkegQfeZyiNwAJbNbGKPFXCWuBvf9Ss623VQ5DA`, whose
/// bytes are `SPL_TOKEN_ID`.
#[verifier::external_body]
fn spl_token_id() -> (id: Pubkey)
    ensures
        id.bytes == SPL_TOKEN_ID,
{
    Pubkey { bytes: spl_token::id().to_bytes() }
}

/// Calls `solana_program::system_program::id`. The contract claims that the
/// runtime declares the address `11111111111111111111111111111111`, whose
/// bytes are all zero.
#[verifier::external_body]
pub(crate) fn system_program_id() -> (id: Pubkey)
    ensures
        id.bytes == SYSTEM_PROGRAM_ID,
{
    Pubkey { bytes: solana_program::system_program::id().to_bytes() }
}

/// Calls `solana_program::sysvar::instructions::id`. The contract claims that
/// the runtime declares the address
/// `Sysvar1nstructions1111111111111111111111111`, whose bytes are
/// `SYSVAR_INSTRUCTIONS_ID`.
#[verifier::external_body]
fn sysvar_instructions_id() -> (id: Pubkey)
    ensures
        id.bytes == SYSVAR_INSTRUCTIONS_ID,
{
    Pubkey { bytes: solana_program::sysvar::instructions::id().to_bytes() }
}

/// Calls `mpl_token_auth_rules::id`. The contract claims that the policy
/// engine declares the address `auth9SigNpDKz4sJJ1DfCTuZrZNSAgh9sFD3rboVmgg`,
/// whose bytes are `AUTH_RULES_ID`.
#[verifier::external_body]
pub(crate) fn auth_rules_id() -> (id: Pubkey)
    ensures
        id.bytes == AUTH_RULES_ID,
{
    Pubkey { bytes: mpl_token_auth_rules::id().to_bytes() }
}

/// The address of this program.
pub fn id() -> (id: Pubkey)
    ensures
        id.bytes == TOKEN_METADATA_ID,
{
    Pubkey { bytes: TOKEN_METADATA_ID }
}

/// The programs and accounts that every operation expects at fixed
/// addresses. Operations take them as a value, so that they can be run
/// against stand-ins.
#[derive(Clone, Copy, Debug, PartialEq, Eq)]
pub struct ProgramIds {
    /// This program; its address also stands for an absent optional account.
    pub token_metadata: Pubkey,
    /// The token ledger.
    pub spl_token: Pubkey,
    /// The system program.
    pub system_program: Pubkey,
    /// The instruction introspection account.
    pub sysvar_instructions: Pubkey,
    /// The policy engine.
    pub auth_rules: Pubkey,
}

impl ProgramIds {
    /// The addresses that the deployed programs declare.
    pub fn well_known() -> (ids: ProgramIds)
        ensures
            ids.token_metadata.bytes == TOKEN_METADATA_ID,
            ids.spl_token.bytes == SPL_TOKEN_ID,
            ids.system_program.bytes == SYSTEM_PROGRAM_ID,
            ids.sysvar_instructions.bytes == SYSVAR_INSTRUCTIONS_ID,
            ids.auth_rules.bytes == AUTH_RULES_ID,
    {
        ProgramIds {
            token_metadata: id(),
            spl_token: spl_token_id(),
            system_program: system_program_id(),
            sysvar_instructions: sysvar_instructions_id(),
            auth_rules: auth_rules_id(),
        }
    }
}

} // verus!
