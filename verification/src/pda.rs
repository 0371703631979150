use crate::error::{MetadataError, OperationError};
use crate::pubkey::Pubkey;
use crate::state::MetadataDelegateRole;
use vstd::prelude::*;

verus! {

/// The address that the runtime derives for a program from a list of seeds,
/// and the bump seed it had to add, if there is such an address.
pub uninterp spec fn program_address(seeds: Seq<Seq<u8>>, program_id: Pubkey) -> Option<
    (Pubkey, u8),
>;

/// The seeds as the byte strings they hold.
pub open spec fn seeds_view(seeds: &Vec<Vec<u8>>) -> Seq<Seq<u8>> {
    Seq::new(seeds@.len(), |i: int| seeds@[i]@)
}

/// Calls `solana_program::pubkey::Pubkey::try_find_program_address`. The
/// contract claims that the outcome depends on the seeds and the program
/// alone: it is the address and bump seed that the runtime derives from them,
/// or nothing where it derives none.
#[verifier::external_body]
fn try_find_program_address(seeds: &Vec<Vec<u8>>, program_id: &Pubkey) -> (r: Option<(Pubkey, u8)>)
    ensures
        r == program_address(seeds_view(seeds), *program_id),
{
    let slices: Vec<&[u8]> = seeds.iter().map(|s| s.as_slice()).collect();
    let id = solana_program::pubkey::Pubkey::new_from_array(program_id.bytes);
    solana_program::pubkey::Pubkey::try_find_program_address(&slices, &id).map(
        |(key, bump)| (Pubkey { bytes: key.to_bytes() }, bump),
    )
}

/// The bytes of `metadata`, the first seed of every address of this program.
pub open spec fn spec_prefix() -> Seq<u8> {
    seq![109u8, 101u8, 116u8, 97u8, 100u8, 97u8, 116u8, 97u8]
}

/// The bytes of `edition`, the last seed of an edition address.
pub open spec fn spec_edition() -> Seq<u8> {
    seq![101u8, 100u8, 105u8, 116u8, 105u8, 111u8, 110u8]
}

/// The bytes of `token_record`, which marks the address of a token record.
pub open spec fn spec_token_record_seed() -> Seq<u8> {
    seq![116u8, 111u8, 107u8, 101u8, 110u8, 95u8, 114u8, 101u8, 99u8, 111u8, 114u8, 100u8]
}

pub fn prefix() -> (seed: Vec<u8>)
    ensures
        seed@ == spec_prefix(),
{
    vec![109u8, 101u8, 116u8, 97u8, 100u8, 97u8, 116u8, 97u8]
}

pub fn edition() -> (seed: Vec<u8>)
    ensures
        seed@ == spec_edition(),
{
    vec![101u8, 100u8, 105u8, 116u8, 105u8, 111u8, 110u8]
}

pub fn token_record_seed() -> (seed: Vec<u8>)
    ensures
        seed@ == spec_token_record_seed(),
{
    vec![116u8, 111u8, 107u8, 101u8, 110u8, 95u8, 114u8, 101u8, 99u8, 111u8, 114u8, 100u8]
}

/// The seeds of the master edition of a mint.
pub open spec fn master_edition_seeds(program_id: Pubkey, mint: Pubkey) -> Seq<Seq<u8>> {
    seq![spec_prefix(), program_id@, mint@, spec_edition()]
}

/// A number in decimal digits, the highest first.
pub open spec fn spec_decimal(n: nat) -> Seq<u8>
    decreases n,
{
    if n < 10 {
        seq![(48 + n) as u8]
    } else {
        spec_decimal(n / 10).push((48 + n % 10) as u8)
    }
}

/// Writes a number in decimal digits.
pub fn decimal(n: u64) -> (digits: Vec<u8>)
    ensures
        digits@ == spec_decimal(n as nat),
    decreases n,
{
    if n < 10 {
        let digit: u8 = 48 + (n as u8);
        vec![digit]
    } else {
        let mut digits = decimal(n / 10);
        let digit: u8 = 48 + ((n % 10) as u8);
        digits.push(digit);
        digits
    }
}

/// The seeds of the marker that keeps the books for the print of the given
/// number of a master edition: the marker of the first 248 prints is
/// numbered 0, that of the next 248 is numbered 1, and so on.
pub open spec fn edition_marker_seeds(program_id: Pubkey, master_mint: Pubkey, edition: u64) -> Seq<
    Seq<u8>,
> {
    seq![
        spec_prefix(),
        program_id@,
        master_mint@,
        spec_edition(),
        spec_decimal((edition / 248) as nat),
    ]
}

/// The seeds of the token record of a mint and a token account.
pub open spec fn token_record_seeds(program_id: Pubkey, mint: Pubkey, token: Pubkey) -> Seq<
    Seq<u8>,
> {
    seq![spec_prefix(), program_id@, mint@, spec_token_record_seed(), token@]
}

/// The seeds of the record of one metadata delegation.
pub open spec fn metadata_delegate_seeds(
    program_id: Pubkey,
    mint: Pubkey,
    role: MetadataDelegateRole,
    update_authority: Pubkey,
    delegate: Pubkey,
) -> Seq<Seq<u8>> {
    seq![spec_prefix(), program_id@, mint@, role.spec_seed(), update_authority@, delegate@]
}

/// The address derived from `seeds` for `program_id`, with its bump seed.
pub fn find_program_address(seeds: &Vec<Vec<u8>>, program_id: &Pubkey) -> (r: Option<
    (Pubkey, u8),
>)
    ensures
        r == program_address(seeds_view(seeds), *program_id),
{
    try_find_program_address(seeds, program_id)
}

/// The address of the master edition of `mint`.
pub fn find_master_edition_account(program_id: &Pubkey, mint: &Pubkey) -> (r: Option<
    (Pubkey, u8),
>)
    ensures
        r == program_address(master_edition_seeds(*program_id, *mint), *program_id),
{
    let mut seeds: Vec<Vec<u8>> = Vec::new();
    seeds.push(prefix());
    seeds.push(program_id.to_vec());
    seeds.push(mint.to_vec());
    seeds.push(edition());
    assert(seeds_view(&seeds) =~= master_edition_seeds(*program_id, *mint));
    try_find_program_address(&seeds, program_id)
}

/// The address of the marker that keeps the books for the print of the given
/// number of the master edition of `master_mint`.
pub fn find_edition_marker_account(program_id: &Pubkey, master_mint: &Pubkey, number: u64) -> (r:
    Option<(Pubkey, u8)>)
    ensures
        r == program_address(
            edition_marker_seeds(*program_id, *master_mint, number),
            *program_id,
        ),
{
    let mut seeds: Vec<Vec<u8>> = Vec::new();
    seeds.push(prefix());
    seeds.push(program_id.to_vec());
    seeds.push(master_mint.to_vec());
    seeds.push(edition());
    seeds.push(decimal(number / 248));
    assert(seeds_view(&seeds) =~= edition_marker_seeds(*program_id, *master_mint, number));
    try_find_program_address(&seeds, program_id)
}

/// The address of the token record of `mint` for the token account `token`.
pub fn find_token_record_account(program_id: &Pubkey, mint: &Pubkey, token: &Pubkey) -> (r:
    Option<(Pubkey, u8)>)
    ensures
        r == program_address(token_record_seeds(*program_id, *mint, *token), *program_id),
{
    let mut seeds: Vec<Vec<u8>> = Vec::new();
    seeds.push(prefix());
    seeds.push(program_id.to_vec());
    seeds.push(mint.to_vec());
    seeds.push(token_record_seed());
    seeds.push(token.to_vec());
    assert(seeds_view(&seeds) =~= token_record_seeds(*program_id, *mint, *token));
    try_find_program_address(&seeds, program_id)
}

/// The address of the record that makes `delegate` a delegate of `role` for
/// `mint`, approved by `update_authority`.
pub fn find_metadata_delegate_record_account(
    program_id: &Pubkey,
    mint: &Pubkey,
    role: MetadataDelegateRole,
    update_authority: &Pubkey,
    delegate: &Pubkey,
) -> (r: Option<(Pubkey, u8)>)
    ensures
        r == program_address(
            metadata_delegate_seeds(*program_id, *mint, role, *update_authority, *delegate),
            *program_id,
        ),
{
    let mut seeds: Vec<Vec<u8>> = Vec::new();
    seeds.push(prefix());
    seeds.push(program_id.to_vec());
    seeds.push(mint.to_vec());
    seeds.push(role.seed());
    seeds.push(update_authority.to_vec());
    seeds.push(delegate.to_vec());
    assert(seeds_view(&seeds) =~= metadata_delegate_seeds(
        *program_id,
        *mint,
        role,
        *update_authority,
        *delegate,
    ));
    try_find_program_address(&seeds, program_id)
}

/// Whether `key` is the address that was derived, and with which bump seed:
/// `DerivedKeyInvalid` where it is another address, or none was derived.
pub open spec fn derived_key(derived: Option<(Pubkey, u8)>, key: Pubkey) -> Result<
    u8,
    OperationError,
> {
    match derived {
        Some((address, bump)) if address == key => Ok(bump),
        _ => Err(OperationError::Custom(MetadataError::DerivedKeyInvalid)),
    }
}

/// Checks that `key` is the address that was derived and returns the bump
/// seed of the derivation.
pub fn check_derived_key(derived: Option<(Pubkey, u8)>, key: &Pubkey) -> (r: Result<
    u8,
    OperationError,
>)
    ensures
        r == derived_key(derived, *key),
{
    match derived {
        Some((address, bump)) => {
            if address == *key {
                Ok(bump)
            } else {
                Err(OperationError::Custom(MetadataError::DerivedKeyInvalid))
            }
        },
        None => Err(OperationError::Custom(MetadataError::DerivedKeyInvalid)),
    }
}

/// Checks that `key` is the address derived from `seeds` for `program_id` and
/// returns the bump seed of the derivation.
pub fn assert_derivation(program_id: &Pubkey, key: &Pubkey, seeds: &Vec<Vec<u8>>) -> (r: Result<
    u8,
    OperationError,
>)
    ensures
        r == derived_key(program_address(seeds_view(seeds), *program_id), *key),
{
    check_derived_key(try_find_program_address(seeds, program_id), key)
}

} // verus!
