use crate::account::AccountInfo;
use crate::error::{MetadataError, OperationError};
use crate::ledger::TokenAccount;
use crate::pubkey::Pubkey;
use vstd::prelude::*;

verus! {

/// `Ok` if `holds`, else the error given.
pub open spec fn check(holds: bool, error: OperationError) -> Result<(), OperationError> {
    if holds {
        Ok(())
    } else {
        Err(error)
    }
}

/// The error of this program's rules, as an operation reports it.
pub open spec fn custom(error: MetadataError) -> OperationError {
    OperationError::Custom(error)
}

/// The account must have signed.
pub fn assert_signer(account_info: &AccountInfo) -> (r: Result<(), OperationError>)
    ensures
        r == check(account_info.is_signer, OperationError::MissingRequiredSignature),
{
    if !account_info.is_signer {
        Err(OperationError::MissingRequiredSignature)
    } else {
        Ok(())
    }
}

/// The account must be owned by the program `owner`.
pub fn assert_owned_by(account: &AccountInfo, owner: &Pubkey) -> (r: Result<(), OperationError>)
    ensures
        r == check(account.owner == *owner, custom(MetadataError::IncorrectOwner)),
{
    if account.owner != *owner {
        Err(OperationError::Custom(MetadataError::IncorrectOwner))
    } else {
        Ok(())
    }
}

/// The two keys must be the same.
pub fn assert_keys_equal(key1: &Pubkey, key2: &Pubkey) -> (r: Result<(), OperationError>)
    ensures
        r == check(*key1 == *key2, custom(MetadataError::KeyMismatch)),
{
    if *key1 != *key2 {
        Err(OperationError::Custom(MetadataError::KeyMismatch))
    } else {
        Ok(())
    }
}

/// What is asked of a token account that has to be in use: the ledger has
/// to find one in the data, else `InvalidAccountData`, and it has to be
/// initialized, else `Uninitialized`.
pub open spec fn initialized(account: Option<TokenAccount>) -> Result<TokenAccount, OperationError> {
    match account {
        None => Err(OperationError::InvalidAccountData),
        Some(account) => if account.is_initialized() {
            Ok(account)
        } else {
            Err(custom(MetadataError::Uninitialized))
        },
    }
}

/// Checks that the token account read out of an account is there and
/// initialized.
pub fn assert_initialized(account: Option<TokenAccount>) -> (r: Result<TokenAccount, OperationError>)
    ensures
        r == initialized(account),
{
    match account {
        None => Err(OperationError::InvalidAccountData),
        Some(account) => if !account.is_initialized() {
            Err(OperationError::Custom(MetadataError::Uninitialized))
        } else {
            Ok(account)
        },
    }
}

/// What unpacking a token account gives: the account, if the ledger finds
/// one in the data, else `InvalidAccountData`, and if it is initialized, else
/// `UninitializedAccount`.
pub open spec fn unpacked(account: Option<TokenAccount>) -> Result<TokenAccount, OperationError> {
    match account {
        None => Err(OperationError::InvalidAccountData),
        Some(account) => if account.is_initialized() {
            Ok(account)
        } else {
            Err(OperationError::UninitializedAccount)
        },
    }
}

/// Checks that the token account read out of an account is there and
/// initialized, as unpacking it does.
pub fn unpack_account(account: Option<TokenAccount>) -> (r: Result<TokenAccount, OperationError>)
    ensures
        r == unpacked(account),
{
    match account {
        None => Err(OperationError::InvalidAccountData),
        Some(account) => if !account.is_initialized() {
            Err(OperationError::UninitializedAccount)
        } else {
            Ok(account)
        },
    }
}

} // verus!
