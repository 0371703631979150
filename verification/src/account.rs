use crate::error::{MetadataError, OperationError};
use crate::ledger::{ledger_account, ledger_mint, read_account, read_mint, Mint, TokenAccount};
use crate::pubkey::Pubkey;
use crate::state::{
    Edition, EditionMarker, MasterEdition, Metadata, MetadataDelegateRecord, TokenRecord,
};
use vstd::prelude::*;

verus! {

/// What an account holds.
#[derive(Clone, Debug, PartialEq, Eq)]
pub enum AccountData {
    /// Nothing: the account was never allocated, or was closed.
    Empty,
    /// Bytes that this program does not keep itself, such as a mint or a
    /// token account of the ledger.
    Bytes(Vec<u8>),
    /// The metadata of a mint.
    Metadata(Metadata),
    /// The token record of a token account.
    TokenRecord(TokenRecord),
    /// The record of a metadata delegation.
    MetadataDelegate(MetadataDelegateRecord),
    /// The master edition of a mint.
    MasterEdition(MasterEdition),
    /// The edition record of a print.
    Edition(Edition),
    /// The books of a master edition for a range of prints.
    EditionMarker(EditionMarker),
}

/// One account as an operation sees it.
#[derive(Clone, Debug, PartialEq, Eq)]
pub struct AccountInfo {
    /// The address of the account.
    pub key: Pubkey,
    /// The program that owns the account.
    pub owner: Pubkey,
    /// Whether the account signed the invocation.
    pub is_signer: bool,
    /// Whether the invocation may change the account.
    pub is_writable: bool,
    /// What the account holds.
    pub data: AccountData,
}

impl AccountInfo {
    pub open spec fn spec_data_is_empty(&self) -> bool {
        match self.data {
            AccountData::Empty => true,
            AccountData::Bytes(bytes) => bytes@.len() == 0,
            _ => false,
        }
    }

    /// An account without data holds no record yet.
    #[verifier::when_used_as_spec(spec_data_is_empty)]
    pub fn data_is_empty(&self) -> (b: bool)
        ensures
            b == self.spec_data_is_empty(),
    {
        match &self.data {
            AccountData::Empty => true,
            AccountData::Bytes(bytes) => bytes.len() == 0,
            _ => false,
        }
    }

    /// The bytes of an account that holds bytes; of any other, none.
    pub open spec fn spec_bytes(&self) -> Seq<u8> {
        match self.data {
            AccountData::Bytes(bytes) => bytes@,
            _ => Seq::empty(),
        }
    }

    /// The token account that the ledger finds in this account,
    /// initialized or not.
    pub fn token_account(&self) -> (r: Option<TokenAccount>)
        ensures
            r == ledger_account(self.spec_bytes()),
    {
        let read = match &self.data {
            AccountData::Bytes(bytes) => read_account(bytes.as_slice()),
            _ => {
                let none: Vec<u8> = Vec::new();
                assert(none@ =~= self.spec_bytes());
                read_account(none.as_slice())
            },
        };
        match read {
            Ok(account) => Some(account),
            Err(_) => None,
        }
    }

    /// The mint that the ledger finds in this account, initialized or not.
    pub fn mint(&self) -> (r: Option<Mint>)
        ensures
            r == ledger_mint(self.spec_bytes()),
    {
        let read = match &self.data {
            AccountData::Bytes(bytes) => read_mint(bytes.as_slice()),
            _ => {
                let none: Vec<u8> = Vec::new();
                assert(none@ =~= self.spec_bytes());
                read_mint(none.as_slice())
            },
        };
        match read {
            Ok(mint) => Some(mint),
            Err(_) => None,
        }
    }
}

/// The metadata that an account holds, or `DataTypeMismatch`.
pub open spec fn spec_metadata_from_account_info(info: &AccountInfo) -> Result<
    Metadata,
    OperationError,
> {
    match info.data {
        AccountData::Metadata(metadata) => Ok(metadata),
        _ => Err(OperationError::Custom(MetadataError::DataTypeMismatch)),
    }
}

/// The token record that an account holds. A record that is not well formed
/// is of no kind this program knows: `DataTypeMismatch`.
pub open spec fn spec_token_record_from_account_info(info: &AccountInfo) -> Result<
    TokenRecord,
    OperationError,
> {
    match info.data {
        AccountData::TokenRecord(record) if record.wf() => Ok(record),
        _ => Err(OperationError::Custom(MetadataError::DataTypeMismatch)),
    }
}

/// The delegate record that an account holds, or `DataTypeMismatch`.
pub open spec fn spec_delegate_record_from_account_info(info: &AccountInfo) -> Result<
    MetadataDelegateRecord,
    OperationError,
> {
    match info.data {
        AccountData::MetadataDelegate(record) => Ok(record),
        _ => Err(OperationError::Custom(MetadataError::DataTypeMismatch)),
    }
}

impl Metadata {
    /// Reads the metadata out of its account.
    pub fn from_account_info(info: &AccountInfo) -> (r: Result<&Metadata, OperationError>)
        ensures
            r is Ok <==> spec_metadata_from_account_info(info) is Ok,
            r matches Ok(metadata) ==> spec_metadata_from_account_info(info) == Ok::<
                Metadata,
                OperationError,
            >(*metadata),
            r matches Err(e) ==> spec_metadata_from_account_info(info) == Err::<
                Metadata,
                OperationError,
            >(e),
    {
        match &info.data {
            AccountData::Metadata(metadata) => Ok(metadata),
            _ => Err(OperationError::Custom(MetadataError::DataTypeMismatch)),
        }
    }
}

impl TokenRecord {
    /// Reads the token record out of its account and checks that it is well
    /// formed.
    pub fn from_account_info(info: &AccountInfo) -> (r: Result<TokenRecord, OperationError>)
        ensures
            r == spec_token_record_from_account_info(info),
            r matches Ok(record) ==> record.wf(),
    {
        match &info.data {
            AccountData::TokenRecord(record) => {
                if record.is_well_formed() {
                    Ok(*record)
                } else {
                    Err(OperationError::Custom(MetadataError::DataTypeMismatch))
                }
            },
            _ => Err(OperationError::Custom(MetadataError::DataTypeMismatch)),
        }
    }
}

impl MetadataDelegateRecord {
    /// Reads the delegate record out of its account.
    pub fn from_account_info(info: &AccountInfo) -> (r: Result<
        MetadataDelegateRecord,
        OperationError,
    >)
        ensures
            r == spec_delegate_record_from_account_info(info),
    {
        match &info.data {
            AccountData::MetadataDelegate(record) => Ok(*record),
            _ => Err(OperationError::Custom(MetadataError::DataTypeMismatch)),
        }
    }
}

/// The account at an optional position: the program's own address there
/// stands for no account.
pub open spec fn spec_optional(account: &AccountInfo, program_id: Pubkey) -> Option<&AccountInfo> {
    if account.key == program_id {
        None
    } else {
        Some(account)
    }
}

/// Reads an optional position of an account list.
pub fn optional<'a>(account: &'a AccountInfo, program_id: &Pubkey) -> (r: Option<&'a AccountInfo>)
    ensures
        r == spec_optional(account, *program_id),
{
    if account.key == *program_id {
        None
    } else {
        Some(account)
    }
}

} // verus!
