use vstd::prelude::*;

verus! {

/// Failures that this program reports about the state of an asset or of a request.
#[derive(Clone, Copy, Debug, PartialEq, Eq, Structural)]
pub enum MetadataError {
    /// An account is not owned by the program that should own it.
    IncorrectOwner,
    /// Two keys that must be equal differ.
    KeyMismatch,
    /// The mint of an account is not the mint of the asset.
    MintMismatch,
    /// The token account is not owned by the requester.
    InvalidOwner,
    /// The token account holds fewer tokens than required.
    NotEnoughTokens,
    /// The account has not been initialized.
    Uninitialized,
    /// An account is not at the address derived from its seeds.
    DerivedKeyInvalid,
    /// The requester holds none of the authorities the operation accepts.
    InvalidAuthorityType,
    /// The token account holds fewer tokens than the operation moves or burns.
    InsufficientTokenBalance,
    /// The amount is not valid for the token standard.
    InvalidAmount,
    /// A non-fungible asset was given without its edition account.
    MissingEdition,
    /// A programmable asset was given without its token record.
    MissingTokenRecord,
    /// The token is locked or listed.
    IncorrectTokenState,
    /// The token account is required and absent.
    MissingTokenAccount,
    /// The token ledger program account is required and absent.
    MissingSplTokenProgram,
    /// The delegation exists already, or a sale delegate is in the way.
    DelegateAlreadyExists,
    /// The master edition account is required and absent.
    MissingEditionAccount,
    /// The operation is not available for the token standard.
    InvalidTokenStandard,
    /// The account data is not a record of the expected kind.
    DataTypeMismatch,
    /// The token standard cannot be inferred from the mint and edition.
    CouldNotDetermineTokenStandard,
    /// The display data of an immutable asset cannot change.
    DataIsImmutable,
    /// `primary_sale_happened` cannot go back to `false`.
    PrimarySaleCanOnlyBeFlippedToTrue,
    /// `is_mutable` cannot go back to `true`.
    IsMutableCanOnlyBeFlippedToFalse,
    /// A verified collection cannot be changed by an update.
    CannotUpdateVerifiedCollection,
    /// The token has no delegate to revoke.
    DelegateNotFound,
    /// The delegate given is not the delegate on record.
    InvalidDelegate,
    /// The delegate record is required and absent.
    MissingDelegateRecord,
    /// The print was not made of the master edition given.
    PrintEditionDoesNotMatchMasterEdition,
    /// The master edition counts no print that could be taken off it.
    NumericalOverflowError,
}

/// Every way an operation can fail. Each failure ends the invocation before
/// anything is changed.
#[derive(Clone, Copy, Debug, PartialEq, Eq, Structural)]
pub enum OperationError {
    /// A failure of this program's own rules.
    Custom(MetadataError),
    /// A well-known program account is not the program expected.
    IncorrectProgramId,
    /// A required signer did not sign.
    MissingRequiredSignature,
    /// Account data does not have the layout of its kind.
    InvalidAccountData,
    /// The account exists and is not initialized.
    UninitializedAccount,
    /// Fewer accounts were passed than the operation binds.
    NotEnoughAccountKeys,
}

} // verus!
