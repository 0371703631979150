use crate::error::OperationError;
use crate::ids::SPL_TOKEN_ID;
use crate::pubkey::Pubkey;
use solana_program::program_pack::Pack;
use vstd::bytes::spec_u64_to_le_bytes;
use vstd::prelude::*;

verus! {

/// The error type of the runtime, as the ledger's own functions return it.
#[verifier::external_type_specification]
#[verifier::external_body]
pub struct ExRuntimeError(solana_program::program_error::ProgramError);

/// Whether a token account can be used.
#[derive(Clone, Copy, Debug, PartialEq, Eq, Structural)]
pub enum AccountState {
    /// The account was allocated and never initialized.
    Uninitialized,
    /// The owner and the delegate may use the account.
    Initialized,
    /// Neither the owner nor the delegate may move or burn the balance.
    Frozen,
}

/// A balance of one mint, as the token ledger keeps it.
#[derive(Clone, Copy, Debug, PartialEq, Eq)]
pub struct TokenAccount {
    pub mint: Pubkey,
    pub owner: Pubkey,
    pub amount: u64,
    pub delegate: Option<Pubkey>,
    pub state: AccountState,
    pub is_native: Option<u64>,
    pub delegated_amount: u64,
    pub close_authority: Option<Pubkey>,
}

impl TokenAccount {
    pub open spec fn spec_is_initialized(&self) -> bool {
        self.state != AccountState::Uninitialized
    }

    #[verifier::when_used_as_spec(spec_is_initialized)]
    pub fn is_initialized(&self) -> (b: bool)
        ensures
            b == self.spec_is_initialized(),
    {
        self.state != AccountState::Uninitialized
    }

    pub open spec fn spec_is_frozen(&self) -> bool {
        self.state == AccountState::Frozen
    }

    #[verifier::when_used_as_spec(spec_is_frozen)]
    pub fn is_frozen(&self) -> (b: bool)
        ensures
            b == self.spec_is_frozen(),
    {
        self.state == AccountState::Frozen
    }
}

/// A mint, as the token ledger keeps it.
#[derive(Clone, Copy, Debug, PartialEq, Eq)]
pub struct Mint {
    pub mint_authority: Option<Pubkey>,
    pub supply: u64,
    pub decimals: u8,
    pub is_initialized: bool,
    pub freeze_authority: Option<Pubkey>,
}

/// The token account that the ledger reads out of account data, if the data
/// has the layout of one. The account may be uninitialized.
pub uninterp spec fn ledger_account(data: Seq<u8>) -> Option<TokenAccount>;

/// The mint that the ledger reads out of account data, if the data has the
/// layout of one. The mint may be uninitialized.
pub uninterp spec fn ledger_mint(data: Seq<u8>) -> Option<Mint>;

/// Calls `spl_token::state::Account::unpack_unchecked`. The contract claims
/// that the call succeeds exactly on the data in which the ledger finds a
/// token account, and that it then returns that account, field by field.
#[verifier::external_body]
fn account_unpack_unchecked(data: &[u8]) -> (r: Result<
    TokenAccount,
    solana_program::program_error::ProgramError,
>)
    ensures
        r is Ok <==> ledger_account(data@) is Some,
        r matches Ok(account) ==> ledger_account(data@) == Some(account),
{
    let a = spl_token::state::Account::unpack_unchecked(data)?;
    Ok(TokenAccount {
        mint: Pubkey { bytes: a.mint.to_bytes() },
        owner: Pubkey { bytes: a.owner.to_bytes() },
        amount: a.amount,
        delegate: Option::from(a.delegate).map(|k: solana_program::pubkey::Pubkey| Pubkey { bytes: k.to_bytes() }),
        state: match a.state {
            spl_token::state::AccountState::Uninitialized => AccountState::Uninitialized,
            spl_token::state::AccountState::Initialized => AccountState::Initialized,
            spl_token::state::AccountState::Frozen => AccountState::Frozen,
        },
        is_native: a.is_native.into(),
        delegated_amount: a.delegated_amount,
        close_authority: Option::from(a.close_authority).map(|k: solana_program::pubkey::Pubkey| Pubkey { bytes: k.to_bytes() }),
    })
}

/// Calls `spl_token::state::Mint::unpack_unchecked`. The contract claims that
/// the call succeeds exactly on the data in which the ledger finds a mint, and
/// that it then returns that mint, field by field.
#[verifier::external_body]
fn mint_unpack_unchecked(data: &[u8]) -> (r: Result<Mint, solana_program::program_error::ProgramError>)
    ensures
        r is Ok <==> ledger_mint(data@) is Some,
        r matches Ok(mint) ==> ledger_mint(data@) == Some(mint),
{
    let m = spl_token::state::Mint::unpack_unchecked(data)?;
    Ok(Mint {
        mint_authority: Option::from(m.mint_authority).map(|k: solana_program::pubkey::Pubkey| Pubkey { bytes: k.to_bytes() }),
        supply: m.supply,
        decimals: m.decimals,
        is_initialized: m.is_initialized,
        freeze_authority: Option::from(m.freeze_authority).map(|k: solana_program::pubkey::Pubkey| Pubkey { bytes: k.to_bytes() }),
    })
}

/// What reading a token account out of `data` gives: the account, or
/// `InvalidAccountData` where the data does not have the layout of one.
pub open spec fn spec_read_account(data: Seq<u8>) -> Result<TokenAccount, OperationError> {
    match ledger_account(data) {
        Some(account) => Ok(account),
        None => Err(OperationError::InvalidAccountData),
    }
}

/// Reads a token account, initialized or not, out of account data.
pub fn read_account(data: &[u8]) -> (r: Result<TokenAccount, OperationError>)
    ensures
        r == spec_read_account(data@),
{
    match account_unpack_unchecked(data) {
        Ok(account) => Ok(account),
        Err(_) => Err(OperationError::InvalidAccountData),
    }
}

/// What reading a mint out of `data` gives: the mint, or `InvalidAccountData`
/// where the data does not have the layout of one.
pub open spec fn spec_read_mint(data: Seq<u8>) -> Result<Mint, OperationError> {
    match ledger_mint(data) {
        Some(mint) => Ok(mint),
        None => Err(OperationError::InvalidAccountData),
    }
}

/// Reads a mint, initialized or not, out of account data.
pub fn read_mint(data: &[u8]) -> (r: Result<Mint, OperationError>)
    ensures
        r == spec_read_mint(data@),
{
    match mint_unpack_unchecked(data) {
        Ok(mint) => Ok(mint),
        Err(_) => Err(OperationError::InvalidAccountData),
    }
}

/// How an instruction binds one account.
#[derive(Clone, Copy, Debug, PartialEq, Eq)]
pub struct AccountMeta {
    /// The address of the account.
    pub pubkey: Pubkey,
    /// Whether the account has to sign.
    pub is_signer: bool,
    /// Whether the instruction may change the account.
    pub is_writable: bool,
}

impl AccountMeta {
    pub open spec fn spec_new(pubkey: Pubkey, is_signer: bool) -> AccountMeta {
        AccountMeta { pubkey, is_signer, is_writable: true }
    }

    pub open spec fn spec_new_readonly(pubkey: Pubkey, is_signer: bool) -> AccountMeta {
        AccountMeta { pubkey, is_signer, is_writable: false }
    }

    /// Binds an account that the instruction may change.
    #[verifier::when_used_as_spec(spec_new)]
    pub fn new(pubkey: Pubkey, is_signer: bool) -> (meta: AccountMeta)
        ensures
            meta == AccountMeta::spec_new(pubkey, is_signer),
    {
        AccountMeta { pubkey, is_signer, is_writable: true }
    }

    /// Binds an account that the instruction only reads.
    #[verifier::when_used_as_spec(spec_new_readonly)]
    pub fn new_readonly(pubkey: Pubkey, is_signer: bool) -> (meta: AccountMeta)
        ensures
            meta == AccountMeta::spec_new_readonly(pubkey, is_signer),
    {
        AccountMeta { pubkey, is_signer, is_writable: false }
    }
}

/// An instruction for the token ledger, ready to be invoked.
#[derive(Clone, Debug, PartialEq, Eq)]
pub struct LedgerInstruction {
    pub program_id: Pubkey,
    pub accounts: Vec<AccountMeta>,
    pub data: Vec<u8>,
}

/// An instruction for the token ledger as plain values.
pub struct LedgerInstructionView {
    pub program_id: Pubkey,
    pub accounts: Seq<AccountMeta>,
    pub data: Seq<u8>,
}

impl View for LedgerInstruction {
    type V = LedgerInstructionView;

    open spec fn view(&self) -> LedgerInstructionView {
        LedgerInstructionView {
            program_id: self.program_id,
            accounts: self.accounts@,
            data: self.data@,
        }
    }
}

/// The accounts of a ledger instruction on one account, a second account
/// and the authority that signs for it.
pub open spec fn ledger_accounts(
    first: Pubkey,
    second: Pubkey,
    second_writable: bool,
    authority: Pubkey,
) -> Seq<AccountMeta> {
    seq![
        AccountMeta { pubkey: first, is_signer: false, is_writable: true },
        AccountMeta { pubkey: second, is_signer: false, is_writable: second_writable },
        AccountMeta { pubkey: authority, is_signer: true, is_writable: false },
    ]
}

/// Calls `spl_token::instruction::approve` with no multisignature signers. The
/// contract claims that the call succeeds exactly for the ledger's own program
/// address, and that the instruction it builds lets `delegate` spend up to
/// `amount` from `source`: the accounts in the order shown, the authority as
/// the one signer, and as data the tag 4 followed by the amount in
/// little-endian bytes.
#[verifier::external_body]
fn ledger_approve(
    token_program_id: &Pubkey,
    source: &Pubkey,
    delegate: &Pubkey,
    owner: &Pubkey,
    amount: u64,
) -> (r: Result<LedgerInstruction, solana_program::program_error::ProgramError>)
    ensures
        r is Ok <==> token_program_id.bytes == SPL_TOKEN_ID,
        r matches Ok(ix) ==> {
            &&& ix.program_id == *token_program_id
            &&& ix.accounts@ == ledger_accounts(*source, *delegate, false, *owner)
            &&& ix.data@ == seq![4u8] + spec_u64_to_le_bytes(amount)
        },
{
    let key = |k: &Pubkey| solana_program::pubkey::Pubkey::new_from_array(k.bytes);
    let ix = spl_token::instruction::approve(&key(token_program_id), &key(source), &key(delegate), &key(owner), &[], amount)?;
    Ok(LedgerInstruction {
        program_id: Pubkey { bytes: ix.program_id.to_bytes() },
        accounts: ix.accounts.iter().map(|m| AccountMeta { pubkey: Pubkey { bytes: m.pubkey.to_bytes() }, is_signer: m.is_signer, is_writable: m.is_writable }).collect(),
        data: ix.data,
    })
}

/// Calls `spl_token::instruction::revoke` with no multisignature signers. The
/// contract claims that the call succeeds exactly for the ledger's own program
/// address, and that the instruction it builds removes the delegate of
/// `source`: the accounts in the order shown, the authority as the one signer,
/// and as data the tag 5.
#[verifier::external_body]
fn ledger_revoke(
    token_program_id: &Pubkey,
    source: &Pubkey,
    owner: &Pubkey,
) -> (r: Result<LedgerInstruction, solana_program::program_error::ProgramError>)
    ensures
        r is Ok <==> token_program_id.bytes == SPL_TOKEN_ID,
        r matches Ok(ix) ==> {
            &&& ix.program_id == *token_program_id
            &&& ix.accounts@ == seq![
                AccountMeta { pubkey: *source, is_signer: false, is_writable: true },
                AccountMeta { pubkey: *owner, is_signer: true, is_writable: false },
            ]
            &&& ix.data@ == seq![5u8]
        },
{
    let key = |k: &Pubkey| solana_program::pubkey::Pubkey::new_from_array(k.bytes);
    let ix = spl_token::instruction::revoke(&key(token_program_id), &key(source), &key(owner), &[])?;
    Ok(LedgerInstruction {
        program_id: Pubkey { bytes: ix.program_id.to_bytes() },
        accounts: ix.accounts.iter().map(|m| AccountMeta { pubkey: Pubkey { bytes: m.pubkey.to_bytes() }, is_signer: m.is_signer, is_writable: m.is_writable }).collect(),
        data: ix.data,
    })
}

/// Calls `spl_token::instruction::freeze_account` with no multisignature
/// signers. The contract claims that the call succeeds exactly for the
/// ledger's own program address, and that the instruction it builds freezes
/// `account`: the accounts in the order shown, the authority as the one
/// signer, and as data the tag 10.
#[verifier::external_body]
fn ledger_freeze_account(
    token_program_id: &Pubkey,
    account: &Pubkey,
    mint: &Pubkey,
    authority: &Pubkey,
) -> (r: Result<LedgerInstruction, solana_program::program_error::ProgramError>)
    ensures
        r is Ok <==> token_program_id.bytes == SPL_TOKEN_ID,
        r matches Ok(ix) ==> {
            &&& ix.program_id == *token_program_id
            &&& ix.accounts@ == ledger_accounts(*account, *mint, false, *authority)
            &&& ix.data@ == seq![10u8]
        },
{
    let key = |k: &Pubkey| solana_program::pubkey::Pubkey::new_from_array(k.bytes);
    let ix = spl_token::instruction::freeze_account(&key(token_program_id), &key(account), &key(mint), &key(authority), &[])?;
    Ok(LedgerInstruction {
        program_id: Pubkey { bytes: ix.program_id.to_bytes() },
        accounts: ix.accounts.iter().map(|m| AccountMeta { pubkey: Pubkey { bytes: m.pubkey.to_bytes() }, is_signer: m.is_signer, is_writable: m.is_writable }).collect(),
        data: ix.data,
    })
}

/// Calls `spl_token::instruction::thaw_account` with no multisignature signers.
/// The contract claims that the call succeeds exactly for the ledger's own
/// program address, and that the instruction it builds thaws `account`:
/// the accounts in the order shown, the authority as the one signer, and as
/// data the tag 11.
#[verifier::external_body]
fn ledger_thaw_account(
    token_program_id: &Pubkey,
    account: &Pubkey,
    mint: &Pubkey,
    authority: &Pubkey,
) -> (r: Result<LedgerInstruction, solana_program::program_error::ProgramError>)
    ensures
        r is Ok <==> token_program_id.bytes == SPL_TOKEN_ID,
        r matches Ok(ix) ==> {
            &&& ix.program_id == *token_program_id
            &&& ix.accounts@ == ledger_accounts(*account, *mint, false, *authority)
            &&& ix.data@ == seq![11u8]
        },
{
    let key = |k: &Pubkey| solana_program::pubkey::Pubkey::new_from_array(k.bytes);
    let ix = spl_token::instruction::thaw_account(&key(token_program_id), &key(account), &key(mint), &key(authority), &[])?;
    Ok(LedgerInstruction {
        program_id: Pubkey { bytes: ix.program_id.to_bytes() },
        accounts: ix.accounts.iter().map(|m| AccountMeta { pubkey: Pubkey { bytes: m.pubkey.to_bytes() }, is_signer: m.is_signer, is_writable: m.is_writable }).collect(),
        data: ix.data,
    })
}

/// Calls `spl_token::instruction::burn` with no multisignature signers. The
/// contract claims that the call succeeds exactly for the ledger's own program
/// address, and that the instruction it builds burns `amount` tokens of
/// `account`: the accounts in the order shown, the authority as the one
/// signer, and as data the tag 8 followed by the amount in little-endian
/// bytes.
#[verifier::external_body]
fn ledger_burn(
    token_program_id: &Pubkey,
    account: &Pubkey,
    mint: &Pubkey,
    authority: &Pubkey,
    amount: u64,
) -> (r: Result<LedgerInstruction, solana_program::program_error::ProgramError>)
    ensures
        r is Ok <==> token_program_id.bytes == SPL_TOKEN_ID,
        r matches Ok(ix) ==> {
            &&& ix.program_id == *token_program_id
            &&& ix.accounts@ == ledger_accounts(*account, *mint, true, *authority)
            &&& ix.data@ == seq![8u8] + spec_u64_to_le_bytes(amount)
        },
{
    let key = |k: &Pubkey| solana_program::pubkey::Pubkey::new_from_array(k.bytes);
    let ix = spl_token::instruction::burn(&key(token_program_id), &key(account), &key(mint), &key(authority), &[], amount)?;
    Ok(LedgerInstruction {
        program_id: Pubkey { bytes: ix.program_id.to_bytes() },
        accounts: ix.accounts.iter().map(|m| AccountMeta { pubkey: Pubkey { bytes: m.pubkey.to_bytes() }, is_signer: m.is_signer, is_writable: m.is_writable }).collect(),
        data: ix.data,
    })
}

/// Calls `spl_token::instruction::close_account` with no multisignature
/// signers. The contract claims that the call succeeds exactly for the
/// ledger's own program address, and that the instruction it builds closes
/// `account` and refunds `destination`: the accounts in the order shown, the
/// authority as the one signer, and as data the tag 9.
#[verifier::external_body]
fn ledger_close_account(
    token_program_id: &Pubkey,
    account: &Pubkey,
    destination: &Pubkey,
    owner: &Pubkey,
) -> (r: Result<LedgerInstruction, solana_program::program_error::ProgramError>)
    ensures
        r is Ok <==> token_program_id.bytes == SPL_TOKEN_ID,
        r matches Ok(ix) ==> {
            &&& ix.program_id == *token_program_id
            &&& ix.accounts@ == ledger_accounts(*account, *destination, true, *owner)
            &&& ix.data@ == seq![9u8]
        },
{
    let key = |k: &Pubkey| solana_program::pubkey::Pubkey::new_from_array(k.bytes);
    let ix = spl_token::instruction::close_account(&key(token_program_id), &key(account), &key(destination), &key(owner), &[])?;
    Ok(LedgerInstruction {
        program_id: Pubkey { bytes: ix.program_id.to_bytes() },
        accounts: ix.accounts.iter().map(|m| AccountMeta { pubkey: Pubkey { bytes: m.pubkey.to_bytes() }, is_signer: m.is_signer, is_writable: m.is_writable }).collect(),
        data: ix.data,
    })
}

/// Calls `spl_token::instruction::transfer` with no multisignature signers.
/// The contract claims that the call succeeds exactly for the ledger's own
/// program address, and that the instruction it builds moves `amount` tokens
/// from `source` to `destination`: the accounts in the order shown, the
/// authority as the one signer, and as data the tag 3 followed by the amount
/// in little-endian bytes.
#[verifier::external_body]
fn ledger_transfer(
    token_program_id: &Pubkey,
    source: &Pubkey,
    destination: &Pubkey,
    authority: &Pubkey,
    amount: u64,
) -> (r: Result<LedgerInstruction, solana_program::program_error::ProgramError>)
    ensures
        r is Ok <==> token_program_id.bytes == SPL_TOKEN_ID,
        r matches Ok(ix) ==> {
            &&& ix.program_id == *token_program_id
            &&& ix.accounts@ == ledger_accounts(*source, *destination, true, *authority)
            &&& ix.data@ == seq![3u8] + spec_u64_to_le_bytes(amount)
        },
{
    let key = |k: &Pubkey| solana_program::pubkey::Pubkey::new_from_array(k.bytes);
    let ix = spl_token::instruction::transfer(&key(token_program_id), &key(source), &key(destination), &key(authority), &[], amount)?;
    Ok(LedgerInstruction {
        program_id: Pubkey { bytes: ix.program_id.to_bytes() },
        accounts: ix.accounts.iter().map(|m| AccountMeta { pubkey: Pubkey { bytes: m.pubkey.to_bytes() }, is_signer: m.is_signer, is_writable: m.is_writable }).collect(),
        data: ix.data,
    })
}

/// One change that an operation asks of the token ledger.
#[derive(Clone, Copy, Debug, PartialEq, Eq)]
pub enum LedgerAction {
    /// Let `delegate` spend up to `amount` from `source`.
    Approve { source: Pubkey, delegate: Pubkey, owner: Pubkey, amount: u64 },
    /// Remove the delegate of `source`.
    Revoke { source: Pubkey, owner: Pubkey },
    /// Freeze `account`: its balance can be neither moved nor burned.
    Freeze { account: Pubkey, mint: Pubkey, authority: Pubkey },
    /// Thaw `account`.
    Thaw { account: Pubkey, mint: Pubkey, authority: Pubkey },
    /// Burn `amount` tokens of `account`.
    Burn { account: Pubkey, mint: Pubkey, authority: Pubkey, amount: u64 },
    /// Close `account` and refund `destination`.
    CloseAccount { account: Pubkey, destination: Pubkey, owner: Pubkey },
    /// Move `amount` tokens from `source` to `destination`.
    Transfer { source: Pubkey, destination: Pubkey, authority: Pubkey, amount: u64 },
}

impl LedgerAction {
    /// The accounts that the ledger instruction of the action binds.
    pub open spec fn accounts(self) -> Seq<AccountMeta> {
        match self {
            LedgerAction::Approve { source, delegate, owner, .. } => ledger_accounts(
                source,
                delegate,
                false,
                owner,
            ),
            LedgerAction::Revoke { source, owner } => seq![
                AccountMeta { pubkey: source, is_signer: false, is_writable: true },
                AccountMeta { pubkey: owner, is_signer: true, is_writable: false },
            ],
            LedgerAction::Freeze { account, mint, authority } => ledger_accounts(
                account,
                mint,
                false,
                authority,
            ),
            LedgerAction::Thaw { account, mint, authority } => ledger_accounts(
                account,
                mint,
                false,
                authority,
            ),
            LedgerAction::Burn { account, mint, authority, .. } => ledger_accounts(
                account,
                mint,
                true,
                authority,
            ),
            LedgerAction::CloseAccount { account, destination, owner } => ledger_accounts(
                account,
                destination,
                true,
                owner,
            ),
            LedgerAction::Transfer { source, destination, authority, .. } => ledger_accounts(
                source,
                destination,
                true,
                authority,
            ),
        }
    }

    /// The data of the ledger instruction of the action: its tag, and the
    /// amount where it has one.
    pub open spec fn data(self) -> Seq<u8> {
        match self {
            LedgerAction::Approve { amount, .. } => seq![4u8] + spec_u64_to_le_bytes(amount),
            LedgerAction::Revoke { .. } => seq![5u8],
            LedgerAction::Freeze { .. } => seq![10u8],
            LedgerAction::Thaw { .. } => seq![11u8],
            LedgerAction::Burn { amount, .. } => seq![8u8] + spec_u64_to_le_bytes(amount),
            LedgerAction::CloseAccount { .. } => seq![9u8],
            LedgerAction::Transfer { amount, .. } => seq![3u8] + spec_u64_to_le_bytes(amount),
        }
    }

    /// The ledger instruction of the action, for the ledger at
    /// `token_program_id`; `IncorrectProgramId` where that is not the
    /// address of the ledger.
    pub open spec fn spec_instruction(self, token_program_id: Pubkey) -> Result<
        LedgerInstructionView,
        OperationError,
    > {
        if token_program_id.bytes == SPL_TOKEN_ID {
            Ok(
                LedgerInstructionView {
                    program_id: token_program_id,
                    accounts: self.accounts(),
                    data: self.data(),
                },
            )
        } else {
            Err(OperationError::IncorrectProgramId)
        }
    }

    /// Builds the instruction that asks the ledger for this action.
    pub fn instruction(&self, token_program_id: &Pubkey) -> (r: Result<
        LedgerInstruction,
        OperationError,
    >)
        ensures
            r is Ok <==> self.spec_instruction(*token_program_id) is Ok,
            r matches Ok(ix) ==> self.spec_instruction(*token_program_id) == Ok::<
                LedgerInstructionView,
                OperationError,
            >(ix@),
            r matches Err(e) ==> e == OperationError::IncorrectProgramId,
    {
        let built = match self {
            LedgerAction::Approve { source, delegate, owner, amount } => ledger_approve(
                token_program_id,
                source,
                delegate,
                owner,
                *amount,
            ),
            LedgerAction::Revoke { source, owner } => ledger_revoke(token_program_id, source, owner),
            LedgerAction::Freeze { account, mint, authority } => ledger_freeze_account(
                token_program_id,
                account,
                mint,
                authority,
            ),
            LedgerAction::Thaw { account, mint, authority } => ledger_thaw_account(
                token_program_id,
                account,
                mint,
                authority,
            ),
            LedgerAction::Burn { account, mint, authority, amount } => ledger_burn(
                token_program_id,
                account,
                mint,
                authority,
                *amount,
            ),
            LedgerAction::CloseAccount { account, destination, owner } => ledger_close_account(
                token_program_id,
                account,
                destination,
                owner,
            ),
            LedgerAction::Transfer { source, destination, authority, amount } => ledger_transfer(
                token_program_id,
                source,
                destination,
                authority,
                *amount,
            ),
        };
        match built {
            Ok(ix) => Ok(ix),
            Err(_) => Err(OperationError::IncorrectProgramId),
        }
    }
}

/// Whether a token account is frozen after the ledger has carried out
/// `actions`, first to last, on an account that was `frozen` before.
pub open spec fn frozen_after(actions: Seq<LedgerAction>, frozen: bool) -> bool
    decreases actions.len(),
{
    if actions.len() == 0 {
        frozen
    } else {
        match actions.last() {
            LedgerAction::Freeze { .. } => true,
            LedgerAction::Thaw { .. } => false,
            _ => frozen_after(actions.drop_last(), frozen),
        }
    }
}

} // verus!
