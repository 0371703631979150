use crate::ids::{auth_rules_id, id, system_program_id, AUTH_RULES_ID, SYSTEM_PROGRAM_ID, TOKEN_METADATA_ID};
use crate::instruction::builders::{Create, Migrate, Mint, Transfer, Update};
use crate::instruction::{
    optional_readonly, optional_writable, AuthorizationData, Instruction, InstructionBuilder,
    MetadataInstruction,
};
use crate::ledger::AccountMeta;
use crate::pubkey::Pubkey;
use crate::state::{
    AssetData, Collection, CollectionDetails, Creator, Data, DataV2, MigrationType,
    ProgrammableConfig, Uses,
};
use vstd::prelude::*;

verus! {

/// The kind of authority that a request claims to act under.
#[derive(Clone, Copy, Debug, PartialEq, Eq, Structural)]
pub enum AuthorityType {
    Metadata,
    Delegate,
    Holder,
    Other,
}

//----------------------+
// Instruction args     |
//----------------------+
/// Args for create call
#[derive(Clone, Debug, PartialEq, Eq)]
pub struct CreateMetadataAccountArgsV3 {
    /// Note that unique metadatas are disabled for now.
    pub data: DataV2,
    /// Whether you want your metadata to be updateable in the future.
    pub is_mutable: bool,
    /// If this is a collection parent NFT.
    pub collection_details: Option<CollectionDetails>,
}

#[derive(Clone, Debug, PartialEq, Eq)]
pub enum CreateArgs {
    V1 { asset_data: AssetData, decimals: Option<u8>, max_supply: Option<u64> },
}

#[derive(Clone, Debug, PartialEq, Eq)]
pub enum MintArgs {
    V1 { amount: u64, authorization_data: Option<AuthorizationData> },
}

#[derive(Clone, Debug, PartialEq, Eq)]
pub enum TransferArgs {
    V1 { authorization_data: Option<AuthorizationData>, amount: u64 },
}

/// The values to be updated by an update.
///
/// Values that are `None` are not changed; any value set to `Some(_)` will
/// have its value updated. There are properties that have three valid states,
/// which allow the value to remain the same, to be cleared or to be set to a
/// new value.
#[derive(Clone, Debug, PartialEq, Eq)]
pub enum UpdateArgs {
    V1 {
        /// The type of authority requesting the update.
        authority_type: AuthorityType,
        /// Required authorization data to validate the request.
        authorization_data: Option<AuthorizationData>,
        /// The new update authority.
        new_update_authority: Option<Pubkey>,
        /// The metadata details.
        data: Option<Data>,
        /// Indicates whether the primary sale has happened or not (once set
        /// to `true`, it cannot be changed back).
        primary_sale_happened: Option<bool>,
        /// Indicates whether the data struct is mutable or not (once set to
        /// `false`, it cannot be changed back).
        is_mutable: Option<bool>,
        /// Collection information.
        collection: CollectionToggle,
        /// Additional details of the collection.
        collection_details: CollectionDetailsToggle,
        /// Uses information.
        uses: UsesToggle,
        /// Programmable configuration (only applicable to programmable
        /// asset types).
        programmable_config: ProgrammableConfigToggle,
    },
}

impl UpdateArgs {
    pub open spec fn spec_get_authority_type(&self) -> AuthorityType {
        match self {
            UpdateArgs::V1 { authority_type, .. } => *authority_type,
        }
    }

    #[verifier::when_used_as_spec(spec_get_authority_type)]
    pub fn get_authority_type(&self) -> (authority_type: AuthorityType)
        ensures
            authority_type == self.spec_get_authority_type(),
    {
        match self {
            UpdateArgs::V1 { authority_type, .. } => *authority_type,
        }
    }

    /// The arguments that change nothing: every optional value absent and
    /// every toggle `Keep`.
    pub open spec fn changes_nothing(&self) -> bool {
        match self {
            UpdateArgs::V1 {
                new_update_authority,
                data,
                primary_sale_happened,
                is_mutable,
                collection,
                collection_details,
                uses,
                programmable_config,
                ..
            } => new_update_authority is None && data is None && primary_sale_happened is None
                && is_mutable is None && collection is Keep && collection_details is Keep
                && uses is Keep && programmable_config is Keep,
        }
    }
}

impl Default for UpdateArgs {
    fn default() -> (args: Self)
        ensures
            args.changes_nothing(),
            args.get_authority_type() == AuthorityType::Metadata,
            args matches UpdateArgs::V1 { authorization_data, .. } && authorization_data is None,
    {
        Self::V1 {
            authority_type: AuthorityType::Metadata,
            authorization_data: None,
            new_update_authority: None,
            data: None,
            primary_sale_happened: None,
            is_mutable: None,
            collection: CollectionToggle::Keep,
            uses: UsesToggle::Keep,
            collection_details: CollectionDetailsToggle::Keep,
            programmable_config: ProgrammableConfigToggle::Keep,
        }
    }
}

//-- Toggle implementations
/// What an update does to the collection: keep it, clear it, or replace it.
#[derive(Clone, Copy, Debug, PartialEq, Eq)]
pub enum CollectionToggle {
    Keep,
    Clear,
    Replace(Collection),
}

impl CollectionToggle {
    pub open spec fn spec_is_some(&self) -> bool {
        *self is Clear || *self is Replace
    }

    /// The toggle asks for a change.
    #[verifier::when_used_as_spec(spec_is_some)]
    pub fn is_some(&self) -> (b: bool)
        ensures
            b == self.spec_is_some(),
    {
        matches!(self, CollectionToggle::Clear | CollectionToggle::Replace(_))
    }

    pub open spec fn spec_is_none(&self) -> bool {
        *self is Keep
    }

    /// The toggle leaves the value as it is.
    #[verifier::when_used_as_spec(spec_is_none)]
    pub fn is_none(&self) -> (b: bool)
        ensures
            b == self.spec_is_none(),
    {
        matches!(self, CollectionToggle::Keep)
    }

    pub open spec fn spec_is_clear(&self) -> bool {
        *self is Clear
    }

    /// The toggle resets the value to empty.
    #[verifier::when_used_as_spec(spec_is_clear)]
    pub fn is_clear(&self) -> (b: bool)
        ensures
            b == self.spec_is_clear(),
    {
        matches!(self, CollectionToggle::Clear)
    }

    pub open spec fn spec_is_set(&self) -> bool {
        *self is Replace
    }

    /// The toggle replaces the value.
    #[verifier::when_used_as_spec(spec_is_set)]
    pub fn is_set(&self) -> (b: bool)
        ensures
            b == self.spec_is_set(),
    {
        matches!(self, CollectionToggle::Replace(_))
    }

    /// The value that a toggle which asks for a change leaves behind.
    pub open spec fn spec_to_option(self) -> Option<Collection> {
        match self {
            CollectionToggle::Replace(value) => Some(value),
            _ => None,
        }
    }

    /// The value to store for a toggle that asks for a change. A toggle that
    /// asks for none has no such value.
    pub fn to_option(self) -> (value: Option<Collection>)
        requires
            !self.is_none(),
        ensures
            value == self.spec_to_option(),
            value is None <==> self.is_clear(),
    {
        match self {
            CollectionToggle::Replace(value) => Some(value),
            _ => None,
        }
    }
}

/// What an update does to the uses: keep them, clear them, or replace them.
#[derive(Clone, Copy, Debug, PartialEq, Eq)]
pub enum UsesToggle {
    Keep,
    Clear,
    Replace(Uses),
}

impl UsesToggle {
    pub open spec fn spec_is_some(&self) -> bool {
        *self is Clear || *self is Replace
    }

    /// The toggle asks for a change.
    #[verifier::when_used_as_spec(spec_is_some)]
    pub fn is_some(&self) -> (b: bool)
        ensures
            b == self.spec_is_some(),
    {
        matches!(self, UsesToggle::Clear | UsesToggle::Replace(_))
    }

    pub open spec fn spec_is_none(&self) -> bool {
        *self is Keep
    }

    /// The toggle leaves the value as it is.
    #[verifier::when_used_as_spec(spec_is_none)]
    pub fn is_none(&self) -> (b: bool)
        ensures
            b == self.spec_is_none(),
    {
        matches!(self, UsesToggle::Keep)
    }

    pub open spec fn spec_is_clear(&self) -> bool {
        *self is Clear
    }

    /// The toggle resets the value to empty.
    #[verifier::when_used_as_spec(spec_is_clear)]
    pub fn is_clear(&self) -> (b: bool)
        ensures
            b == self.spec_is_clear(),
    {
        matches!(self, UsesToggle::Clear)
    }

    pub open spec fn spec_is_set(&self) -> bool {
        *self is Replace
    }

    /// The toggle replaces the value.
    #[verifier::when_used_as_spec(spec_is_set)]
    pub fn is_set(&self) -> (b: bool)
        ensures
            b == self.spec_is_set(),
    {
        matches!(self, UsesToggle::Replace(_))
    }

    /// The value that a toggle which asks for a change leaves behind.
    pub open spec fn spec_to_option(self) -> Option<Uses> {
        match self {
            UsesToggle::Replace(value) => Some(value),
            _ => None,
        }
    }

    /// The value to store for a toggle that asks for a change. A toggle that
    /// asks for none has no such value.
    pub fn to_option(self) -> (value: Option<Uses>)
        requires
            !self.is_none(),
        ensures
            value == self.spec_to_option(),
            value is None <==> self.is_clear(),
    {
        match self {
            UsesToggle::Replace(value) => Some(value),
            _ => None,
        }
    }
}

/// What an update does to the collection details: keep them, clear them, or
/// replace them.
#[derive(Clone, Copy, Debug, PartialEq, Eq)]
pub enum CollectionDetailsToggle {
    Keep,
    Clear,
    Replace(CollectionDetails),
}

impl CollectionDetailsToggle {
    pub open spec fn spec_is_some(&self) -> bool {
        *self is Clear || *self is Replace
    }

    /// The toggle asks for a change.
    #[verifier::when_used_as_spec(spec_is_some)]
    pub fn is_some(&self) -> (b: bool)
        ensures
            b == self.spec_is_some(),
    {
        matches!(self, CollectionDetailsToggle::Clear | CollectionDetailsToggle::Replace(_))
    }

    pub open spec fn spec_is_none(&self) -> bool {
        *self is Keep
    }

    /// The toggle leaves the value as it is.
    #[verifier::when_used_as_spec(spec_is_none)]
    pub fn is_none(&self) -> (b: bool)
        ensures
            b == self.spec_is_none(),
    {
        matches!(self, CollectionDetailsToggle::Keep)
    }

    pub open spec fn spec_is_clear(&self) -> bool {
        *self is Clear
    }

    /// The toggle resets the value to empty.
    #[verifier::when_used_as_spec(spec_is_clear)]
    pub fn is_clear(&self) -> (b: bool)
        ensures
            b == self.spec_is_clear(),
    {
        matches!(self, CollectionDetailsToggle::Clear)
    }

    pub open spec fn spec_is_set(&self) -> bool {
        *self is Replace
    }

    /// The toggle replaces the value.
    #[verifier::when_used_as_spec(spec_is_set)]
    pub fn is_set(&self) -> (b: bool)
        ensures
            b == self.spec_is_set(),
    {
        matches!(self, CollectionDetailsToggle::Replace(_))
    }

    /// The value that a toggle which asks for a change leaves behind.
    pub open spec fn spec_to_option(self) -> Option<CollectionDetails> {
        match self {
            CollectionDetailsToggle::Replace(value) => Some(value),
            _ => None,
        }
    }

    /// The value to store for a toggle that asks for a change. A toggle that
    /// asks for none has no such value.
    pub fn to_option(self) -> (value: Option<CollectionDetails>)
        requires
            !self.is_none(),
        ensures
            value == self.spec_to_option(),
            value is None <==> self.is_clear(),
    {
        match self {
            CollectionDetailsToggle::Replace(value) => Some(value),
            _ => None,
        }
    }
}

/// What an update does to the programmable configuration: keep it, clear
/// it, or replace it.
#[derive(Clone, Copy, Debug, PartialEq, Eq)]
pub enum ProgrammableConfigToggle {
    Keep,
    Clear,
    Replace(ProgrammableConfig),
}

impl ProgrammableConfigToggle {
    pub open spec fn spec_is_some(&self) -> bool {
        *self is Clear || *self is Replace
    }

    /// The toggle asks for a change.
    #[verifier::when_used_as_spec(spec_is_some)]
    pub fn is_some(&self) -> (b: bool)
        ensures
            b == self.spec_is_some(),
    {
        matches!(self, ProgrammableConfigToggle::Clear | ProgrammableConfigToggle::Replace(_))
    }

    pub open spec fn spec_is_none(&self) -> bool {
        *self is Keep
    }

    /// The toggle leaves the value as it is.
    #[verifier::when_used_as_spec(spec_is_none)]
    pub fn is_none(&self) -> (b: bool)
        ensures
            b == self.spec_is_none(),
    {
        matches!(self, ProgrammableConfigToggle::Keep)
    }

    pub open spec fn spec_is_clear(&self) -> bool {
        *self is Clear
    }

    /// The toggle resets the value to empty.
    #[verifier::when_used_as_spec(spec_is_clear)]
    pub fn is_clear(&self) -> (b: bool)
        ensures
            b == self.spec_is_clear(),
    {
        matches!(self, ProgrammableConfigToggle::Clear)
    }

    pub open spec fn spec_is_set(&self) -> bool {
        *self is Replace
    }

    /// The toggle replaces the value.
    #[verifier::when_used_as_spec(spec_is_set)]
    pub fn is_set(&self) -> (b: bool)
        ensures
            b == self.spec_is_set(),
    {
        matches!(self, ProgrammableConfigToggle::Replace(_))
    }

    /// The value that a toggle which asks for a change leaves behind.
    pub open spec fn spec_to_option(self) -> Option<ProgrammableConfig> {
        match self {
            ProgrammableConfigToggle::Replace(value) => Some(value),
            _ => None,
        }
    }

    /// The value to store for a toggle that asks for a change. A toggle that
    /// asks for none has no such value.
    pub fn to_option(self) -> (value: Option<ProgrammableConfig>)
        requires
            !self.is_none(),
        ensures
            value == self.spec_to_option(),
            value is None <==> self.is_clear(),
    {
        match self {
            ProgrammableConfigToggle::Replace(t) => Some(t),
            _ => None,
        }
    }
}

//-- End Toggle implementation
#[derive(Clone, Debug, PartialEq, Eq)]
pub enum MigrateArgs {
    V1 { migration_type: MigrationType, rule_set: Option<Pubkey> },
}

/// Args for update call
#[derive(Clone, Debug, PartialEq, Eq)]
pub struct UpdateMetadataAccountArgsV2 {
    pub data: Option<DataV2>,
    pub update_authority: Option<Pubkey>,
    pub primary_sale_happened: Option<bool>,
    pub is_mutable: Option<bool>,
}

//----------------------+
// Instruction builders |
//----------------------+
/// The address of the system program.
pub open spec fn spec_system_program() -> Pubkey {
    Pubkey { bytes: SYSTEM_PROGRAM_ID }
}

/// The address of this program, which also fills the place of an optional
/// account that is absent.
pub open spec fn spec_id() -> Pubkey {
    Pubkey { bytes: TOKEN_METADATA_ID }
}

/// The address of the policy engine.
pub open spec fn spec_auth_rules() -> Pubkey {
    Pubkey { bytes: AUTH_RULES_ID }
}

/// The two places at the end of an account list that name the policy engine
/// and the rule set, or hold the address of this program when the request
/// names no rule set.
pub open spec fn spec_rules_accounts(program: Pubkey, rules: Option<Pubkey>) -> Seq<AccountMeta> {
    match rules {
        Some(rules) => seq![
            AccountMeta::spec_new_readonly(program, false),
            AccountMeta::spec_new_readonly(rules, false),
        ],
        None => seq![
            AccountMeta::spec_new_readonly(spec_id(), false),
            AccountMeta::spec_new_readonly(spec_id(), false),
        ],
    }
}

/// Appends the places of the policy engine and of the rule set.
fn push_rules_accounts(accounts: &mut Vec<AccountMeta>, program: Pubkey, rules: Option<Pubkey>)
    ensures
        final(accounts)@ == old(accounts)@ + spec_rules_accounts(program, rules),
{
    match rules {
        Some(rules) => {
            accounts.push(AccountMeta::new_readonly(program, false));
            accounts.push(AccountMeta::new_readonly(rules, false));
        },
        None => {
            accounts.push(AccountMeta::new_readonly(id(), false));
            accounts.push(AccountMeta::new_readonly(id(), false));
        },
    }
    assert(accounts@ =~= old(accounts)@ + spec_rules_accounts(program, rules));
}

/// Creates the instruction that creates a metadata account, with collection
/// details.
///
/// Accounts:
///
///   0. `[writable]` Metadata account
///   1. `[]` Mint account
///   2. `[signer]` Mint authority
///   3. `[signer]` payer
///   4. `[signer]` Update authority
///   5. `[]` System program
pub fn create_metadata_accounts_v3(
    program_id: Pubkey,
    metadata_account: Pubkey,
    mint: Pubkey,
    mint_authority: Pubkey,
    payer: Pubkey,
    update_authority: Pubkey,
    name: String,
    symbol: String,
    uri: String,
    creators: Option<Vec<Creator>>,
    seller_fee_basis_points: u16,
    update_authority_is_signer: bool,
    is_mutable: bool,
    collection: Option<Collection>,
    uses: Option<Uses>,
    collection_details: Option<CollectionDetails>,
) -> (ix: Instruction)
    ensures
        ix.program_id == program_id,
        ix.accounts@ == seq![
            AccountMeta::spec_new(metadata_account, false),
            AccountMeta::spec_new_readonly(mint, false),
            AccountMeta::spec_new_readonly(mint_authority, true),
            AccountMeta::spec_new(payer, true),
            AccountMeta::spec_new_readonly(update_authority, update_authority_is_signer),
            AccountMeta::spec_new_readonly(spec_system_program(), false),
        ],
        ix.data == MetadataInstruction::CreateMetadataAccountV3(
            (CreateMetadataAccountArgsV3 {
                data: (DataV2 {
                    name,
                    symbol,
                    uri,
                    seller_fee_basis_points,
                    creators,
                    collection,
                    uses,
                }),
                is_mutable,
                collection_details,
            }),
        ),
{
    let system = system_program_id();
    proof {
        Pubkey::lemma_view_injective(system, spec_system_program());
    }
    Instruction {
        program_id,
        accounts: vec![
            AccountMeta::new(metadata_account, false),
            AccountMeta::new_readonly(mint, false),
            AccountMeta::new_readonly(mint_authority, true),
            AccountMeta::new(payer, true),
            AccountMeta::new_readonly(update_authority, update_authority_is_signer),
            AccountMeta::new_readonly(system, false),
        ],
        data: MetadataInstruction::CreateMetadataAccountV3(
            CreateMetadataAccountArgsV3 {
                data: DataV2 {
                    name,
                    symbol,
                    uri,
                    seller_fee_basis_points,
                    creators,
                    collection,
                    uses,
                },
                is_mutable,
                collection_details,
            },
        ),
    }
}

/// Creates the instruction that pads the metadata account to its full size.
pub fn puff_metadata_account(program_id: Pubkey, metadata_account: Pubkey) -> (ix: Instruction)
    ensures
        ix.program_id == program_id,
        ix.accounts@ == seq![AccountMeta::spec_new(metadata_account, false)],
        ix.data == MetadataInstruction::PuffMetadata,
{
    Instruction {
        program_id,
        accounts: vec![AccountMeta::new(metadata_account, false)],
        data: MetadataInstruction::PuffMetadata,
    }
}

/// Creates the instruction by which a creator takes back their verification.
pub fn remove_creator_verification(program_id: Pubkey, metadata: Pubkey, creator: Pubkey) -> (ix:
    Instruction)
    ensures
        ix.program_id == program_id,
        ix.accounts@ == seq![
            AccountMeta::spec_new(metadata, false),
            AccountMeta::spec_new_readonly(creator, true),
        ],
        ix.data == MetadataInstruction::RemoveCreatorVerification,
{
    Instruction {
        program_id,
        accounts: vec![
            AccountMeta::new(metadata, false),
            AccountMeta::new_readonly(creator, true),
        ],
        data: MetadataInstruction::RemoveCreatorVerification,
    }
}

/// The accounts of the instruction that sets the token standard: the
/// edition comes last, and only if there is one.
pub open spec fn set_token_standard_accounts(
    metadata_account: Pubkey,
    update_authority: Pubkey,
    mint_account: Pubkey,
    edition_account: Option<Pubkey>,
) -> Seq<AccountMeta> {
    let fixed = seq![
        AccountMeta::spec_new(metadata_account, false),
        AccountMeta::spec_new(update_authority, true),
        AccountMeta::spec_new_readonly(mint_account, false),
    ];
    match edition_account {
        Some(edition_account) => fixed.push(AccountMeta::spec_new_readonly(edition_account, false)),
        None => fixed,
    }
}

/// Creates the instruction that sets the token standard of an asset.
pub fn set_token_standard(
    program_id: Pubkey,
    metadata_account: Pubkey,
    update_authority: Pubkey,
    mint_account: Pubkey,
    edition_account: Option<Pubkey>,
) -> (ix: Instruction)
    ensures
        ix.program_id == program_id,
        ix.accounts@ == set_token_standard_accounts(
            metadata_account,
            update_authority,
            mint_account,
            edition_account,
        ),
        ix.data == MetadataInstruction::SetTokenStandard,
{
    let mut accounts = vec![
        AccountMeta::new(metadata_account, false),
        AccountMeta::new(update_authority, true),
        AccountMeta::new_readonly(mint_account, false),
    ];
    let data = MetadataInstruction::SetTokenStandard;

    if let Some(edition_account) = edition_account {
        accounts.push(AccountMeta::new_readonly(edition_account, false));
    }
    assert(accounts@ =~= set_token_standard_accounts(
        metadata_account,
        update_authority,
        mint_account,
        edition_account,
    ));

    Instruction { program_id, accounts, data }
}

/// Creates the instruction by which a creator verifies the metadata.
pub fn sign_metadata(program_id: Pubkey, metadata: Pubkey, creator: Pubkey) -> (ix: Instruction)
    ensures
        ix.program_id == program_id,
        ix.accounts@ == seq![
            AccountMeta::spec_new(metadata, false),
            AccountMeta::spec_new_readonly(creator, true),
        ],
        ix.data == MetadataInstruction::SignMetadata,
{
    Instruction {
        program_id,
        accounts: vec![
            AccountMeta::new(metadata, false),
            AccountMeta::new_readonly(creator, true),
        ],
        data: MetadataInstruction::SignMetadata,
    }
}

/// Creates the instruction that updates a metadata account.
pub fn update_metadata_accounts_v2(
    program_id: Pubkey,
    metadata_account: Pubkey,
    update_authority: Pubkey,
    new_update_authority: Option<Pubkey>,
    data: Option<DataV2>,
    primary_sale_happened: Option<bool>,
    is_mutable: Option<bool>,
) -> (ix: Instruction)
    ensures
        ix.program_id == program_id,
        ix.accounts@ == seq![
            AccountMeta::spec_new(metadata_account, false),
            AccountMeta::spec_new_readonly(update_authority, true),
        ],
        ix.data == MetadataInstruction::UpdateMetadataAccountV2(
            (UpdateMetadataAccountArgsV2 {
                data,
                update_authority: new_update_authority,
                primary_sale_happened,
                is_mutable,
            }),
        ),
{
    Instruction {
        program_id,
        accounts: vec![
            AccountMeta::new(metadata_account, false),
            AccountMeta::new_readonly(update_authority, true),
        ],
        data: MetadataInstruction::UpdateMetadataAccountV2(
            UpdateMetadataAccountArgsV2 {
                data,
                update_authority: new_update_authority,
                primary_sale_happened,
                is_mutable,
            },
        ),
    }
}

/// Creates the instruction by which the holder of a token records that the
/// primary sale has happened.
pub fn update_primary_sale_happened_via_token(
    program_id: Pubkey,
    metadata: Pubkey,
    owner: Pubkey,
    token: Pubkey,
) -> (ix: Instruction)
    ensures
        ix.program_id == program_id,
        ix.accounts@ == seq![
            AccountMeta::spec_new(metadata, false),
            AccountMeta::spec_new_readonly(owner, true),
            AccountMeta::spec_new_readonly(token, false),
        ],
        ix.data == MetadataInstruction::UpdatePrimarySaleHappenedViaToken,
{
    Instruction {
        program_id,
        accounts: vec![
            AccountMeta::new(metadata, false),
            AccountMeta::new_readonly(owner, true),
            AccountMeta::new_readonly(token, false),
        ],
        data: MetadataInstruction::UpdatePrimarySaleHappenedViaToken,
    }
}

//- Instruction Builders trait implementation
/// Builds the instruction to create metadata and associated accounts.
///
/// Accounts:
///
///   0. `[writable]` Metadata account
///   1. `[optional, writable]` Master edition account
///   2. `[writable]` Mint account
///   3. `[signer]` Mint authority
///   4. `[signer]` Payer
///   5. `[signer]` Update authority
///   6. `[]` System program
///   7. `[]` Instructions sysvar account
///   8. `[]` SPL Token program
impl InstructionBuilder for Create {
    open spec fn spec_instruction(self) -> (Pubkey, Seq<AccountMeta>, MetadataInstruction) {
        (
            spec_id(),
            seq![
                AccountMeta::spec_new(self.metadata, false),
                optional_writable(self.master_edition, spec_id()),
                AccountMeta::spec_new(self.mint, self.initialize_mint),
                AccountMeta::spec_new_readonly(self.mint_authority, true),
                AccountMeta::spec_new(self.payer, true),
                AccountMeta::spec_new_readonly(
                    self.update_authority,
                    self.update_authority_as_signer,
                ),
                AccountMeta::spec_new_readonly(self.system_program, false),
                AccountMeta::spec_new_readonly(self.sysvar_instructions, false),
                AccountMeta::spec_new_readonly(self.spl_token_program, false),
            ],
            MetadataInstruction::Create(self.args),
        )
    }

    fn instruction(self) -> (ix: Instruction) {
        let accounts = vec![
            AccountMeta::new(self.metadata, false),
            // checks whether we have a master edition
            optional_writable(self.master_edition, id()),
            AccountMeta::new(self.mint, self.initialize_mint),
            AccountMeta::new_readonly(self.mint_authority, true),
            AccountMeta::new(self.payer, true),
            AccountMeta::new_readonly(self.update_authority, self.update_authority_as_signer),
            AccountMeta::new_readonly(self.system_program, false),
            AccountMeta::new_readonly(self.sysvar_instructions, false),
            AccountMeta::new_readonly(self.spl_token_program, false),
        ];

        Instruction { program_id: id(), accounts, data: MetadataInstruction::Create(self.args) }
    }
}

impl InstructionBuilder for Migrate {
    open spec fn spec_instruction(self) -> (Pubkey, Seq<AccountMeta>, MetadataInstruction) {
        (
            spec_id(),
            seq![
                AccountMeta::spec_new(self.metadata, false),
                AccountMeta::spec_new_readonly(self.edition, false),
                AccountMeta::spec_new(self.token, false),
                AccountMeta::spec_new_readonly(self.mint, false),
                AccountMeta::spec_new(self.payer, true),
                AccountMeta::spec_new_readonly(self.authority, true),
                AccountMeta::spec_new_readonly(self.collection_metadata, false),
                AccountMeta::spec_new_readonly(self.system_program, false),
                AccountMeta::spec_new_readonly(self.sysvar_instructions, false),
                AccountMeta::spec_new_readonly(self.spl_token_program, false),
            ] + spec_rules_accounts(spec_auth_rules(), self.authorization_rules),
            MetadataInstruction::Migrate(self.args),
        )
    }

    fn instruction(self) -> (ix: Instruction) {
        let mut accounts = vec![
            AccountMeta::new(self.metadata, false),
            AccountMeta::new_readonly(self.edition, false),
            AccountMeta::new(self.token, false),
            AccountMeta::new_readonly(self.mint, false),
            AccountMeta::new(self.payer, true),
            AccountMeta::new_readonly(self.authority, true),
            AccountMeta::new_readonly(self.collection_metadata, false),
            AccountMeta::new_readonly(self.system_program, false),
            AccountMeta::new_readonly(self.sysvar_instructions, false),
            AccountMeta::new_readonly(self.spl_token_program, false),
        ];
        // Optional authorization rules accounts
        let engine = auth_rules_id();
        proof {
            Pubkey::lemma_view_injective(engine, spec_auth_rules());
        }
        push_rules_accounts(&mut accounts, engine, self.authorization_rules);

        Instruction { program_id: id(), accounts, data: MetadataInstruction::Migrate(self.args) }
    }
}

/// Mints tokens from a mint account.
///
/// Accounts:
///
///   0. `[writable]` Token account key
///   1. `[optional]` Owner of the token account
///   2. `[writable]` Mint of token asset
///   3. `[]` Metadata account key
///   4. `[optional]` Master Edition account
///   5. `[signer, writable]` Payer
///   6. `[signer]` Authority (mint authority or metadata's update authority
///      for non-fungible assets)
///   7. `[]` System program
///   8. `[]` Instructions sysvar account
///   9. `[]` SPL Token program
///   10. `[]` SPL Associated Token Account program
///   11. `[optional]` Token Authorization Rules program
///   12. `[optional]` Token Authorization Rules account
impl InstructionBuilder for Mint {
    open spec fn spec_instruction(self) -> (Pubkey, Seq<AccountMeta>, MetadataInstruction) {
        (
            spec_id(),
            seq![
                AccountMeta::spec_new(self.token, false),
                optional_readonly(self.token_owner, spec_id()),
                AccountMeta::spec_new(self.mint, false),
                AccountMeta::spec_new_readonly(self.metadata, false),
                optional_readonly(self.master_edition, spec_id()),
                AccountMeta::spec_new(self.payer, true),
                AccountMeta::spec_new_readonly(self.authority, true),
                AccountMeta::spec_new_readonly(self.system_program, false),
                AccountMeta::spec_new_readonly(self.sysvar_instructions, false),
                AccountMeta::spec_new_readonly(self.spl_token_program, false),
                AccountMeta::spec_new_readonly(self.spl_ata_program, false),
            ] + spec_rules_accounts(spec_auth_rules(), self.authorization_rules),
            MetadataInstruction::Mint(self.args),
        )
    }

    fn instruction(self) -> (ix: Instruction) {
        let mut accounts = vec![
            AccountMeta::new(self.token, false),
            optional_readonly(self.token_owner, id()),
            AccountMeta::new(self.mint, false),
            AccountMeta::new_readonly(self.metadata, false),
            optional_readonly(self.master_edition, id()),
            AccountMeta::new(self.payer, true),
            AccountMeta::new_readonly(self.authority, true),
            AccountMeta::new_readonly(self.system_program, false),
            AccountMeta::new_readonly(self.sysvar_instructions, false),
            AccountMeta::new_readonly(self.spl_token_program, false),
            AccountMeta::new_readonly(self.spl_ata_program, false),
        ];
        // Optional authorization rules accounts
        let engine = auth_rules_id();
        proof {
            Pubkey::lemma_view_injective(engine, spec_auth_rules());
        }
        push_rules_accounts(&mut accounts, engine, self.authorization_rules);

        Instruction { program_id: id(), accounts, data: MetadataInstruction::Mint(self.args) }
    }
}

/// The policy engine that a transfer names: the one given, or the address
/// of this program where none is given.
pub open spec fn transfer_rules_program(program: Option<Pubkey>) -> Pubkey {
    match program {
        Some(program) => program,
        None => spec_id(),
    }
}

/// Transfer tokens from a token account.
///
/// Accounts:
///
///   0. `[signer, writable]` Transfer authority (token or delegate owner)
///   1. `[optional, writable]` Delegate record PDA
///   2. `[writable]` Token account
///   3. `[]` Token account owner
///   4. `[writable]` Destination token account
///   5. `[]` Destination token account owner
///   6. `[]` Mint of token asset
///   7. `[writable]` Metadata
///   8. `[optional]` Edition of token asset
///   9. `[signer, writable]` Payer
///   10. `[]` SPL Token Program
///   11. `[]` SPL Associated Token Account program
///   12. `[]` System Program
///   13. `[]` Instructions sysvar account
///   14. `[optional]` Token Authorization Rules Program
///   15. `[optional]` Token Authorization Rules account
impl InstructionBuilder for Transfer {
    open spec fn spec_instruction(self) -> (Pubkey, Seq<AccountMeta>, MetadataInstruction) {
        (
            spec_id(),
            seq![
                AccountMeta::spec_new(self.authority, true),
                optional_writable(self.delegate_record, spec_id()),
                AccountMeta::spec_new(self.token, false),
                AccountMeta::spec_new_readonly(self.token_owner, false),
                AccountMeta::spec_new(self.destination, false),
                AccountMeta::spec_new_readonly(self.destination_owner, false),
                AccountMeta::spec_new_readonly(self.mint, false),
                AccountMeta::spec_new(self.metadata, false),
                optional_readonly(self.edition, spec_id()),
                AccountMeta::spec_new(self.payer, true),
                AccountMeta::spec_new_readonly(self.spl_token_program, false),
                AccountMeta::spec_new_readonly(self.spl_ata_program, false),
                AccountMeta::spec_new_readonly(self.system_program, false),
                AccountMeta::spec_new_readonly(self.sysvar_instructions, false),
            ] + spec_rules_accounts(
                transfer_rules_program(self.authorization_rules_program),
                self.authorization_rules,
            ),
            MetadataInstruction::Transfer(self.args),
        )
    }

    fn instruction(self) -> (ix: Instruction) {
        let mut accounts = vec![
            AccountMeta::new(self.authority, true),
            optional_writable(self.delegate_record, id()),
            AccountMeta::new(self.token, false),
            AccountMeta::new_readonly(self.token_owner, false),
            AccountMeta::new(self.destination, false),
            AccountMeta::new_readonly(self.destination_owner, false),
            AccountMeta::new_readonly(self.mint, false),
            AccountMeta::new(self.metadata, false),
            optional_readonly(self.edition, id()),
            AccountMeta::new(self.payer, true),
            AccountMeta::new_readonly(self.spl_token_program, false),
            AccountMeta::new_readonly(self.spl_ata_program, false),
            AccountMeta::new_readonly(self.system_program, false),
            AccountMeta::new_readonly(self.sysvar_instructions, false),
        ];
        // Optional authorization rules accounts
        let engine = match self.authorization_rules_program {
            Some(program) => program,
            None => id(),
        };
        push_rules_accounts(&mut accounts, engine, self.authorization_rules);

        Instruction { program_id: id(), accounts, data: MetadataInstruction::Transfer(self.args) }
    }
}

impl InstructionBuilder for Update {
    open spec fn spec_instruction(self) -> (Pubkey, Seq<AccountMeta>, MetadataInstruction) {
        (
            spec_id(),
            seq![
                AccountMeta::spec_new_readonly(self.authority, true),
                optional_writable(self.delegate_record, spec_id()),
                optional_writable(self.token, spec_id()),
                AccountMeta::spec_new_readonly(self.mint, false),
                AccountMeta::spec_new(self.metadata, false),
                optional_writable(self.edition, spec_id()),
                AccountMeta::spec_new_readonly(self.system_program, false),
                AccountMeta::spec_new_readonly(self.sysvar_instructions, false),
            ] + spec_rules_accounts(spec_auth_rules(), self.authorization_rules),
            MetadataInstruction::Update(self.args),
        )
    }

    fn instruction(self) -> (ix: Instruction) {
        let mut accounts = vec![
            AccountMeta::new_readonly(self.authority, true),
            optional_writable(self.delegate_record, id()),
            optional_writable(self.token, id()),
            AccountMeta::new_readonly(self.mint, false),
            AccountMeta::new(self.metadata, false),
            optional_writable(self.edition, id()),
            AccountMeta::new_readonly(self.system_program, false),
            AccountMeta::new_readonly(self.sysvar_instructions, false),
        ];
        // Optional authorization rules accounts
        let engine = auth_rules_id();
        proof {
            Pubkey::lemma_view_injective(engine, spec_auth_rules());
        }
        push_rules_accounts(&mut accounts, engine, self.authorization_rules);

        Instruction { program_id: id(), accounts, data: MetadataInstruction::Update(self.args) }
    }
}

} // verus!
