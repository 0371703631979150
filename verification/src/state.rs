use crate::pubkey::Pubkey;
use vstd::prelude::*;

verus! {

/// The tag that opens every record this program persists.
#[derive(Clone, Copy, Debug, PartialEq, Eq, Structural)]
pub enum Key {
    Uninitialized,
    EditionV1,
    MasterEditionV1,
    ReservationListV1,
    MetadataV1,
    ReservationListV2,
    MasterEditionV2,
    EditionMarker,
    UseAuthorityRecord,
    CollectionAuthorityRecord,
    TokenOwnedEscrow,
    TokenRecord,
    MetadataDelegate,
}

/// The kind of asset a mint stands for.
#[derive(Clone, Copy, Debug, PartialEq, Eq, Structural)]
pub enum TokenStandard {
    /// A master edition.
    NonFungible,
    /// A token with metadata and zero decimals.
    FungibleAsset,
    /// A token with simple metadata.
    Fungible,
    /// A print of a master edition.
    NonFungibleEdition,
    /// A master edition whose token is kept frozen and governed by a rule set.
    ProgrammableNonFungible,
}

impl TokenStandard {
    /// The standards that hold one indivisible token and have an edition account.
    pub open spec fn spec_is_non_fungible(self) -> bool {
        self == TokenStandard::NonFungible || self == TokenStandard::NonFungibleEdition || self
            == TokenStandard::ProgrammableNonFungible
    }

    #[verifier::when_used_as_spec(spec_is_non_fungible)]
    pub fn is_non_fungible(self) -> (b: bool)
        ensures
            b == self.spec_is_non_fungible(),
    {
        match self {
            TokenStandard::NonFungible
            | TokenStandard::NonFungibleEdition
            | TokenStandard::ProgrammableNonFungible => true,
            TokenStandard::FungibleAsset | TokenStandard::Fungible => false,
        }
    }
}

/// Whether a programmable token can move.
#[derive(Clone, Copy, Debug, PartialEq, Eq, Structural)]
pub enum TokenState {
    /// No delegate; the holder may transfer, burn or delegate.
    Unlocked,
    /// A transfer, utility or staking delegate is set.
    Locked,
    /// A sale delegate is set.
    Listed,
}

/// What a token-scoped delegate may do.
#[derive(Clone, Copy, Debug, PartialEq, Eq, Structural)]
pub enum TokenDelegateRole {
    Sale,
    Transfer,
    Utility,
    Staking,
}

/// What a metadata-scoped delegate may do.
#[derive(Clone, Copy, Debug, PartialEq, Eq, Structural)]
pub enum MetadataDelegateRole {
    Collection,
    Update,
}

impl MetadataDelegateRole {
    /// The seed that tells the record addresses of the roles apart.
    pub open spec fn spec_seed(self) -> Seq<u8> {
        match self {
            MetadataDelegateRole::Collection => seq![
                99u8, 111u8, 108u8, 108u8, 101u8, 99u8, 116u8, 105u8, 111u8, 110u8, 95u8, 100u8,
                101u8, 108u8, 101u8, 103u8, 97u8, 116u8, 101u8,
            ],
            MetadataDelegateRole::Update => seq![
                117u8, 112u8, 100u8, 97u8, 116u8, 101u8, 95u8, 100u8, 101u8, 108u8, 101u8, 103u8,
                97u8, 116u8, 101u8,
            ],
        }
    }

    /// The bytes of `collection_delegate` or `update_delegate`.
    pub fn seed(self) -> (seed: Vec<u8>)
        ensures
            seed@ == self.spec_seed(),
    {
        match self {
            MetadataDelegateRole::Collection => vec![
                99u8, 111u8, 108u8, 108u8, 101u8, 99u8, 116u8, 105u8, 111u8, 110u8, 95u8, 100u8,
                101u8, 108u8, 101u8, 103u8, 97u8, 116u8, 101u8,
            ],
            MetadataDelegateRole::Update => vec![
                117u8, 112u8, 100u8, 97u8, 116u8, 101u8, 95u8, 100u8, 101u8, 108u8, 101u8, 103u8,
                97u8, 116u8, 101u8,
            ],
        }
    }
}

/// The state in which a delegate of the given role, or none, leaves a token.
pub open spec fn state_of_role(role: Option<TokenDelegateRole>) -> TokenState {
    match role {
        None => TokenState::Unlocked,
        Some(TokenDelegateRole::Sale) => TokenState::Listed,
        Some(_) => TokenState::Locked,
    }
}

/// The delegation state of one token account of a programmable asset.
#[derive(Clone, Copy, Debug, PartialEq, Eq)]
pub struct TokenRecord {
    pub key: Key,
    pub bump: u8,
    pub state: TokenState,
    pub rule_set_revision: Option<u64>,
    pub delegate: Option<Pubkey>,
    pub delegate_role: Option<TokenDelegateRole>,
}

impl TokenRecord {
    /// A record is well formed when it has a delegate exactly if it has a
    /// role, and its state is the one that role stands for: unlocked without
    /// a delegate, listed under a sale delegate, locked under any other.
    pub open spec fn wf(&self) -> bool {
        &&& self.key == Key::TokenRecord
        &&& (self.delegate is Some <==> self.delegate_role is Some)
        &&& self.state == state_of_role(self.delegate_role)
    }

    /// The record of a token that was just minted or received.
    pub fn new(bump: u8) -> (record: TokenRecord)
        ensures
            record.wf(),
            record.bump == bump,
            record.state == TokenState::Unlocked,
            record.delegate is None,
            record.delegate_role is None,
            record.rule_set_revision is None,
    {
        TokenRecord {
            key: Key::TokenRecord,
            bump,
            state: TokenState::Unlocked,
            rule_set_revision: None,
            delegate: None,
            delegate_role: None,
        }
    }

    /// Tells whether the record is well formed.
    pub fn is_well_formed(&self) -> (b: bool)
        ensures
            b == self.wf(),
    {
        let expected = match self.delegate_role {
            None => TokenState::Unlocked,
            Some(TokenDelegateRole::Sale) => TokenState::Listed,
            Some(_) => TokenState::Locked,
        };
        self.key == Key::TokenRecord && self.delegate.is_some() == self.delegate_role.is_some()
            && self.state == expected
    }

    pub open spec fn spec_is_locked(&self) -> bool {
        self.state != TokenState::Unlocked
    }

    /// Locked and listed tokens are frozen on the ledger.
    #[verifier::when_used_as_spec(spec_is_locked)]
    pub fn is_locked(&self) -> (b: bool)
        ensures
            b == self.spec_is_locked(),
    {
        self.state != TokenState::Unlocked
    }

    /// A sale delegate cannot be replaced; it has to be revoked.
    pub open spec fn blocks_new_delegate(&self) -> bool {
        self.delegate_role == Some(TokenDelegateRole::Sale)
    }

    /// The record after `delegate` was given `role`.
    pub open spec fn with_delegate(self, delegate: Pubkey, role: TokenDelegateRole) -> TokenRecord {
        TokenRecord {
            state: state_of_role(Some(role)),
            delegate: Some(delegate),
            delegate_role: Some(role),
            ..self
        }
    }

    /// The record after its delegate was revoked or used up.
    pub open spec fn without_delegate(self) -> TokenRecord {
        TokenRecord { state: TokenState::Unlocked, delegate: None, delegate_role: None, ..self }
    }

    /// Sets the one delegate of the token and moves the token to the state of
    /// the role: listed for a sale delegate, locked for any other. Fails, and
    /// changes nothing, while a sale delegate is set.
    pub fn set_delegate(&mut self, delegate: Pubkey, role: TokenDelegateRole) -> (r: Result<
        (),
        crate::error::MetadataError,
    >)
        ensures
            old(self).blocks_new_delegate() ==> r == Err::<(), crate::error::MetadataError>(
                crate::error::MetadataError::DelegateAlreadyExists,
            ) && *final(self) == *old(self),
            !old(self).blocks_new_delegate() ==> r is Ok && *final(self) == old(self).with_delegate(
                delegate,
                role,
            ),
            old(self).key == Key::TokenRecord && r is Ok ==> final(self).wf(),
    {
        if let Some(TokenDelegateRole::Sale) = self.delegate_role {
            return Err(crate::error::MetadataError::DelegateAlreadyExists);
        }
        self.state =
        match role {
            TokenDelegateRole::Sale => TokenState::Listed,
            _ => TokenState::Locked,
        };
        self.delegate = Some(delegate);
        self.delegate_role = Some(role);
        Ok(())
    }

    /// Removes the delegate, whatever its role, and unlocks the token.
    pub fn clear_delegate(&mut self)
        ensures
            *final(self) == old(self).without_delegate(),
            old(self).key == Key::TokenRecord ==> final(self).wf(),
    {
        self.state = TokenState::Unlocked;
        self.delegate = None;
        self.delegate_role = None;
    }
}

/// The master edition of a non-fungible asset: how many prints were made of
/// it and how many can be.
#[derive(Clone, Copy, Debug, PartialEq, Eq)]
pub struct MasterEdition {
    pub key: Key,
    pub supply: u64,
    pub max_supply: Option<u64>,
}

/// A print: the master edition it was made of and its number.
#[derive(Clone, Copy, Debug, PartialEq, Eq)]
pub struct Edition {
    pub key: Key,
    pub parent: Pubkey,
    pub edition: u64,
}

/// The books of a master edition for 248 prints in a row: one bit for each
/// number, set while the print exists.
#[derive(Clone, Copy, Debug, PartialEq, Eq)]
pub struct EditionMarker {
    pub key: Key,
    pub ledger: [u8; 31],
}

/// One metadata-scoped delegation. The role is part of the address of the
/// record, not of its content.
#[derive(Clone, Copy, Debug, PartialEq, Eq)]
pub struct MetadataDelegateRecord {
    pub key: Key,
    pub bump: u8,
    pub mint: Pubkey,
    pub delegate: Pubkey,
    /// The update authority that approved the delegation.
    pub update_authority: Pubkey,
    /// Who paid for the record, and gets back what its account holds when
    /// the delegation is revoked.
    pub payer: Pubkey,
}

/// One of the creators of an asset and the share of the fees they receive.
#[derive(Clone, Copy, Debug, PartialEq, Eq)]
pub struct Creator {
    pub address: Pubkey,
    pub verified: bool,
    pub share: u8,
}

/// The collection an asset belongs to.
#[derive(Clone, Copy, Debug, PartialEq, Eq)]
pub struct Collection {
    pub verified: bool,
    pub key: Pubkey,
}

/// What a collection parent knows of its collection.
#[derive(Clone, Copy, Debug, PartialEq, Eq)]
pub enum CollectionDetails {
    V1 { size: u64 },
}

#[derive(Clone, Copy, Debug, PartialEq, Eq, Structural)]
pub enum UseMethod {
    Burn,
    Multiple,
    Single,
}

/// How often an asset can still be used.
#[derive(Clone, Copy, Debug, PartialEq, Eq)]
pub struct Uses {
    pub use_method: UseMethod,
    pub remaining: u64,
    pub total: u64,
}

/// The rule set that the policy engine applies to a programmable asset.
#[derive(Clone, Copy, Debug, PartialEq, Eq)]
pub struct ProgrammableConfig {
    pub rule_set: Pubkey,
}

#[derive(Clone, Copy, Debug, PartialEq, Eq, Structural)]
pub enum MigrationType {
    CollectionV1,
    ProgrammableV1,
}

/// The display data of an asset.
#[derive(Clone, Debug, PartialEq, Eq)]
pub struct Data {
    pub name: String,
    pub symbol: String,
    pub uri: String,
    pub seller_fee_basis_points: u16,
    pub creators: Option<Vec<Creator>>,
}

/// The display data of an asset together with its collection and uses.
#[derive(Clone, Debug, PartialEq, Eq)]
pub struct DataV2 {
    pub name: String,
    pub symbol: String,
    pub uri: String,
    pub seller_fee_basis_points: u16,
    pub creators: Option<Vec<Creator>>,
    pub collection: Option<Collection>,
    pub uses: Option<Uses>,
}

/// Everything that is fixed about an asset when it is created.
#[derive(Clone, Debug, PartialEq, Eq)]
pub struct AssetData {
    pub update_authority: Pubkey,
    pub name: String,
    pub symbol: String,
    pub uri: String,
    pub seller_fee_basis_points: u16,
    pub creators: Option<Vec<Creator>>,
    pub primary_sale_happened: bool,
    pub is_mutable: bool,
    pub token_standard: TokenStandard,
    pub collection: Option<Collection>,
    pub uses: Option<Uses>,
    pub collection_details: Option<CollectionDetails>,
    pub programmable_config: Option<ProgrammableConfig>,
}

/// The metadata of one mint. It is created with the asset and changed by
/// updates only.
#[derive(Clone, Debug, PartialEq, Eq)]
pub struct Metadata {
    pub key: Key,
    pub update_authority: Pubkey,
    pub mint: Pubkey,
    pub data: Data,
    pub primary_sale_happened: bool,
    pub is_mutable: bool,
    pub edition_nonce: Option<u8>,
    pub token_standard: Option<TokenStandard>,
    pub collection: Option<Collection>,
    pub uses: Option<Uses>,
    pub collection_details: Option<CollectionDetails>,
    pub programmable_config: Option<ProgrammableConfig>,
}

} // verus!
