use crate::error::{MetadataError, OperationError};
use crate::ledger::TokenAccount;
use crate::pubkey::Pubkey;
use crate::state::{MetadataDelegateRecord, MetadataDelegateRole, TokenDelegateRole, TokenRecord};
use vstd::prelude::*;

verus! {

/// The ways in which a requester can have the right to act on an asset.
#[derive(Clone, Copy, Debug, PartialEq, Eq, Structural)]
pub enum AuthorityType {
    /// The requester is the update authority of the metadata.
    Metadata,
    /// The requester owns a token account that holds the asset.
    Holder,
    /// The requester is the delegate on the token record.
    TokenDelegate,
    /// The requester has a delegate record for the metadata.
    MetadataDelegate,
    /// Anyone: for operations that are open to every signer.
    Other,
}

/// What the resolver is asked: who wants to act, on what, and which
/// authorities the operation accepts, in the order in which to try them.
#[derive(Clone, Debug, PartialEq, Eq)]
pub struct AuthorityRequest {
    /// The categories to try, first to last.
    pub precedence: Vec<AuthorityType>,
    /// The requester.
    pub authority: Pubkey,
    /// The update authority of the asset's metadata.
    pub update_authority: Pubkey,
    /// The mint of the asset.
    pub mint: Pubkey,
    /// The token account the requester presents, if any.
    pub token_account: Option<TokenAccount>,
    /// The token record of that token account, if any.
    pub token_record: Option<TokenRecord>,
    /// The roles that a token delegate may have for this operation.
    pub token_delegate_roles: Vec<TokenDelegateRole>,
    /// The delegate record the requester presents, if any.
    pub metadata_delegate_record: Option<MetadataDelegateRecord>,
    /// The role under whose address that delegate record was found.
    pub metadata_delegate_role: Option<MetadataDelegateRole>,
    /// The roles that a metadata delegate may have for this operation.
    pub metadata_delegate_roles: Vec<MetadataDelegateRole>,
}

/// The category a requester was placed in, with the role and the record that
/// placed them there.
#[derive(Clone, Copy, Debug, PartialEq, Eq)]
pub struct AuthorityResponse {
    pub authority_type: AuthorityType,
    pub token_delegate_role: Option<TokenDelegateRole>,
    pub token_record: Option<TokenRecord>,
    pub metadata_delegate_role: Option<MetadataDelegateRole>,
    pub metadata_delegate_record: Option<MetadataDelegateRecord>,
}

impl AuthorityRequest {
    /// A request that presents no token account and no record. Such a request
    /// can match `Metadata` and `Other` only: the other categories are passed
    /// over in silence until their evidence is filled in.
    pub fn new(
        authority: Pubkey,
        update_authority: Pubkey,
        mint: Pubkey,
        precedence: Vec<AuthorityType>,
    ) -> (request: AuthorityRequest)
        ensures
            request.authority == authority,
            request.update_authority == update_authority,
            request.mint == mint,
            request.precedence == precedence,
            request.token_account is None,
            request.token_record is None,
            request.token_delegate_roles@.len() == 0,
            request.metadata_delegate_record is None,
            request.metadata_delegate_role is None,
            request.metadata_delegate_roles@.len() == 0,
            !request.holds(AuthorityType::Holder),
            !request.holds(AuthorityType::TokenDelegate),
            !request.holds(AuthorityType::MetadataDelegate),
    {
        AuthorityRequest {
            precedence,
            authority,
            update_authority,
            mint,
            token_account: None,
            token_record: None,
            token_delegate_roles: Vec::new(),
            metadata_delegate_record: None,
            metadata_delegate_role: None,
            metadata_delegate_roles: Vec::new(),
        }
    }

    /// The requester is the update authority.
    pub open spec fn is_metadata_authority(&self) -> bool {
        self.authority == self.update_authority
    }

    /// The requester owns the token account presented, which is of the
    /// asset's mint and holds at least one token.
    pub open spec fn is_holder(&self) -> bool {
        &&& self.token_account matches Some(account)
        &&& account.owner == self.authority
        &&& account.mint == self.mint
        &&& account.amount > 0
    }

    /// The requester is the delegate on the token record presented, in a role
    /// that the operation accepts.
    pub open spec fn is_token_delegate(&self) -> bool {
        &&& self.token_record matches Some(record)
        &&& record.delegate == Some(self.authority)
        &&& record.delegate_role matches Some(role)
        &&& self.token_delegate_roles@.contains(role)
    }

    /// The requester is the delegate on the delegate record presented, which
    /// is of the asset's mint and of a role that the operation accepts.
    pub open spec fn is_metadata_delegate(&self) -> bool {
        &&& self.metadata_delegate_record matches Some(record)
        &&& record.delegate == self.authority
        &&& record.mint == self.mint
        &&& self.metadata_delegate_role matches Some(role)
        &&& self.metadata_delegate_roles@.contains(role)
    }

    /// Whether the requester satisfies the test of a category.
    pub open spec fn holds(&self, category: AuthorityType) -> bool {
        match category {
            AuthorityType::Metadata => self.is_metadata_authority(),
            AuthorityType::Holder => self.is_holder(),
            AuthorityType::TokenDelegate => self.is_token_delegate(),
            AuthorityType::MetadataDelegate => self.is_metadata_delegate(),
            AuthorityType::Other => true,
        }
    }

    /// What the resolver answers when `category` is the first that holds.
    pub open spec fn response(&self, category: AuthorityType) -> AuthorityResponse {
        match category {
            AuthorityType::TokenDelegate => AuthorityResponse {
                authority_type: category,
                token_delegate_role: self.token_record->0.delegate_role,
                token_record: self.token_record,
                metadata_delegate_role: None,
                metadata_delegate_record: None,
            },
            AuthorityType::MetadataDelegate => AuthorityResponse {
                authority_type: category,
                token_delegate_role: None,
                token_record: None,
                metadata_delegate_role: self.metadata_delegate_role,
                metadata_delegate_record: self.metadata_delegate_record,
            },
            _ => AuthorityResponse {
                authority_type: category,
                token_delegate_role: None,
                token_record: None,
                metadata_delegate_role: None,
                metadata_delegate_record: None,
            },
        }
    }

    /// The first category of `precedence` that holds, if any does.
    pub open spec fn first_holding(&self, precedence: Seq<AuthorityType>) -> Option<AuthorityType>
        decreases precedence.len(),
    {
        if precedence.len() == 0 {
            None
        } else if self.holds(precedence[0]) {
            Some(precedence[0])
        } else {
            self.first_holding(precedence.drop_first())
        }
    }

    /// The answer of the resolver.
    pub open spec fn resolve(&self) -> Result<AuthorityResponse, OperationError> {
        match self.first_holding(self.precedence@) {
            Some(category) => Ok(self.response(category)),
            None => Err(OperationError::Custom(MetadataError::InvalidAuthorityType)),
        }
    }

    /// `first_holding` finds nothing exactly if no category of the list
    /// holds; what it finds holds, stands in the list, and nothing before it
    /// in the list holds.
    pub proof fn lemma_first_holding(&self, precedence: Seq<AuthorityType>)
        ensures
            self.first_holding(precedence) is None <==> forall|i: int|
                0 <= i < precedence.len() ==> !self.holds(#[trigger] precedence[i]),
            self.first_holding(precedence) matches Some(category) ==> exists|i: int|
                0 <= i < precedence.len() && #[trigger] precedence[i] == category && self.holds(
                    category,
                ) && forall|j: int| 0 <= j < i ==> !self.holds(#[trigger] precedence[j]),
        decreases precedence.len(),
    {
        if precedence.len() == 0 {
        } else if self.holds(precedence[0]) {
            assert(precedence[0] == self.first_holding(precedence)->0);
        } else {
            let rest = precedence.drop_first();
            self.lemma_first_holding(rest);
            assert(forall|i: int| 0 <= i < rest.len() ==> rest[i] == precedence[i + 1]);
            if self.first_holding(rest) is None {
                assert forall|i: int| 0 <= i < precedence.len() implies !self.holds(
                    #[trigger] precedence[i],
                ) by {
                    if i > 0 {
                        assert(rest[i - 1] == precedence[i]);
                    }
                }
            } else {
                let category = self.first_holding(rest)->0;
                let k = choose|k: int|
                    0 <= k < rest.len() && #[trigger] rest[k] == category && self.holds(category)
                        && forall|j: int| 0 <= j < k ==> !self.holds(#[trigger] rest[j]);
                assert(precedence[k + 1] == category);
                assert forall|j: int| 0 <= j < k + 1 implies !self.holds(
                    #[trigger] precedence[j],
                ) by {
                    if j > 0 {
                        assert(rest[j - 1] == precedence[j]);
                    }
                }
                assert(self.holds(precedence[k + 1]));
            }
        }
    }
}

/// Tells whether `role` is one of `roles`.
pub fn token_role_in(roles: &Vec<TokenDelegateRole>, role: TokenDelegateRole) -> (found: bool)
    ensures
        found == roles@.contains(role),
{
    let mut i: usize = 0;
    while i < roles.len()
        invariant
            i <= roles.len(),
            forall|j: int| 0 <= j < i ==> roles@[j] != role,
        decreases roles.len() - i,
    {
        if roles[i] == role {
            return true;
        }
        i = i + 1;
    }
    false
}

/// Tells whether `role` is one of `roles`.
pub fn metadata_role_in(roles: &Vec<MetadataDelegateRole>, role: MetadataDelegateRole) -> (found:
    bool)
    ensures
        found == roles@.contains(role),
{
    let mut i: usize = 0;
    while i < roles.len()
        invariant
            i <= roles.len(),
            forall|j: int| 0 <= j < i ==> roles@[j] != role,
        decreases roles.len() - i,
    {
        if roles[i] == role {
            return true;
        }
        i = i + 1;
    }
    false
}

impl AuthorityType {
    /// Tells whether the requester satisfies the test of one category.
    pub fn holds_for(self, request: &AuthorityRequest) -> (b: bool)
        ensures
            b == request.holds(self),
    {
        match self {
            AuthorityType::Metadata => request.update_authority == request.authority,
            AuthorityType::Holder => match &request.token_account {
                Some(account) => account.owner == request.authority && account.mint == request.mint
                    && account.amount > 0,
                None => false,
            },
            AuthorityType::TokenDelegate => match &request.token_record {
                Some(record) => match record.delegate_role {
                    Some(role) => record.delegate == Some(request.authority) && token_role_in(
                        &request.token_delegate_roles,
                        role,
                    ),
                    None => false,
                },
                None => false,
            },
            AuthorityType::MetadataDelegate => match &request.metadata_delegate_record {
                Some(record) => match request.metadata_delegate_role {
                    Some(role) => record.delegate == request.authority && record.mint
                        == request.mint && metadata_role_in(&request.metadata_delegate_roles, role),
                    None => false,
                },
                None => false,
            },
            AuthorityType::Other => true,
        }
    }

    /// Places the requester in the first category of the precedence list
    /// whose test they satisfy. The categories are tried in the order of the
    /// list and in no other; where none holds the request is refused with
    /// `InvalidAuthorityType`. Nothing is changed either way.
    pub fn get_authority_type(request: &AuthorityRequest) -> (r: Result<
        AuthorityResponse,
        OperationError,
    >)
        ensures
            r == request.resolve(),
            (forall|i: int|
                0 <= i < request.precedence@.len() ==> !request.holds(
                    #[trigger] request.precedence@[i],
                )) <==> r == Err::<AuthorityResponse, OperationError>(
                OperationError::Custom(MetadataError::InvalidAuthorityType),
            ),
            r matches Ok(response) ==> request.holds(response.authority_type)
                && request.precedence@.contains(response.authority_type),
    {
        proof {
            request.lemma_first_holding(request.precedence@);
            assert(request.precedence@.skip(0) =~= request.precedence@);
        }
        let mut i: usize = 0;
        while i < request.precedence.len()
            invariant
                i <= request.precedence.len(),
                request.first_holding(request.precedence@) == request.first_holding(
                    request.precedence@.skip(i as int),
                ),
            decreases request.precedence.len() - i,
        {
            let category = request.precedence[i];
            let ghost rest = request.precedence@.skip(i as int);
            assert(rest[0] == category);
            assert(rest.drop_first() =~= request.precedence@.skip(i + 1));
            if category.holds_for(request) {
                let response = match category {
                    AuthorityType::TokenDelegate => AuthorityResponse {
                        authority_type: category,
                        token_delegate_role: match &request.token_record {
                            Some(record) => record.delegate_role,
                            None => None,
                        },
                        token_record: request.token_record,
                        metadata_delegate_role: None,
                        metadata_delegate_record: None,
                    },
                    AuthorityType::MetadataDelegate => AuthorityResponse {
                        authority_type: category,
                        token_delegate_role: None,
                        token_record: None,
                        metadata_delegate_role: request.metadata_delegate_role,
                        metadata_delegate_record: request.metadata_delegate_record,
                    },
                    _ => AuthorityResponse {
                        authority_type: category,
                        token_delegate_role: None,
                        token_record: None,
                        metadata_delegate_role: None,
                        metadata_delegate_record: None,
                    },
                };
                return Ok(response);
            }
            i = i + 1;
        }
        assert(request.precedence@.skip(i as int).len() == 0);
        Err(OperationError::Custom(MetadataError::InvalidAuthorityType))
    }
}

} // verus!
