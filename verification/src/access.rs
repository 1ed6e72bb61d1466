//! Admission of requests.
//!
//! Every endpoint belongs to one of three tiers, fixed when the routes are
//! laid out. A public endpoint asks for no identity. A protected endpoint
//! asks for a validated token whose claims name the required audience and
//! the required role; both are compared as exact text, so `admin` and
//! `Admin` are different roles. An endpoint behind mutual TLS trusts the
//! channel: the client certificate was checked before any route was looked
//! at, and nothing more is asked here.
//!
//! Validating a token is not done here. The caller hands over what the
//! validation gave.

use vstd::prelude::*;
use crate::http::Status;
use crate::order::same_text;
use crate::resolver::texts;

verus! {

/// The identity that a validated token asserts.
#[derive(Debug, PartialEq, Eq)]
pub struct AccessClaims {
    pub audiences: Vec<String>,
    pub roles: Vec<String>,
}

/// Claims as contracts see them: two sets of names.
pub struct AccessClaimsView {
    pub audiences: Set<Seq<char>>,
    pub roles: Set<Seq<char>>,
}

impl View for AccessClaims {
    type V = AccessClaimsView;

    open spec fn view(&self) -> AccessClaimsView {
        AccessClaimsView {
            audiences: texts(self.audiences@).to_set(),
            roles: texts(self.roles@).to_set(),
        }
    }
}

/// The access level of an endpoint.
#[derive(Debug, PartialEq, Eq)]
pub enum AccessTier {
    /// Open to everyone.
    Public,
    /// Open to tokens that carry this role and this audience.
    ProtectedByRole { required_role: String, required_audience: String },
    /// Reached only over a channel on which the client showed a certificate.
    MutualTls,
}

/// A tier as contracts see it.
pub enum AccessTierView {
    Public,
    ProtectedByRole { required_role: Seq<char>, required_audience: Seq<char> },
    MutualTls,
}

impl View for AccessTier {
    type V = AccessTierView;

    open spec fn view(&self) -> AccessTierView {
        match self {
            AccessTier::Public => AccessTierView::Public,
            AccessTier::ProtectedByRole { required_role, required_audience } => {
                AccessTierView::ProtectedByRole {
                    required_role: required_role@,
                    required_audience: required_audience@,
                }
            },
            AccessTier::MutualTls => AccessTierView::MutualTls,
        }
    }
}

/// What came of looking for a token in a request and validating it.
#[derive(Debug, PartialEq, Eq)]
pub enum Credentials {
    /// The request carried no token.
    Missing,
    /// The request carried a token that did not validate.
    Invalid,
    /// The token validated and asserts these claims.
    Valid(AccessClaims),
}

/// Credentials as contracts see them.
pub enum CredentialsView {
    Missing,
    Invalid,
    Valid(AccessClaimsView),
}

impl View for Credentials {
    type V = CredentialsView;

    open spec fn view(&self) -> CredentialsView {
        match self {
            Credentials::Missing => CredentialsView::Missing,
            Credentials::Invalid => CredentialsView::Invalid,
            Credentials::Valid(claims) => CredentialsView::Valid(claims@),
        }
    }
}

/// Where a request stands on its way to a handler.
#[derive(Clone, Copy, Debug, PartialEq, Eq, Structural)]
pub enum RequestState {
    Received,
    TokenExtracted,
    TokenInvalid,
    ClaimsChecked,
    RoleOrAudienceMissing,
    Authorized,
    /// The handler runs. Final.
    Dispatched,
    /// The request is answered with this status and no handler runs. Final.
    Rejected(Status),
}

impl RequestState {
    /// Whether the request has come to rest.
    pub open spec fn is_final_spec(self) -> bool {
        self is Dispatched || self is Rejected
    }

    /// Whether the request has come to rest.
    #[verifier::when_used_as_spec(is_final_spec)]
    pub fn is_final(self) -> (r: bool)
        ensures
            r == self.is_final_spec(),
    {
        match self {
            RequestState::Dispatched => true,
            RequestState::Rejected(_) => true,
            _ => false,
        }
    }

    /// How many steps a request in this state is from coming to rest, at
    /// most.
    pub open spec fn distance(self) -> nat {
        match self {
            RequestState::Received => 4,
            RequestState::TokenExtracted => 3,
            RequestState::ClaimsChecked => 2,
            RequestState::TokenInvalid => 1,
            RequestState::RoleOrAudienceMissing => 1,
            RequestState::Authorized => 1,
            RequestState::Dispatched => 0,
            RequestState::Rejected(_) => 0,
        }
    }
}

/// Whether the claims name both the audience and the role.
pub open spec fn grants(claims: AccessClaimsView, role: Seq<char>, audience: Seq<char>) -> bool {
    claims.audiences.contains(audience) && claims.roles.contains(role)
}

/// The state that follows `state` for a request to an endpoint of `tier`
/// that came with `credentials`.
pub open spec fn next_state(
    state: RequestState,
    tier: AccessTierView,
    credentials: CredentialsView,
) -> RequestState {
    match tier {
        AccessTierView::ProtectedByRole { required_role, required_audience } => match state {
            RequestState::Received => if credentials is Missing {
                RequestState::Rejected(Status::Unauthorized)
            } else {
                RequestState::TokenExtracted
            },
            RequestState::TokenExtracted => if credentials is Valid {
                RequestState::ClaimsChecked
            } else {
                RequestState::TokenInvalid
            },
            RequestState::TokenInvalid => RequestState::Rejected(Status::Unauthorized),
            RequestState::ClaimsChecked => match credentials {
                CredentialsView::Valid(claims) => if grants(
                    claims,
                    required_role,
                    required_audience,
                ) {
                    RequestState::Authorized
                } else {
                    RequestState::RoleOrAudienceMissing
                },
                _ => RequestState::TokenInvalid,
            },
            RequestState::RoleOrAudienceMissing => RequestState::Rejected(Status::Forbidden),
            RequestState::Authorized => RequestState::Dispatched,
            RequestState::Dispatched => state,
            RequestState::Rejected(_) => state,
        },
        _ => if state.is_final_spec() {
            state
        } else {
            RequestState::Dispatched
        },
    }
}

/// The state in which a request comes to rest: dispatched, or rejected with
/// `Unauthorized` where no valid token came with it, and with `Forbidden`
/// where the token lacks the audience or the role.
pub open spec fn admission(tier: AccessTierView, credentials: CredentialsView) -> RequestState {
    match tier {
        AccessTierView::ProtectedByRole { required_role, required_audience } => match credentials {
            CredentialsView::Valid(claims) => if grants(claims, required_role, required_audience) {
                RequestState::Dispatched
            } else {
                RequestState::Rejected(Status::Forbidden)
            },
            _ => RequestState::Rejected(Status::Unauthorized),
        },
        _ => RequestState::Dispatched,
    }
}

/// The state after `steps` steps.
pub open spec fn state_after(
    state: RequestState,
    tier: AccessTierView,
    credentials: CredentialsView,
    steps: nat,
) -> RequestState
    decreases steps,
{
    if steps == 0 {
        state
    } else {
        state_after(next_state(state, tier, credentials), tier, credentials, (steps - 1) as nat)
    }
}

/// Whether `wanted` is one of `names`, compared letter for letter.
pub fn names_contain(names: &Vec<String>, wanted: &str) -> (r: bool)
    ensures
        r == texts(names@).to_set().contains(wanted@),
{
    let mut i: usize = 0;
    while i < names.len()
        invariant
            i <= names.len(),
            forall|k: int| 0 <= k < i ==> names@[k]@ != wanted@,
        decreases names.len() - i,
    {
        if same_text(names[i].as_str(), wanted) {
            assert(texts(names@)[i as int] == wanted@);
            return true;
        }
        i += 1;
    }
    assert forall|k: int| 0 <= k < texts(names@).len() implies texts(names@)[k] != wanted@ by {
        assert(names@[k]@ != wanted@);
    }
    false
}

/// Whether the claims name both the audience and the role.
pub fn claims_grant(claims: &AccessClaims, role: &str, audience: &str) -> (r: bool)
    ensures
        r == grants(claims@, role@, audience@),
{
    names_contain(&claims.audiences, audience) && names_contain(&claims.roles, role)
}

/// Moves a request one step on.
pub fn advance(
    state: RequestState,
    tier: &AccessTier,
    credentials: &Credentials,
) -> (r: RequestState)
    ensures
        r == next_state(state, tier@, credentials@),
        state.is_final_spec() ==> r == state,
        !state.is_final_spec() ==> r.distance() < state.distance(),
{
    match tier {
        AccessTier::ProtectedByRole { required_role, required_audience } => match state {
            RequestState::Received => match credentials {
                Credentials::Missing => RequestState::Rejected(Status::Unauthorized),
                _ => RequestState::TokenExtracted,
            },
            RequestState::TokenExtracted => match credentials {
                Credentials::Valid(_) => RequestState::ClaimsChecked,
                _ => RequestState::TokenInvalid,
            },
            RequestState::TokenInvalid => RequestState::Rejected(Status::Unauthorized),
            RequestState::ClaimsChecked => match credentials {
                Credentials::Valid(claims) => {
                    if claims_grant(claims, required_role.as_str(), required_audience.as_str()) {
                        RequestState::Authorized
                    } else {
                        RequestState::RoleOrAudienceMissing
                    }
                },
                _ => RequestState::TokenInvalid,
            },
            RequestState::RoleOrAudienceMissing => RequestState::Rejected(Status::Forbidden),
            RequestState::Authorized => RequestState::Dispatched,
            RequestState::Dispatched => state,
            RequestState::Rejected(_) => state,
        },
        _ => {
            if state.is_final() {
                state
            } else {
                RequestState::Dispatched
            }
        },
    }
}

/// Where a request in `state` comes to rest. On the states that a request
/// passes through on its way from `Received`, this is `admission`.
spec fn admission_from(
    state: RequestState,
    tier: AccessTierView,
    credentials: CredentialsView,
) -> RequestState {
    match state {
        RequestState::Received => admission(tier, credentials),
        RequestState::TokenExtracted => admission(tier, credentials),
        RequestState::ClaimsChecked => match tier {
            AccessTierView::ProtectedByRole { .. } => if credentials is Valid {
                admission(tier, credentials)
            } else {
                RequestState::Rejected(Status::Unauthorized)
            },
            _ => RequestState::Dispatched,
        },
        RequestState::TokenInvalid => match tier {
            AccessTierView::ProtectedByRole { .. } => RequestState::Rejected(Status::Unauthorized),
            _ => RequestState::Dispatched,
        },
        RequestState::RoleOrAudienceMissing => match tier {
            AccessTierView::ProtectedByRole { .. } => RequestState::Rejected(Status::Forbidden),
            _ => RequestState::Dispatched,
        },
        RequestState::Authorized => RequestState::Dispatched,
        RequestState::Dispatched => state,
        RequestState::Rejected(_) => state,
    }
}

/// A request that has come to rest stays where it is: there is no retry
/// and no escalation.
pub proof fn lemma_rest_is_final(
    state: RequestState,
    tier: AccessTierView,
    credentials: CredentialsView,
    steps: nat,
)
    requires
        state.is_final_spec(),
    ensures
        state_after(state, tier, credentials, steps) == state,
    decreases steps,
{
    if steps > 0 {
        lemma_rest_is_final(state, tier, credentials, (steps - 1) as nat);
    }
}

/// Every request comes to rest within four steps, in `Dispatched` or in
/// `Rejected`, and where it rests is what `admission` says.
pub proof fn lemma_request_comes_to_rest(
    tier: AccessTierView,
    credentials: CredentialsView,
    steps: nat,
)
    requires
        steps >= 4,
    ensures
        state_after(RequestState::Received, tier, credentials, steps) == admission(
            tier,
            credentials,
        ),
        admission(tier, credentials).is_final_spec(),
{
    let s1 = next_state(RequestState::Received, tier, credentials);
    let s2 = next_state(s1, tier, credentials);
    let s3 = next_state(s2, tier, credentials);
    let s4 = next_state(s3, tier, credentials);
    assert(s4 == admission(tier, credentials));
    lemma_rest_is_final(s4, tier, credentials, (steps - 4) as nat);
    assert(state_after(s3, tier, credentials, (steps - 3) as nat) == s4);
    assert(state_after(s2, tier, credentials, (steps - 2) as nat) == s4);
    assert(state_after(s1, tier, credentials, (steps - 1) as nat) == s4);
}

/// A request to a protected endpoint is dispatched only if it came with a
/// valid token that names the required audience and the required role.
pub proof fn lemma_dispatch_needs_grant(tier: AccessTierView, credentials: CredentialsView)
    requires
        tier is ProtectedByRole,
    ensures
        admission(tier, credentials) is Dispatched <==> (credentials matches CredentialsView::Valid(
            claims,
        ) && grants(claims, tier->required_role, tier->required_audience)),
        !(credentials is Valid) ==> admission(tier, credentials) == RequestState::Rejected(
            Status::Unauthorized,
        ),
{
}

/// Takes a request from `Received` to rest and returns where it rests.
///
/// On a public endpoint and behind mutual TLS every request is dispatched
/// and the credentials are not looked at.
pub fn authorize(tier: &AccessTier, credentials: &Credentials) -> (r: RequestState)
    ensures
        r == admission(tier@, credentials@),
        r.is_final_spec(),
{
    let mut state = RequestState::Received;
    while !state.is_final()
        invariant
            admission_from(state, tier@, credentials@) == admission(tier@, credentials@),
        decreases state.distance(),
    {
        state = advance(state, tier, credentials);
    }
    state
}

} // verus!
