//! The authorization gate: resolves what the Identity service said
//! about a bearer token into an allow/deny decision against a route's
//! required minimum role.
//!
//! The remote lookup itself is outside work; the authorization step takes its
//! outcome as a value and decides. A lookup failure is never treated
//! as an allow: authorization fails closed.

use vstd::prelude::*;

use crate::errors::ResponseError;
use crate::ids::UserId;

verus! {

/// The totally ordered role hierarchy.
#[derive(Clone, Copy, PartialEq, Eq, Structural, Hash, Debug)]
pub enum Role {
    User,
    Moderator,
    Admin,
}

/// The rank a role holds in the hierarchy `User < Moderator < Admin`.
pub open spec fn role_rank(r: Role) -> int {
    match r {
        Role::User => 0,
        Role::Moderator => 1,
        Role::Admin => 2,
    }
}

impl Role {
    /// Whether this role reaches at least the rank of `required`.
    pub fn at_least(self, required: Role) -> (r: bool)
        ensures
            r == (role_rank(self) >= role_rank(required)),
    {
        let mine: u8 = match self {
            Role::User => 0,
            Role::Moderator => 1,
            Role::Admin => 2,
        };
        let needed: u8 = match required {
            Role::User => 0,
            Role::Moderator => 1,
            Role::Admin => 2,
        };
        mine >= needed
    }
}

/// Who a token resolved to: a user and the role the Identity service
/// assigned them. Resolved anew for every privileged request; never
/// cached by the gateway.
#[derive(Clone, Copy, PartialEq, Eq, Structural, Debug)]
pub struct Identity {
    pub id: UserId,
    pub role: Role,
}

/// What the driver learned while resolving the request's token.
#[derive(Clone, Copy, PartialEq, Eq, Structural, Debug)]
pub enum AuthzEvent {
    /// The request carried no session token.
    NoToken,
    /// The Identity service resolved the token to this identity.
    Resolved(Identity),
    /// The Identity service answered, and rejected the token as
    /// invalid, revoked or unknown.
    TokenRejected,
    /// The Identity service could not be reached, or timed out.
    LookupFailed,
}

/// The decision: a missing or rejected credential is unauthenticated;
/// a lookup that failed in transport fails closed as an internal
/// error, never as an allow; a resolved identity passes exactly when
/// its role reaches the requirement, and is otherwise unauthorized.
pub open spec fn authorize_spec(event: AuthzEvent, required: Role) -> Result<
    Identity,
    ResponseError,
> {
    match event {
        AuthzEvent::NoToken => Err(ResponseError::Unauthenticated),
        AuthzEvent::TokenRejected => Err(ResponseError::Unauthenticated),
        AuthzEvent::LookupFailed => Err(ResponseError::InternalServerError),
        AuthzEvent::Resolved(identity) => if role_rank(identity.role) >= role_rank(required) {
            Ok(identity)
        } else {
            Err(ResponseError::Unauthorized)
        },
    }
}

/// Decides whether the resolved identity may perform an operation that
/// requires at least `required`. See [`authorize_spec`].
pub fn authorize(event: &AuthzEvent, required: Role) -> (r: Result<Identity, ResponseError>)
    ensures
        r == authorize_spec(*event, required),
{
    match event {
        AuthzEvent::NoToken => Err(ResponseError::Unauthenticated),
        AuthzEvent::TokenRejected => Err(ResponseError::Unauthenticated),
        AuthzEvent::LookupFailed => Err(ResponseError::InternalServerError),
        AuthzEvent::Resolved(identity) => {
            if identity.role.at_least(required) {
                Ok(*identity)
            } else {
                Err(ResponseError::Unauthorized)
            }
        },
    }
}

/// Role ordering and fail-closed behaviour, once and for all: authorization
/// allows exactly the resolved identities whose role reaches the
/// requirement; a failed lookup is answered with the internal error
/// and a missing token as unauthenticated — neither is ever an allow.
pub proof fn lemma_authorize_exact(event: AuthzEvent, required: Role)
    ensures
        authorize_spec(event, required) is Ok <==> (event matches AuthzEvent::Resolved(identity)
            && role_rank(identity.role) >= role_rank(required)),
        authorize_spec(event, required) matches Ok(identity) ==> event
            == AuthzEvent::Resolved(identity),
        event is LookupFailed ==> authorize_spec(event, required) == Err::<
            Identity,
            ResponseError,
        >(ResponseError::InternalServerError),
        event is NoToken || event is TokenRejected ==> authorize_spec(event, required) == Err::<
            Identity,
            ResponseError,
        >(ResponseError::Unauthenticated),
{
}

/// Whether search results should include hidden content: only for a
/// caller resolved to at least a moderator. A request without a token
/// simply sees no hidden content, but a presented token that is
/// rejected or cannot be resolved still fails closed.
pub open spec fn include_hidden_spec(event: AuthzEvent) -> Result<bool, ResponseError> {
    match event {
        AuthzEvent::NoToken => Ok(false),
        AuthzEvent::TokenRejected => Err(ResponseError::Unauthenticated),
        AuthzEvent::LookupFailed => Err(ResponseError::InternalServerError),
        AuthzEvent::Resolved(identity) => Ok(role_rank(identity.role) >= role_rank(Role::Moderator)),
    }
}

/// Decides whether the caller is a moderator or administrator and may
/// see hidden content. See [`include_hidden_spec`].
pub fn is_admin_or_mod(event: &AuthzEvent) -> (r: Result<bool, ResponseError>)
    ensures
        r == include_hidden_spec(*event),
{
    match event {
        AuthzEvent::NoToken => Ok(false),
        AuthzEvent::TokenRejected => Err(ResponseError::Unauthenticated),
        AuthzEvent::LookupFailed => Err(ResponseError::InternalServerError),
        AuthzEvent::Resolved(identity) => Ok(identity.role.at_least(Role::Moderator)),
    }
}

/// Ownership enforcement: a client-supplied author id that disagrees
/// with the resolved identity is rejected outright, whatever the role;
/// otherwise the mutation is stamped with the resolved id.
pub open spec fn enforce_owner_spec(identity: Identity, claimed: Option<UserId>) -> Result<
    UserId,
    ResponseError,
> {
    match claimed {
        Some(u) => if u == identity.id {
            Ok(identity.id)
        } else {
            Err(ResponseError::Unauthorized)
        },
        None => Ok(identity.id),
    }
}

/// Decides the author id a mutation is allowed to carry. See
/// [`enforce_owner_spec`].
pub fn enforce_owner(identity: &Identity, claimed: Option<UserId>) -> (r: Result<
    UserId,
    ResponseError,
>)
    ensures
        r == enforce_owner_spec(*identity, claimed),
{
    match claimed {
        Some(u) => {
            if u == identity.id {
                Ok(identity.id)
            } else {
                Err(ResponseError::Unauthorized)
            }
        },
        None => Ok(identity.id),
    }
}

} // verus!
