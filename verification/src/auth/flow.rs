//! The decisions of the auth route, separated from the calls they
//! drive.
//!
//! The route alternates remote work (Identity- and Content-service
//! calls, cookie manipulation) with decisions. The decisions live
//! here as pure functions from the request and each call's outcome to
//! the next step; the surrounding driver performs the calls and hands
//! their outcomes back.

use vstd::prelude::*;

use crate::auth::api::Token;
use crate::auth::requests::{AuthPayload, AuthRequest, RegisterPayload};
use crate::auth::responses::{AuthError, AuthSuccess};
use crate::errors::ResponseError;
use crate::ids::UserId;

verus! {

/// What the driver must do next after reading the request.
pub enum AuthStep {
    /// Ask the Identity service to authenticate these credentials.
    CallAuthenticate(AuthPayload),
    /// Ask the Identity service to revoke this session token.
    CallDeauthenticate(Token),
    /// Ask the Identity service to register this user.
    CallRegister(RegisterPayload),
    /// Nothing to call; answer the client directly.
    Finish(Result<AuthSuccess, ResponseError>),
}

/// What to do with the session cookie when answering.
pub enum CookieAction {
    /// Attach this token as the new session cookie.
    SetSession(Token),
    /// Remove the session cookie.
    ClearSession,
    /// Leave the cookies as they are.
    KeepSession,
}

/// The route's answer: a cookie action and the response body.
pub struct AuthConclusion {
    pub action: CookieAction,
    pub response: Result<AuthSuccess, ResponseError>,
}

/// The outcome of the Identity service's `authenticate` call, as the
/// driver observed it.
pub enum TokenOutcome {
    /// The service granted a session token.
    Granted(Token),
    /// The service rejected the credentials.
    Denied(AuthError),
    /// The service could not be reached, or timed out.
    Unreachable,
}

/// The outcome of the Identity service's `deauthenticate` call.
pub enum OpOutcome {
    Done,
    Denied(AuthError),
    Unreachable,
}

/// A newly registered user, as the Identity service reported it.
pub struct NewUser {
    pub id: UserId,
    pub raw_username: String,
}

/// The outcome of the Identity service's `register` call.
pub enum RegisterOutcome {
    Registered(NewUser),
    Denied(AuthError),
    Unreachable,
}

/// The outcome of the Content service's `add_user` call.
pub enum AddUserOutcome {
    Added,
    Fault,
    Unreachable,
}

/// What the driver must do after the `register` call.
pub enum RegisterNext {
    /// Hand the new user on to the Content service.
    CallAddUser(NewUser),
    /// Answer the client with this failure.
    Fail(ResponseError),
}

/// The first decision of the auth route: an unreadable request fails
/// authentication outright, a deauthentication without a session
/// cookie is unauthenticated, and everything else becomes the matching
/// Identity-service call.
pub open spec fn auth_begin_spec(req: Option<AuthRequest>, cookie: Option<Token>) -> AuthStep {
    match req {
        None => AuthStep::Finish(Err(ResponseError::Unauthenticated)),
        Some(AuthRequest::Authenticate(p)) => AuthStep::CallAuthenticate(p),
        Some(AuthRequest::Deauthenticate(_)) => match cookie {
            None => AuthStep::Finish(Err(ResponseError::Unauthenticated)),
            Some(t) => AuthStep::CallDeauthenticate(t),
        },
        Some(AuthRequest::RegisterUser(p)) => AuthStep::CallRegister(p),
    }
}

/// Decides the auth route's first step. See [`auth_begin_spec`].
pub fn auth_begin(req: Option<AuthRequest>, cookie: Option<Token>) -> (r: AuthStep)
    ensures
        r == auth_begin_spec(req, cookie),
{
    match req {
        None => AuthStep::Finish(Err(ResponseError::Unauthenticated)),
        Some(AuthRequest::Authenticate(p)) => AuthStep::CallAuthenticate(p),
        Some(AuthRequest::Deauthenticate(_)) => match cookie {
            None => AuthStep::Finish(Err(ResponseError::Unauthenticated)),
            Some(t) => AuthStep::CallDeauthenticate(t),
        },
        Some(AuthRequest::RegisterUser(p)) => AuthStep::CallRegister(p),
    }
}

/// How the `authenticate` outcome is answered: a granted token becomes
/// the session cookie; a rejection surfaces as unauthenticated; an
/// unreachable backend fails closed as an internal error.
pub open spec fn conclude_authenticate_spec(outcome: TokenOutcome) -> AuthConclusion {
    match outcome {
        TokenOutcome::Granted(t) => AuthConclusion {
            action: CookieAction::SetSession(t),
            response: Ok(AuthSuccess::Authenticated),
        },
        TokenOutcome::Denied(_) => AuthConclusion {
            action: CookieAction::KeepSession,
            response: Err(ResponseError::Unauthenticated),
        },
        TokenOutcome::Unreachable => AuthConclusion {
            action: CookieAction::KeepSession,
            response: Err(ResponseError::InternalServerError),
        },
    }
}

/// Decides the answer to an `authenticate` outcome. See
/// [`conclude_authenticate_spec`].
pub fn conclude_authenticate(outcome: TokenOutcome) -> (r: AuthConclusion)
    ensures
        r == conclude_authenticate_spec(outcome),
{
    match outcome {
        TokenOutcome::Granted(t) => AuthConclusion {
            action: CookieAction::SetSession(t),
            response: Ok(AuthSuccess::Authenticated),
        },
        TokenOutcome::Denied(e) => AuthConclusion {
            action: CookieAction::KeepSession,
            response: Err(e.to_response()),
        },
        TokenOutcome::Unreachable => AuthConclusion {
            action: CookieAction::KeepSession,
            response: Err(ResponseError::InternalServerError),
        },
    }
}

/// How the `deauthenticate` outcome is answered: on success the
/// session cookie is removed; failures leave it and fail closed.
pub open spec fn conclude_deauthenticate_spec(outcome: OpOutcome) -> AuthConclusion {
    match outcome {
        OpOutcome::Done => AuthConclusion {
            action: CookieAction::ClearSession,
            response: Ok(AuthSuccess::Deauthenticated),
        },
        OpOutcome::Denied(_) => AuthConclusion {
            action: CookieAction::KeepSession,
            response: Err(ResponseError::Unauthenticated),
        },
        OpOutcome::Unreachable => AuthConclusion {
            action: CookieAction::KeepSession,
            response: Err(ResponseError::InternalServerError),
        },
    }
}

/// Decides the answer to a `deauthenticate` outcome. See
/// [`conclude_deauthenticate_spec`].
pub fn conclude_deauthenticate(outcome: OpOutcome) -> (r: AuthConclusion)
    ensures
        r == conclude_deauthenticate_spec(outcome),
{
    match outcome {
        OpOutcome::Done => AuthConclusion {
            action: CookieAction::ClearSession,
            response: Ok(AuthSuccess::Deauthenticated),
        },
        OpOutcome::Denied(e) => AuthConclusion {
            action: CookieAction::KeepSession,
            response: Err(e.to_response()),
        },
        OpOutcome::Unreachable => AuthConclusion {
            action: CookieAction::KeepSession,
            response: Err(ResponseError::InternalServerError),
        },
    }
}

/// What follows the `register` call: a registered user is handed on to
/// the Content service; failures answer the client at once, an
/// unreachable backend failing closed.
pub open spec fn register_next_spec(outcome: RegisterOutcome) -> RegisterNext {
    match outcome {
        RegisterOutcome::Registered(u) => RegisterNext::CallAddUser(u),
        RegisterOutcome::Denied(_) => RegisterNext::Fail(ResponseError::Unauthenticated),
        RegisterOutcome::Unreachable => RegisterNext::Fail(ResponseError::InternalServerError),
    }
}

/// Decides what follows the `register` call. See
/// [`register_next_spec`].
pub fn register_next(outcome: RegisterOutcome) -> (r: RegisterNext)
    ensures
        r == register_next_spec(outcome),
{
    match outcome {
        RegisterOutcome::Registered(u) => RegisterNext::CallAddUser(u),
        RegisterOutcome::Denied(e) => RegisterNext::Fail(e.to_response()),
        RegisterOutcome::Unreachable => RegisterNext::Fail(ResponseError::InternalServerError),
    }
}

/// How the final `add_user` outcome is answered: success completes the
/// registration; any Content-service fault, unreachable included, is
/// collapsed into the generic internal error.
pub open spec fn conclude_add_user_spec(outcome: AddUserOutcome) -> Result<
    AuthSuccess,
    ResponseError,
> {
    match outcome {
        AddUserOutcome::Added => Ok(AuthSuccess::UserRegistered),
        AddUserOutcome::Fault => Err(ResponseError::InternalServerError),
        AddUserOutcome::Unreachable => Err(ResponseError::InternalServerError),
    }
}

/// Decides the answer to the final `add_user` outcome. See
/// [`conclude_add_user_spec`].
pub fn conclude_add_user(outcome: AddUserOutcome) -> (r: Result<AuthSuccess, ResponseError>)
    ensures
        r == conclude_add_user_spec(outcome),
{
    match outcome {
        AddUserOutcome::Added => Ok(AuthSuccess::UserRegistered),
        AddUserOutcome::Fault => Err(ResponseError::InternalServerError),
        AddUserOutcome::Unreachable => Err(ResponseError::InternalServerError),
    }
}

} // verus!
