//! The response shapes of the auth route, and how Identity-service
//! errors surface to the client.

use vstd::prelude::*;

use crate::errors::ResponseError;

verus! {

/// A successful outcome of the auth route.
#[derive(Clone, Copy, PartialEq, Eq, Structural, Debug)]
pub enum AuthSuccess {
    Authenticated,
    Deauthenticated,
    UserRegistered,
}

/// What the Identity service can object to about a request.
#[derive(Clone, Copy, PartialEq, Eq, Structural, Debug)]
pub enum AuthError {
    MissingToken,
    InvalidUsername,
    InvalidPassword,
}

impl AuthError {
    /// How an Identity-service objection surfaces to the client: every
    /// credential problem is an authentication failure, with no
    /// further detail disclosed.
    pub fn to_response(&self) -> (r: ResponseError)
        ensures
            r == ResponseError::Unauthenticated,
    {
        match *self {
            AuthError::MissingToken => ResponseError::Unauthenticated,
            AuthError::InvalidUsername => ResponseError::Unauthenticated,
            AuthError::InvalidPassword => ResponseError::Unauthenticated,
        }
    }
}

} // verus!
