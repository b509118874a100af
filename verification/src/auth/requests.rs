//! The request shapes of the auth route.

use vstd::prelude::*;

verus! {

/// The credentials carried by an authentication request, raw as
/// submitted; validation happens when they are turned into fields.
#[derive(Clone, PartialEq, Eq, Debug)]
pub struct AuthPayload {
    pub raw_username: String,
    pub raw_password: String,
}

/// The (empty) payload of a deauthentication request.
#[derive(Clone, Copy, PartialEq, Eq, Structural, Debug)]
pub struct EmptyPayload {}

/// The payload of a registration request.
#[derive(Clone, PartialEq, Eq, Debug)]
pub struct RegisterPayload {
    pub raw_username: String,
    pub raw_email: String,
    pub raw_password: String,
}

/// A request to the auth route: authenticate, end the session, or
/// register a new user.
#[derive(Clone, PartialEq, Eq, Debug)]
pub enum AuthRequest {
    Authenticate(AuthPayload),
    Deauthenticate(EmptyPayload),
    RegisterUser(RegisterPayload),
}

} // verus!
