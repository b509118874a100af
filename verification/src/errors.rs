//! The client-facing error taxonomy, and the translation of
//! heterogeneous failure causes into it.
//!
//! Failures from the Identity service, the Content service and the
//! gateway itself are collapsed into one stable set of responses: the
//! most specific known cause wins, and anything unrecognized becomes a
//! generic internal error rather than leaking backend detail.

use vstd::prelude::*;

verus! {

/// The stable, client-visible error taxonomy.
#[derive(Clone, Copy, PartialEq, Eq, Structural, Debug)]
pub enum ResponseError {
    /// No or invalid credential was presented where one is required.
    Unauthenticated,
    /// A valid credential, but an insufficient role.
    Unauthorized,
    /// A backend was unreachable, a lock failed, or a downstream fault
    /// was not recognized; no internal detail is exposed.
    InternalServerError,
    /// The client address is blacklisted; surfaced only through the
    /// fixed banned response.
    Banned,
}

impl ResponseError {
    /// The response tag the error is serialized under.
    pub fn tag(&self) -> (r: &'static str)
        ensures
            r@ == match *self {
                ResponseError::Unauthenticated => "UNAUTHENTICATED"@,
                ResponseError::Unauthorized => "UNAUTHORIZED"@,
                ResponseError::InternalServerError => "INTERNAL_SERVER_ERROR"@,
                ResponseError::Banned => "BANNED"@,
            },
    {
        match *self {
            ResponseError::Unauthenticated => "UNAUTHENTICATED",
            ResponseError::Unauthorized => "UNAUTHORIZED",
            ResponseError::InternalServerError => "INTERNAL_SERVER_ERROR",
            ResponseError::Banned => "BANNED",
        }
    }
}

/// Everything that can go wrong while handling one request, across the
/// three independent failure universes: the Identity service, the
/// Content service, and the gateway itself.
#[derive(Clone, Copy, PartialEq, Eq, Structural, Debug)]
pub enum FailureCause {
    /// A required credential is missing.
    NoCredential,
    /// The Identity service rejected the presented credential.
    BadCredential,
    /// The credential is valid but the resolved role does not reach
    /// the route's requirement.
    InsufficientRole,
    /// A backend could not be reached, or timed out.
    BackendUnreachable,
    /// A backend answered with a fault the gateway does not recognize.
    BackendFault,
    /// A shared-state lock was poisoned.
    LockPoisoned,
    /// The client address is blacklisted.
    AddressBanned,
}

/// What the client is told for each failure cause.
pub open spec fn translate_spec(cause: FailureCause) -> ResponseError {
    match cause {
        FailureCause::NoCredential => ResponseError::Unauthenticated,
        FailureCause::BadCredential => ResponseError::Unauthenticated,
        FailureCause::InsufficientRole => ResponseError::Unauthorized,
        FailureCause::AddressBanned => ResponseError::Banned,
        FailureCause::BackendUnreachable => ResponseError::InternalServerError,
        FailureCause::BackendFault => ResponseError::InternalServerError,
        FailureCause::LockPoisoned => ResponseError::InternalServerError,
    }
}

/// Maps a failure cause to the client-visible taxonomy. The most
/// specific known cause wins; backend faults, unreachable backends and
/// lock failures all collapse into the generic internal error.
pub fn translate(cause: FailureCause) -> (r: ResponseError)
    ensures
        r == translate_spec(cause),
{
    match cause {
        FailureCause::NoCredential => ResponseError::Unauthenticated,
        FailureCause::BadCredential => ResponseError::Unauthenticated,
        FailureCause::InsufficientRole => ResponseError::Unauthorized,
        FailureCause::AddressBanned => ResponseError::Banned,
        FailureCause::BackendUnreachable => ResponseError::InternalServerError,
        FailureCause::BackendFault => ResponseError::InternalServerError,
        FailureCause::LockPoisoned => ResponseError::InternalServerError,
    }
}

} // verus!
