//! The admin route: ban or unban a client address, gated on an
//! admin-role token.

use vstd::prelude::*;

use crate::addr::ClientAddr;
use crate::admission::AdmissionPipeline;
use crate::authz::{authorize, authorize_spec, AuthzEvent, Role};
use crate::errors::ResponseError;

verus! {

/// The address an admin request acts on.
#[derive(Clone, Copy, PartialEq, Eq, Structural, Debug)]
pub struct IpPayload {
    pub ip: ClientAddr,
}

/// A request to the admin route.
#[derive(Clone, Copy, PartialEq, Eq, Structural, Debug)]
pub enum AdminRequest {
    BanIp(IpPayload),
    UnbanIp(IpPayload),
}

/// The admin route's acknowledgement. Banning an already banned
/// address (or unbanning an absent one) still succeeds: the operations
/// are idempotent.
#[derive(Clone, Copy, PartialEq, Eq, Structural, Debug)]
pub enum AdminSuccess {
    IpBanned,
    IpUnbanned,
}

impl AdminSuccess {
    /// The response tag the acknowledgement is serialized under.
    pub fn tag(&self) -> (r: &'static str)
        ensures
            r@ == match *self {
                AdminSuccess::IpBanned => "IPBANNED"@,
                AdminSuccess::IpUnbanned => "IPUNBANNED"@,
            },
    {
        match *self {
            AdminSuccess::IpBanned => "IPBANNED",
            AdminSuccess::IpUnbanned => "IPUNBANNED",
        }
    }

    /// The response envelope the acknowledgement is sent as.
    pub fn response_body(&self) -> (r: String)
        ensures
            r@ == match *self {
                AdminSuccess::IpBanned => "{\"type\":\"IPBANNED\"}"@,
                AdminSuccess::IpUnbanned => "{\"type\":\"IPUNBANNED\"}"@,
            },
    {
        match *self {
            AdminSuccess::IpBanned => String::from_str("{\"type\":\"IPBANNED\"}"),
            AdminSuccess::IpUnbanned => String::from_str("{\"type\":\"IPUNBANNED\"}"),
        }
    }
}

/// What the admin route does to the banned set, and what it answers:
/// nothing at all unless the token resolved to at least an admin, and
/// otherwise the requested idempotent insertion or removal.
pub open spec fn handle_admin_spec(
    banned: Set<ClientAddr>,
    event: AuthzEvent,
    req: AdminRequest,
) -> (Set<ClientAddr>, Result<AdminSuccess, ResponseError>) {
    match authorize_spec(event, Role::Admin) {
        Err(e) => (banned, Err(e)),
        Ok(_) => match req {
            AdminRequest::BanIp(p) => (banned.insert(p.ip), Ok(AdminSuccess::IpBanned)),
            AdminRequest::UnbanIp(p) => (banned.remove(p.ip), Ok(AdminSuccess::IpUnbanned)),
        },
    }
}

/// Handles one admin request against the pipeline's blacklist. Only the
/// banned set changes; the rate records are untouched. See
/// [`handle_admin_spec`].
pub fn handle_admin(
    pipeline: &mut AdmissionPipeline,
    event: &AuthzEvent,
    req: &AdminRequest,
) -> (r: Result<AdminSuccess, ResponseError>)
    requires
        old(pipeline).wf(),
    ensures
        final(pipeline).wf(),
        final(pipeline).width() == old(pipeline).width(),
        final(pipeline).threshold() == old(pipeline).threshold(),
        final(pipeline)@.windows == old(pipeline)@.windows,
        (final(pipeline)@.banned, r) == handle_admin_spec(old(pipeline)@.banned, *event, *req),
{
    match authorize(event, Role::Admin) {
        Err(e) => Err(e),
        Ok(_) => match req {
            AdminRequest::BanIp(p) => {
                // Idempotent: the store reports whether the ban is new,
                // which is logged, not surfaced.
                let _newly_banned = pipeline.ban(p.ip);
                Ok(AdminSuccess::IpBanned)
            },
            AdminRequest::UnbanIp(p) => {
                let _was_banned = pipeline.unban(p.ip);
                Ok(AdminSuccess::IpUnbanned)
            },
        },
    }
}

} // verus!
