//! The authorization gate, the admin route, the content-mutation
//! vetting, and the error translation.

use security_gate::addr::parse_ipv4;
use security_gate::admin::{handle_admin, AdminRequest, AdminSuccess, IpPayload};
use security_gate::admission::{Admission, AdmissionPipeline};
use security_gate::authz::{
    authorize, enforce_owner, is_admin_or_mod, AuthzEvent, Identity, Role,
};
use security_gate::content::gate::{
    gate_content, vet_content, CategoryHide, CommentEdit, ContentRequest, ThreadDraft, UserAdd,
};
use security_gate::errors::{translate, FailureCause, ResponseError};
use security_gate::ids::UserId;

fn user(id: u32, role: Role) -> Identity {
    Identity { id: UserId(id), role }
}

#[test]
fn role_order_denies_a_user_where_a_moderator_is_required() {
    let event = AuthzEvent::Resolved(user(7, Role::User));
    assert_eq!(
        authorize(&event, Role::Moderator),
        Err(ResponseError::Unauthorized)
    );
}

#[test]
fn role_order_admits_an_admin_where_a_moderator_is_required() {
    let identity = user(3, Role::Admin);
    let event = AuthzEvent::Resolved(identity);
    assert_eq!(authorize(&event, Role::Moderator), Ok(identity));
}

#[test]
fn role_order_is_reflexive() {
    let identity = user(4, Role::Moderator);
    let event = AuthzEvent::Resolved(identity);
    assert_eq!(authorize(&event, Role::Moderator), Ok(identity));
    assert_eq!(authorize(&event, Role::User), Ok(identity));
    assert_eq!(
        authorize(&event, Role::Admin),
        Err(ResponseError::Unauthorized)
    );
}

#[test]
fn missing_token_is_unauthenticated() {
    assert_eq!(
        authorize(&AuthzEvent::NoToken, Role::User),
        Err(ResponseError::Unauthenticated)
    );
}

#[test]
fn a_rejected_token_is_unauthenticated() {
    // A token the Identity service rejects is an invalid credential,
    // not a transport failure.
    for required in [Role::User, Role::Moderator, Role::Admin] {
        assert_eq!(
            authorize(&AuthzEvent::TokenRejected, required),
            Err(ResponseError::Unauthenticated)
        );
    }
}

#[test]
fn failed_lookup_fails_closed() {
    // A failed role lookup is never an allow, whatever was required.
    for required in [Role::User, Role::Moderator, Role::Admin] {
        assert_eq!(
            authorize(&AuthzEvent::LookupFailed, required),
            Err(ResponseError::InternalServerError)
        );
    }
}

#[test]
fn hidden_content_is_for_moderators_and_admins() {
    assert_eq!(is_admin_or_mod(&AuthzEvent::NoToken), Ok(false));
    assert_eq!(
        is_admin_or_mod(&AuthzEvent::Resolved(user(1, Role::User))),
        Ok(false)
    );
    assert_eq!(
        is_admin_or_mod(&AuthzEvent::Resolved(user(2, Role::Moderator))),
        Ok(true)
    );
    assert_eq!(
        is_admin_or_mod(&AuthzEvent::Resolved(user(3, Role::Admin))),
        Ok(true)
    );
    assert_eq!(
        is_admin_or_mod(&AuthzEvent::LookupFailed),
        Err(ResponseError::InternalServerError)
    );
    assert_eq!(
        is_admin_or_mod(&AuthzEvent::TokenRejected),
        Err(ResponseError::Unauthenticated)
    );
}

#[test]
fn admin_unban_scenario() {
    // An admin token unbans 203.0.113.7; the response carries the
    // IPUNBANNED envelope and the next request from that address is
    // admitted again.
    let mut gate = AdmissionPipeline::new(10, 40);
    let a = parse_ipv4("203.0.113.7").unwrap();
    gate.ban(a);
    assert_eq!(gate.screen(Some(a), 2000), Admission::Rejected);

    let admin = AuthzEvent::Resolved(user(1, Role::Admin));
    let req = AdminRequest::UnbanIp(IpPayload { ip: a });
    let outcome = handle_admin(&mut gate, &admin, &req);
    assert_eq!(outcome, Ok(AdminSuccess::IpUnbanned));
    assert_eq!(
        outcome.unwrap().response_body(),
        "{\"type\":\"IPUNBANNED\"}"
    );
    assert_eq!(gate.screen(Some(a), 2005), Admission::Admitted);
}

#[test]
fn admin_ban_requires_the_admin_role() {
    let mut gate = AdmissionPipeline::new(10, 40);
    let a = parse_ipv4("203.0.113.7").unwrap();
    let req = AdminRequest::BanIp(IpPayload { ip: a });

    let moderator = AuthzEvent::Resolved(user(2, Role::Moderator));
    assert_eq!(
        handle_admin(&mut gate, &moderator, &req),
        Err(ResponseError::Unauthorized)
    );
    assert!(!gate.is_banned(a));

    let admin = AuthzEvent::Resolved(user(1, Role::Admin));
    assert_eq!(handle_admin(&mut gate, &admin, &req), Ok(AdminSuccess::IpBanned));
    assert!(gate.is_banned(a));
    assert_eq!(
        AdminSuccess::IpBanned.response_body(),
        "{\"type\":\"IPBANNED\"}"
    );
}

#[test]
fn admin_route_fails_closed_on_lookup_failure() {
    let mut gate = AdmissionPipeline::new(10, 40);
    let a = parse_ipv4("203.0.113.7").unwrap();
    let req = AdminRequest::BanIp(IpPayload { ip: a });
    assert_eq!(
        handle_admin(&mut gate, &AuthzEvent::LookupFailed, &req),
        Err(ResponseError::InternalServerError)
    );
    assert!(!gate.is_banned(a));
}

#[test]
fn ownership_is_enforced_regardless_of_role() {
    // A mutation claiming another user's id is rejected even for an
    // admin.
    let admin = user(1, Role::Admin);
    assert_eq!(
        enforce_owner(&admin, Some(UserId(9))),
        Err(ResponseError::Unauthorized)
    );
    assert_eq!(enforce_owner(&admin, Some(UserId(1))), Ok(UserId(1)));
    assert_eq!(enforce_owner(&admin, None), Ok(UserId(1)));
}

#[test]
fn content_mutation_with_foreign_user_id_is_rejected() {
    let identity = user(22, Role::Admin);
    let req = ContentRequest::AddThread(ThreadDraft {
        category_id: security_gate::ids::CategoryId(6),
        user_id: Some(UserId(4)),
        title: "Hello".to_string(),
        description: "Hello everybody.".to_string(),
    });
    assert_eq!(
        vet_content(req, &identity),
        Err(ResponseError::Unauthorized)
    );
}

#[test]
fn content_mutation_is_stamped_with_the_resolved_id() {
    let identity = user(22, Role::User);
    let req = ContentRequest::AddThread(ThreadDraft {
        category_id: security_gate::ids::CategoryId(6),
        user_id: None,
        title: "Hello".to_string(),
        description: "Hello everybody.".to_string(),
    });
    let vetted = vet_content(req, &identity).unwrap();
    match vetted {
        ContentRequest::AddThread(d) => assert_eq!(d.user_id, Some(UserId(22))),
        _ => panic!("the vetted request changed kind"),
    }
}

#[test]
fn category_mutations_need_a_role() {
    let hide = ContentRequest::HideCategory(CategoryHide {
        id: security_gate::ids::CategoryId(3),
    });
    assert_eq!(
        vet_content(hide.clone(), &user(5, Role::Moderator)),
        Err(ResponseError::Unauthorized)
    );
    assert_eq!(vet_content(hide.clone(), &user(5, Role::Admin)), Ok(hide));
}

#[test]
fn users_cannot_be_added_through_the_content_route() {
    let req = ContentRequest::AddUser(UserAdd {
        id: UserId(9),
        raw_username: "intruder1".to_string(),
    });
    assert_eq!(
        vet_content(req, &user(1, Role::Admin)),
        Err(ResponseError::Unauthorized)
    );
}

#[test]
fn the_content_gate_composes_authorization_and_vetting() {
    let edit = ContentRequest::EditComment(CommentEdit {
        id: security_gate::ids::CommentId(98),
        user_id: None,
        content: "Hello everybody.".to_string(),
    });
    assert_eq!(
        gate_content(&AuthzEvent::NoToken, edit.clone()),
        Err(ResponseError::Unauthenticated)
    );
    assert_eq!(
        gate_content(&AuthzEvent::LookupFailed, edit.clone()),
        Err(ResponseError::InternalServerError)
    );
    let vetted = gate_content(&AuthzEvent::Resolved(user(7, Role::User)), edit).unwrap();
    match vetted {
        ContentRequest::EditComment(c) => assert_eq!(c.user_id, Some(UserId(7))),
        _ => panic!("the vetted request changed kind"),
    }
}

#[test]
fn every_failure_cause_translates_into_the_taxonomy() {
    assert_eq!(
        translate(FailureCause::NoCredential),
        ResponseError::Unauthenticated
    );
    assert_eq!(
        translate(FailureCause::BadCredential),
        ResponseError::Unauthenticated
    );
    assert_eq!(
        translate(FailureCause::InsufficientRole),
        ResponseError::Unauthorized
    );
    assert_eq!(translate(FailureCause::AddressBanned), ResponseError::Banned);
    assert_eq!(
        translate(FailureCause::BackendUnreachable),
        ResponseError::InternalServerError
    );
    assert_eq!(
        translate(FailureCause::BackendFault),
        ResponseError::InternalServerError
    );
    assert_eq!(
        translate(FailureCause::LockPoisoned),
        ResponseError::InternalServerError
    );
}

#[test]
fn response_tags_are_stable() {
    assert_eq!(ResponseError::Unauthenticated.tag(), "UNAUTHENTICATED");
    assert_eq!(ResponseError::Unauthorized.tag(), "UNAUTHORIZED");
    assert_eq!(
        ResponseError::InternalServerError.tag(),
        "INTERNAL_SERVER_ERROR"
    );
    assert_eq!(ResponseError::Banned.tag(), "BANNED");
}
