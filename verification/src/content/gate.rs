//! The vetting every content mutation passes through before it is
//! forwarded to the Content service: a minimum role per kind of
//! mutation, and ownership enforcement on everything that carries an
//! author id.

use vstd::prelude::*;

use crate::authz::{authorize, authorize_spec, enforce_owner, enforce_owner_spec, role_rank};
use crate::authz::{AuthzEvent, Identity, Role};
use crate::content::responses::GetError;
use crate::errors::ResponseError;
use crate::ids::{CategoryId, CommentId, Id, ThreadId, UserId};

verus! {

/// A new category: title and description.
#[derive(Clone, PartialEq, Eq, Debug)]
pub struct CategoryDraft {
    pub title: String,
    pub description: String,
}

/// An edit of an existing category.
#[derive(Clone, PartialEq, Eq, Debug)]
pub struct CategoryEdit {
    pub id: CategoryId,
    pub title: String,
    pub description: String,
}

/// A request to hide a category.
#[derive(Clone, Copy, PartialEq, Eq, Structural, Debug)]
pub struct CategoryHide {
    pub id: CategoryId,
}

/// A new thread, with the author id the client claims (if any).
#[derive(Clone, PartialEq, Eq, Debug)]
pub struct ThreadDraft {
    pub category_id: CategoryId,
    pub user_id: Option<UserId>,
    pub title: String,
    pub description: String,
}

/// An edit of an existing thread.
#[derive(Clone, PartialEq, Eq, Debug)]
pub struct ThreadEdit {
    pub id: ThreadId,
    pub user_id: Option<UserId>,
    pub title: String,
    pub description: String,
}

/// A request to hide a thread.
#[derive(Clone, Copy, PartialEq, Eq, Structural, Debug)]
pub struct ThreadHide {
    pub id: ThreadId,
    pub user_id: Option<UserId>,
}

/// A new comment.
#[derive(Clone, PartialEq, Eq, Debug)]
pub struct CommentDraft {
    pub thread_id: ThreadId,
    pub user_id: Option<UserId>,
    pub content: String,
}

/// An edit of an existing comment.
#[derive(Clone, PartialEq, Eq, Debug)]
pub struct CommentEdit {
    pub id: CommentId,
    pub user_id: Option<UserId>,
    pub content: String,
}

/// A request to hide a comment.
#[derive(Clone, Copy, PartialEq, Eq, Structural, Debug)]
pub struct CommentHide {
    pub id: CommentId,
    pub user_id: Option<UserId>,
}

/// A request to add a user directly (never allowed through this
/// route; users come in through registration).
#[derive(Clone, PartialEq, Eq, Debug)]
pub struct UserAdd {
    pub id: UserId,
    pub raw_username: String,
}

/// An edit of a user's own profile.
#[derive(Clone, PartialEq, Eq, Debug)]
pub struct UserEdit {
    pub id: Option<UserId>,
    pub description: String,
    pub avatar: String,
}

/// A content mutation, as the content route receives it.
#[derive(Clone, PartialEq, Eq, Debug)]
pub enum ContentRequest {
    AddCategory(CategoryDraft),
    EditCategory(CategoryEdit),
    HideCategory(CategoryHide),
    AddThread(ThreadDraft),
    EditThread(ThreadEdit),
    HideThread(ThreadHide),
    AddComment(CommentDraft),
    EditComment(CommentEdit),
    HideComment(CommentHide),
    AddUser(UserAdd),
    EditUser(UserEdit),
}

/// The vetting rule, per kind of mutation:
/// - category mutations need a role (moderator to add or edit, admin
///   to hide) and carry no author id;
/// - thread and comment mutations are open to every authenticated
///   user, but a claimed author id that disagrees with the resolved
///   identity is rejected as unauthorized, whatever the role, and the
///   forwarded request is stamped with the resolved id;
/// - users cannot be added through this route at all, and a profile
///   edit is stamped the same way a thread is.
pub open spec fn vet_content_spec(req: ContentRequest, identity: Identity) -> Result<
    ContentRequest,
    ResponseError,
> {
    match req {
        ContentRequest::AddCategory(d) => if role_rank(identity.role) >= role_rank(
            Role::Moderator,
        ) {
            Ok(ContentRequest::AddCategory(d))
        } else {
            Err(ResponseError::Unauthorized)
        },
        ContentRequest::EditCategory(e) => if role_rank(identity.role) >= role_rank(
            Role::Moderator,
        ) {
            Ok(ContentRequest::EditCategory(e))
        } else {
            Err(ResponseError::Unauthorized)
        },
        ContentRequest::HideCategory(h) => if role_rank(identity.role) >= role_rank(Role::Admin) {
            Ok(ContentRequest::HideCategory(h))
        } else {
            Err(ResponseError::Unauthorized)
        },
        ContentRequest::AddThread(d) => match enforce_owner_spec(identity, d.user_id) {
            Ok(u) => Ok(
                ContentRequest::AddThread(
                    ThreadDraft {
                        category_id: d.category_id,
                        user_id: Some(u),
                        title: d.title,
                        description: d.description,
                    },
                ),
            ),
            Err(e) => Err(e),
        },
        ContentRequest::EditThread(d) => match enforce_owner_spec(identity, d.user_id) {
            Ok(u) => Ok(
                ContentRequest::EditThread(
                    ThreadEdit {
                        id: d.id,
                        user_id: Some(u),
                        title: d.title,
                        description: d.description,
                    },
                ),
            ),
            Err(e) => Err(e),
        },
        ContentRequest::HideThread(d) => match enforce_owner_spec(identity, d.user_id) {
            Ok(u) => Ok(ContentRequest::HideThread(ThreadHide { id: d.id, user_id: Some(u) })),
            Err(e) => Err(e),
        },
        ContentRequest::AddComment(d) => match enforce_owner_spec(identity, d.user_id) {
            Ok(u) => Ok(
                ContentRequest::AddComment(
                    CommentDraft { thread_id: d.thread_id, user_id: Some(u), content: d.content },
                ),
            ),
            Err(e) => Err(e),
        },
        ContentRequest::EditComment(d) => match enforce_owner_spec(identity, d.user_id) {
            Ok(u) => Ok(
                ContentRequest::EditComment(
                    CommentEdit { id: d.id, user_id: Some(u), content: d.content },
                ),
            ),
            Err(e) => Err(e),
        },
        ContentRequest::HideComment(d) => match enforce_owner_spec(identity, d.user_id) {
            Ok(u) => Ok(ContentRequest::HideComment(CommentHide { id: d.id, user_id: Some(u) })),
            Err(e) => Err(e),
        },
        ContentRequest::AddUser(_) => Err(ResponseError::Unauthorized),
        ContentRequest::EditUser(d) => match enforce_owner_spec(identity, d.id) {
            Ok(u) => Ok(
                ContentRequest::EditUser(
                    UserEdit { id: Some(u), description: d.description, avatar: d.avatar },
                ),
            ),
            Err(e) => Err(e),
        },
    }
}

/// Vets one content mutation for the resolved identity. See
/// [`vet_content_spec`].
pub fn vet_content(req: ContentRequest, identity: &Identity) -> (r: Result<
    ContentRequest,
    ResponseError,
>)
    ensures
        r == vet_content_spec(req, *identity),
{
    match req {
        ContentRequest::AddCategory(d) => {
            if identity.role.at_least(Role::Moderator) {
                Ok(ContentRequest::AddCategory(d))
            } else {
                Err(ResponseError::Unauthorized)
            }
        },
        ContentRequest::EditCategory(e) => {
            if identity.role.at_least(Role::Moderator) {
                Ok(ContentRequest::EditCategory(e))
            } else {
                Err(ResponseError::Unauthorized)
            }
        },
        ContentRequest::HideCategory(h) => {
            if identity.role.at_least(Role::Admin) {
                Ok(ContentRequest::HideCategory(h))
            } else {
                Err(ResponseError::Unauthorized)
            }
        },
        ContentRequest::AddThread(d) => {
            match enforce_owner(identity, d.user_id) {
                Ok(u) => Ok(
                    ContentRequest::AddThread(
                        ThreadDraft {
                            category_id: d.category_id,
                            user_id: Some(u),
                            title: d.title,
                            description: d.description,
                        },
                    ),
                ),
                Err(e) => Err(e),
            }
        },
        ContentRequest::EditThread(d) => {
            match enforce_owner(identity, d.user_id) {
                Ok(u) => Ok(
                    ContentRequest::EditThread(
                        ThreadEdit {
                            id: d.id,
                            user_id: Some(u),
                            title: d.title,
                            description: d.description,
                        },
                    ),
                ),
                Err(e) => Err(e),
            }
        },
        ContentRequest::HideThread(d) => {
            match enforce_owner(identity, d.user_id) {
                Ok(u) => Ok(ContentRequest::HideThread(ThreadHide { id: d.id, user_id: Some(u) })),
                Err(e) => Err(e),
            }
        },
        ContentRequest::AddComment(d) => {
            match enforce_owner(identity, d.user_id) {
                Ok(u) => Ok(
                    ContentRequest::AddComment(
                        CommentDraft {
                            thread_id: d.thread_id,
                            user_id: Some(u),
                            content: d.content,
                        },
                    ),
                ),
                Err(e) => Err(e),
            }
        },
        ContentRequest::EditComment(d) => {
            match enforce_owner(identity, d.user_id) {
                Ok(u) => Ok(
                    ContentRequest::EditComment(
                        CommentEdit { id: d.id, user_id: Some(u), content: d.content },
                    ),
                ),
                Err(e) => Err(e),
            }
        },
        ContentRequest::HideComment(d) => {
            match enforce_owner(identity, d.user_id) {
                Ok(u) => Ok(ContentRequest::HideComment(CommentHide { id: d.id, user_id: Some(u) })),
                Err(e) => Err(e),
            }
        },
        ContentRequest::AddUser(_) => Err(ResponseError::Unauthorized),
        ContentRequest::EditUser(d) => {
            match enforce_owner(identity, d.id) {
                Ok(u) => Ok(
                    ContentRequest::EditUser(
                        UserEdit { id: Some(u), description: d.description, avatar: d.avatar },
                    ),
                ),
                Err(e) => Err(e),
            }
        },
    }
}

/// The whole decision of the content route for one request: the token
/// resolution outcome must authorize at least an ordinary user, and
/// the mutation is then vetted for that identity.
pub open spec fn gate_content_spec(event: AuthzEvent, req: ContentRequest) -> Result<
    ContentRequest,
    ResponseError,
> {
    match authorize_spec(event, Role::User) {
        Ok(identity) => vet_content_spec(req, identity),
        Err(e) => Err(e),
    }
}

/// Runs the content route's gate. See [`gate_content_spec`].
pub fn gate_content(event: &AuthzEvent, req: ContentRequest) -> (r: Result<
    ContentRequest,
    ResponseError,
>)
    ensures
        r == gate_content_spec(*event, req),
{
    match authorize(event, Role::User) {
        Ok(identity) => vet_content(req, &identity),
        Err(e) => Err(e),
    }
}

/// The id check shared by the single-entity read routes: a missing or
/// unparsed id segment is rejected before anything is forwarded.
pub fn require_id<I: Id + Copy>(id: Option<I>) -> (r: Result<I, GetError>)
    ensures
        r == match id {
            Some(v) => Ok::<I, GetError>(v),
            None => Err::<I, GetError>(GetError::InvalidId),
        },
{
    match id {
        Some(v) => Ok(v),
        None => Err(GetError::InvalidId),
    }
}

} // verus!
