//! Request shapes shared by the per-entity content routes.

use vstd::prelude::*;

use crate::ids::{CategoryId, CommentId, ThreadId};

verus! {

/// The payload of an add request: the new entity's texts, raw as
/// submitted.
#[derive(Clone, PartialEq, Eq, Debug)]
pub struct AddPayload {
    pub raw_title: String,
    pub raw_description: String,
}

/// The payload of a request to hide a category.
#[derive(Clone, Copy, PartialEq, Eq, Structural, Debug)]
pub struct HideCategoryPayload {
    pub id: CategoryId,
}

/// The payload of a request to hide a thread.
#[derive(Clone, Copy, PartialEq, Eq, Structural, Debug)]
pub struct HideThreadPayload {
    pub id: ThreadId,
}

/// The payload of a request to hide a comment.
#[derive(Clone, Copy, PartialEq, Eq, Structural, Debug)]
pub struct HideCommentPayload {
    pub id: CommentId,
}

/// A request against the category collection.
#[derive(Clone, PartialEq, Eq, Debug)]
pub enum CategoryRequest {
    Add(AddPayload),
    Hide(HideCategoryPayload),
}

/// A request against the thread collection.
#[derive(Clone, PartialEq, Eq, Debug)]
pub enum ThreadRequest {
    Add(AddPayload),
    Hide(HideThreadPayload),
}

/// A request against the comment collection.
#[derive(Clone, PartialEq, Eq, Debug)]
pub enum CommentRequest {
    Add(AddPayload),
    Hide(HideCommentPayload),
}

} // verus!
