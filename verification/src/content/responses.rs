//! The response shapes of the content routes.

use vstd::prelude::*;

use crate::content::data::{Category, Comment, OkMessage, SearchResult, Thread, User};

verus! {

/// A successful search.
#[derive(Clone, PartialEq, Eq, Debug)]
pub enum SearchSuccess {
    Results(Vec<SearchResult>),
}

/// A successful category read or mutation.
#[derive(Clone, PartialEq, Eq, Debug)]
pub enum CategorySuccess {
    MultipleCategories(Vec<Category>),
    SingleCategory(Category),
}

/// A successful thread read or mutation.
#[derive(Clone, PartialEq, Eq, Debug)]
pub enum ThreadSuccess {
    MultipleThreads(Vec<Thread>),
    SingleThread(Thread),
}

/// A successful comment read or mutation.
#[derive(Clone, PartialEq, Eq, Debug)]
pub enum CommentSuccess {
    MultipleComments(Vec<Comment>),
    SingleComment(Comment),
}

/// A successful user read.
#[derive(Clone, PartialEq, Eq, Debug)]
pub enum UserSuccess {
    SingleUser(User),
}

/// A plain acknowledged success.
#[derive(Clone, PartialEq, Eq, Debug)]
pub enum OkSuccess {
    Acknowledged(OkMessage),
}

/// Why a content read was refused before reaching the backend.
#[derive(Clone, Copy, PartialEq, Eq, Structural, Debug)]
pub enum GetError {
    /// The content is hidden from this caller.
    Hidden,
    /// The id segment did not parse.
    InvalidId,
    /// The request needed a session token and carried none.
    MissingToken,
    /// The presented token did not resolve.
    TokenNotCorrect,
    /// The search query did not validate.
    InvalidQuery,
}

} // verus!
