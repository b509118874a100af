//! Authentication-side types and logic: session tokens, validated
//! credential fields, the request and response shapes of the auth
//! route, and the decisions that route makes.

pub mod api;
pub mod flow;
pub mod forms;
pub mod requests;
pub mod responses;
