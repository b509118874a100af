//! Content-side types and logic: the entity data the gateway relays,
//! the request and response shapes of the content routes, and the
//! role- and ownership-vetting every content mutation passes through.

pub mod data;
pub mod gate;
pub mod requests;
pub mod responses;
