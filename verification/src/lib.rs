//! Core logic of a small issue-tracker backend: the authentication state
//! machine that turns a bearer credential into a verified claim, the
//! ownership rule that gates every mutation, the five resource operations
//! over a store model, identity projection, and the uniform response
//! envelope. Transport, SQL and the identity provider live outside this
//! crate and hand these functions plain values.

pub mod auth;
pub mod envelope;
pub mod errors;
pub mod handlers;
pub mod identity;
pub mod laws;
pub mod model;
pub mod store;
