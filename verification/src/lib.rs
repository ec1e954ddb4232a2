//! Typed error and response shaping core of a small CRUD web API.
//!
//! The library classifies every failure of the service into a closed
//! taxonomy, maps each member to an HTTP status and a list of client-visible
//! messages, and renders the fixed wire body
//! `{"success":false,"errors":[...]}`. Around that core stand the validating
//! extraction pipeline (decode, then structural, then semantic validation),
//! the session / API-key credential rules, and the per-feature error sets
//! composed into the taxonomy through a generic wrapper.

pub mod auth;
pub mod error;
pub mod extract;
pub mod ids;
pub mod json;
pub mod key;
pub mod message;
pub mod model;
pub mod pagination;
pub mod parse;
pub mod post;
pub mod respond;
pub mod route_error;
pub mod session;
pub mod text;
pub mod validate;
