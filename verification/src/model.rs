//! Records of the persistence collaborator, held as plain values.
//!
//! Identifiers are 128-bit UUID values; creation times are Unix
//! timestamps in seconds.

use vstd::prelude::*;

verus! {

/// A single user.
#[derive(Debug, PartialEq)]
pub struct User {
    /// The unique identifier of the user.
    pub id: u128,
    /// The user's primary email address, used for logging in.
    pub email: String,
    /// The hashed password.
    pub password: Vec<u8>,
    /// The username that is displayed to the public.
    pub username: String,
    /// The creation time of the user.
    pub created_at: i64,
}

/// A single post, created by a user.
#[derive(Debug, PartialEq)]
pub struct Post {
    /// The unique identifier of the post.
    pub id: u128,
    /// The user that created the post.
    pub user_id: u128,
    /// The title of the post.
    pub title: String,
    /// The content of the post in Markdown format.
    pub content: String,
    /// The creation time of the post.
    pub created_at: i64,
}

/// A single API key, owned by a user and used to perform automated
/// actions on their behalf.
#[derive(Debug, PartialEq)]
pub struct Key {
    /// The API key.
    pub id: u128,
    /// The user that owns the key.
    pub user_id: u128,
    /// The creation time of the key.
    pub created_at: i64,
}

/// A server-tracked session record, keyed by an opaque identifier stored
/// in a cookie.
#[derive(Debug, PartialEq)]
pub struct Session {
    /// The session id.
    pub id: u128,
    /// The user that owns the session.
    pub user_id: u128,
    /// The creation time of the session.
    pub created_at: i64,
}

} // verus!
