//! Posts: their error set and the decisions of the post routes.

use crate::error::{AppError, DbFailure, ErrorShape};
use crate::ids::{format_uuid, spec_uuid_chars};
use crate::json::{DetailModel, DetailValue};
use crate::message::{Message, MessageModel};
use crate::model::Post;
use crate::route_error;
use vstd::prelude::*;

verus! {

/// An error of the post routes.
#[derive(Debug, PartialEq)]
pub enum Error {
    /// No post with the given id exists, or it is not the caller's to
    /// change.
    UnknownPost(u128),
}

/// The post routes' composed error type.
pub type RouteError = route_error::RouteError<Error>;

/// The body of a post creation request.
#[derive(Debug, PartialEq)]
pub struct CreatePostInput {
    /// The title of the post.
    pub title: String,
    /// The content of the post in Markdown format.
    pub content: String,
}

/// The body of a post update request; absent fields stay unchanged.
#[derive(Debug, PartialEq)]
pub struct UpdatePostInput {
    pub title: Option<String>,
    pub content: Option<String>,
}

impl ErrorShape for Error {
    /// An unknown post is 404.
    open spec fn spec_status(&self) -> u16 {
        match self {
            Error::UnknownPost(_) => 404,
        }
    }

    /// One message; the offending id stands under the fixed `post`
    /// details entry, not interpolated into the text, so clients can
    /// extract it.
    open spec fn spec_messages(&self) -> Seq<MessageModel> {
        match self {
            Error::UnknownPost(id) => seq![
                (MessageModel {
                    code: "post_not_found"@,
                    content: Some("The post you provided does not exist."@),
                    details: Some(seq![("post"@, DetailModel::Str(spec_uuid_chars(*id)))]),
                }),
            ],
        }
    }

    open spec fn spec_headers(&self) -> Option<Seq<(Seq<char>, Seq<char>)>> {
        None
    }

    fn status(&self) -> u16 {
        match self {
            Error::UnknownPost(_) => 404,
        }
    }

    fn into_errors(self) -> (r: Vec<Message>) {
        match self {
            Error::UnknownPost(id) => {
                let m = Message::new("post_not_found").content(
                    "The post you provided does not exist.",
                ).detail("post", DetailValue::Str(format_uuid(id)));
                proof {
                    assert(m@.details->Some_0 =~= seq![
                        ("post"@, DetailModel::Str(spec_uuid_chars(id))),
                    ]);
                    assert(m@ =~= self.spec_messages()[0]);
                }
                m.into_vec()
            },
        }
    }

    fn headers(&self) -> Option<Vec<(String, String)>> {
        None
    }
}

// ---------------------------------------------------------------------------
// Route decisions
// ---------------------------------------------------------------------------

/// The outcome of fetching one post by id: the post when the row exists,
/// the 404 error carrying the id when it does not, the hidden
/// persistence failure otherwise.
pub fn get_post_outcome(fetched: Result<Option<Post>, DbFailure>, post_id: u128) -> (r: Result<
    Post,
    RouteError,
>)
    ensures
        r == (match fetched {
            Ok(Some(p)) => Ok::<Post, RouteError>(p),
            Ok(None) => Err::<Post, RouteError>(
                route_error::RouteError::Route(Error::UnknownPost(post_id)),
            ),
            Err(f) => Err::<Post, RouteError>(
                route_error::RouteError::App(AppError::Database(f)),
            ),
        }),
{
    match fetched {
        Ok(Some(p)) => Ok(p),
        Ok(None) => Err(route_error::RouteError::Route(Error::UnknownPost(post_id))),
        Err(f) => Err(route_error::RouteError::from_db(f)),
    }
}

/// The outcome of updating one post by id; an update that matched no row
/// means the post was not the caller's to change, a 404.
pub fn update_post_outcome(updated: Result<Option<Post>, DbFailure>, post_id: u128) -> (r: Result<
    Post,
    RouteError,
>)
    ensures
        r == (match updated {
            Ok(Some(p)) => Ok::<Post, RouteError>(p),
            Ok(None) => Err::<Post, RouteError>(
                route_error::RouteError::Route(Error::UnknownPost(post_id)),
            ),
            Err(f) => Err::<Post, RouteError>(
                route_error::RouteError::App(AppError::Database(f)),
            ),
        }),
{
    match updated {
        Ok(Some(p)) => Ok(p),
        Ok(None) => Err(route_error::RouteError::Route(Error::UnknownPost(post_id))),
        Err(f) => Err(route_error::RouteError::from_db(f)),
    }
}

/// The outcome of deleting one post by id: deleting no row at all means
/// the post was not the caller's to delete, a 404.
pub fn delete_post_outcome(deleted: Result<u64, DbFailure>, post_id: u128) -> (r: Result<
    (),
    RouteError,
>)
    ensures
        r == (match deleted {
            Ok(n) => if n == 0 {
                Err::<(), RouteError>(route_error::RouteError::Route(Error::UnknownPost(post_id)))
            } else {
                Ok::<(), RouteError>(())
            },
            Err(f) => Err::<(), RouteError>(
                route_error::RouteError::App(AppError::Database(f)),
            ),
        }),
{
    match deleted {
        Ok(n) => if n == 0 {
            Err(route_error::RouteError::Route(Error::UnknownPost(post_id)))
        } else {
            Ok(())
        },
        Err(f) => Err(route_error::RouteError::from_db(f)),
    }
}

/// The outcome of listing posts, paginated: only a persistence failure
/// can stand in the way.
pub fn list_posts_outcome(fetched: Result<Vec<Post>, DbFailure>) -> (r: Result<
    Vec<Post>,
    RouteError,
>)
    ensures
        r == (match fetched {
            Ok(ps) => Ok::<Vec<Post>, RouteError>(ps),
            Err(f) => Err::<Vec<Post>, RouteError>(
                route_error::RouteError::App(AppError::Database(f)),
            ),
        }),
{
    match fetched {
        Ok(ps) => Ok(ps),
        Err(f) => Err(route_error::RouteError::from_db(f)),
    }
}

/// The outcome of creating a post for the caller.
pub fn create_post_outcome(inserted: Result<Post, DbFailure>) -> (r: Result<Post, RouteError>)
    ensures
        r == (match inserted {
            Ok(p) => Ok::<Post, RouteError>(p),
            Err(f) => Err::<Post, RouteError>(
                route_error::RouteError::App(AppError::Database(f)),
            ),
        }),
{
    match inserted {
        Ok(p) => Ok(p),
        Err(f) => Err(route_error::RouteError::from_db(f)),
    }
}

} // verus!
