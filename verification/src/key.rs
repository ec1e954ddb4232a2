//! API keys: their error set and the decisions of the key routes.

use crate::error::{AppError, DbFailure, ErrorShape};
use crate::ids::{format_uuid, spec_uuid_chars};
use crate::json::{DetailModel, DetailValue};
use crate::message::{Message, MessageModel};
use crate::model::Key;
use crate::route_error;
use vstd::prelude::*;

verus! {

/// An error of the key routes.
#[derive(Debug, PartialEq)]
pub enum Error {
    /// No key with the given id belongs to the caller.
    UnknownKey(u128),
}

/// The key routes' composed error type.
pub type RouteError = route_error::RouteError<Error>;

impl ErrorShape for Error {
    /// An unknown key is 404.
    open spec fn spec_status(&self) -> u16 {
        match self {
            Error::UnknownKey(_) => 404,
        }
    }

    /// One message; the offending id stands under the fixed `key` details
    /// entry, not interpolated into the text, so clients can extract it.
    open spec fn spec_messages(&self) -> Seq<MessageModel> {
        match self {
            Error::UnknownKey(id) => seq![
                (MessageModel {
                    code: "key_not_found"@,
                    content: Some("The key you provided does not exist."@),
                    details: Some(seq![("key"@, DetailModel::Str(spec_uuid_chars(*id)))]),
                }),
            ],
        }
    }

    open spec fn spec_headers(&self) -> Option<Seq<(Seq<char>, Seq<char>)>> {
        None
    }

    fn status(&self) -> u16 {
        match self {
            Error::UnknownKey(_) => 404,
        }
    }

    fn into_errors(self) -> (r: Vec<Message>) {
        match self {
            Error::UnknownKey(id) => {
                let m = Message::new("key_not_found").content(
                    "The key you provided does not exist.",
                ).detail("key", DetailValue::Str(format_uuid(id)));
                proof {
                    assert(m@.details->Some_0 =~= seq![
                        ("key"@, DetailModel::Str(spec_uuid_chars(id))),
                    ]);
                    assert(m@ =~= self.spec_messages()[0]);
                }
                m.into_vec()
            },
        }
    }

    fn headers(&self) -> Option<Vec<(String, String)>> {
        None
    }
}

// ---------------------------------------------------------------------------
// Route decisions
// ---------------------------------------------------------------------------

/// The outcome of fetching one key by id: the key when the row exists,
/// the 404 error carrying the id when it does not, the hidden
/// persistence failure otherwise.
pub fn get_key_outcome(fetched: Result<Option<Key>, DbFailure>, key_id: u128) -> (r: Result<
    Key,
    RouteError,
>)
    ensures
        r == (match fetched {
            Ok(Some(k)) => Ok::<Key, RouteError>(k),
            Ok(None) => Err::<Key, RouteError>(
                route_error::RouteError::Route(Error::UnknownKey(key_id)),
            ),
            Err(f) => Err::<Key, RouteError>(
                route_error::RouteError::App(AppError::Database(f)),
            ),
        }),
{
    match fetched {
        Ok(Some(k)) => Ok(k),
        Ok(None) => Err(route_error::RouteError::Route(Error::UnknownKey(key_id))),
        Err(f) => Err(route_error::RouteError::from_db(f)),
    }
}

/// The outcome of deleting one key by id: deleting no row at all means
/// the key was not the caller's to delete, a 404.
pub fn delete_key_outcome(deleted: Result<u64, DbFailure>, key_id: u128) -> (r: Result<
    (),
    RouteError,
>)
    ensures
        r == (match deleted {
            Ok(n) => if n == 0 {
                Err::<(), RouteError>(route_error::RouteError::Route(Error::UnknownKey(key_id)))
            } else {
                Ok::<(), RouteError>(())
            },
            Err(f) => Err::<(), RouteError>(
                route_error::RouteError::App(AppError::Database(f)),
            ),
        }),
{
    match deleted {
        Ok(n) => if n == 0 {
            Err(route_error::RouteError::Route(Error::UnknownKey(key_id)))
        } else {
            Ok(())
        },
        Err(f) => Err(route_error::RouteError::from_db(f)),
    }
}

/// The outcome of listing the caller's keys: only a persistence failure
/// can stand in the way.
pub fn list_keys_outcome(fetched: Result<Vec<Key>, DbFailure>) -> (r: Result<Vec<Key>, RouteError>)
    ensures
        r == (match fetched {
            Ok(ks) => Ok::<Vec<Key>, RouteError>(ks),
            Err(f) => Err::<Vec<Key>, RouteError>(
                route_error::RouteError::App(AppError::Database(f)),
            ),
        }),
{
    match fetched {
        Ok(ks) => Ok(ks),
        Err(f) => Err(route_error::RouteError::from_db(f)),
    }
}

/// The outcome of creating a key for the caller.
pub fn create_key_outcome(inserted: Result<Key, DbFailure>) -> (r: Result<Key, RouteError>)
    ensures
        r == (match inserted {
            Ok(k) => Ok::<Key, RouteError>(k),
            Err(f) => Err::<Key, RouteError>(
                route_error::RouteError::App(AppError::Database(f)),
            ),
        }),
{
    match inserted {
        Ok(k) => Ok(k),
        Err(f) => Err(route_error::RouteError::from_db(f)),
    }
}

} // verus!
