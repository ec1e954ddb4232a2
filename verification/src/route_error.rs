//! Composition of cross-cutting and feature-specific errors.
//!
//! Each feature module declares its own closed error set; the generic
//! wrapper here lets cross-cutting failures and feature failures share one
//! conversion and response path. Promotion into the wrapper is total: any
//! feature error and any persistence failure has a place in it, whatever
//! the feature.

use crate::error::{AppError, DbFailure, ErrorShape};
use crate::message::{Message, MessageModel};
use vstd::prelude::*;

verus! {

/// Either a cross-cutting [`AppError`] or a feature-specific error.
#[derive(Debug, PartialEq)]
pub enum RouteError<E> {
    App(AppError),
    Route(E),
}

impl<E: ErrorShape> RouteError<E> {
    /// Promotes a feature error; total for every feature error value.
    pub fn from_route(e: E) -> (r: RouteError<E>)
        ensures
            r == RouteError::<E>::Route(e),
    {
        RouteError::Route(e)
    }

    /// Promotes a cross-cutting error; total whatever the feature.
    pub fn from_app(e: AppError) -> (r: RouteError<E>)
        ensures
            r == RouteError::<E>::App(e),
    {
        RouteError::App(e)
    }

    /// Promotes a persistence failure; total whatever the feature.
    pub fn from_db(f: DbFailure) -> (r: RouteError<E>)
        ensures
            r == RouteError::<E>::App(AppError::Database(f)),
    {
        RouteError::App(AppError::Database(f))
    }
}

impl<E: ErrorShape> From<E> for RouteError<E> {
    /// Automatic promotion of a feature error.
    fn from(e: E) -> (r: Self) {
        RouteError::Route(e)
    }
}

impl<E: ErrorShape> vstd::std_specs::convert::FromSpecImpl<E> for RouteError<E> {
    open spec fn obeys_from_spec() -> bool {
        true
    }

    open spec fn from_spec(e: E) -> Self {
        RouteError::Route(e)
    }
}

impl<E: ErrorShape> From<DbFailure> for RouteError<E> {
    /// Automatic promotion of a persistence failure, whatever the
    /// feature.
    fn from(f: DbFailure) -> (r: Self) {
        RouteError::App(AppError::Database(f))
    }
}

impl<E: ErrorShape> vstd::std_specs::convert::FromSpecImpl<DbFailure> for RouteError<E> {
    open spec fn obeys_from_spec() -> bool {
        true
    }

    open spec fn from_spec(f: DbFailure) -> Self {
        RouteError::App(AppError::Database(f))
    }
}

impl<E: ErrorShape> ErrorShape for RouteError<E> {
    open spec fn spec_status(&self) -> u16 {
        match self {
            RouteError::App(e) => e.spec_status(),
            RouteError::Route(e) => e.spec_status(),
        }
    }

    open spec fn spec_messages(&self) -> Seq<MessageModel> {
        match self {
            RouteError::App(e) => e.spec_messages(),
            RouteError::Route(e) => e.spec_messages(),
        }
    }

    open spec fn spec_headers(&self) -> Option<Seq<(Seq<char>, Seq<char>)>> {
        match self {
            RouteError::App(e) => e.spec_headers(),
            RouteError::Route(e) => e.spec_headers(),
        }
    }

    fn status(&self) -> u16 {
        match self {
            RouteError::App(e) => e.status(),
            RouteError::Route(e) => e.status(),
        }
    }

    fn into_errors(self) -> (r: Vec<Message>) {
        match self {
            RouteError::App(e) => e.into_errors(),
            RouteError::Route(e) => e.into_errors(),
        }
    }

    fn headers(&self) -> (r: Option<Vec<(String, String)>>) {
        match self {
            RouteError::App(e) => e.headers(),
            RouteError::Route(e) => e.headers(),
        }
    }
}

} // verus!
