//! The validating extraction pipeline.
//!
//! Each inbound value passes three stages: structural decoding by the
//! decoding collaborator, whose outcome is handed in; then semantic
//! validation of the decoded value; and only then the route handler. Any
//! failure short-circuits into the error taxonomy before a handler runs.
//! The pipeline is the same for JSON bodies, query strings and path
//! parameters; only the decoding collaborator differs.

use crate::error::{AppError, BodyRejection, QueryFailure};
use crate::validate::Validated;
use vstd::prelude::*;

verus! {

/// A decoded and validated JSON body.
#[derive(Debug, PartialEq)]
pub struct Json<T>(pub T);

/// A decoded and validated query string.
#[derive(Debug, PartialEq)]
pub struct Query<T>(pub T);

/// A decoded and validated path parameter.
#[derive(Debug, PartialEq)]
pub struct Path<T>(pub T);

/// Runs the validation stage over the body decoding outcome: a decoding
/// failure becomes the body rejection member of the taxonomy; a decoded
/// value with any violated rule becomes the validation member, carrying
/// every violation; only a clean value reaches the handler.
pub fn extract_json<T: Validated>(decoded: Result<T, BodyRejection>) -> (r: Result<
    Json<T>,
    AppError,
>)
    ensures
        decoded matches Err(e) ==> r == Err::<Json<T>, AppError>(AppError::Json(e)),
        decoded matches Ok(v) ==> (v.spec_violations().len() == 0 ==> r == Ok::<Json<T>, AppError>(
            Json(v),
        )),
        decoded matches Ok(v) ==> (v.spec_violations().len() != 0 ==> (r matches Err(e) && e matches
            AppError::Validation(vs) && vs.deep_view() == v.spec_violations())),
{
    match decoded {
        Err(e) => Err(AppError::Json(e)),
        Ok(v) => {
            let violations = v.validate();
            if violations.len() == 0 {
                proof {
                    assert(violations.deep_view().len() == 0);
                }
                Ok(Json(v))
            } else {
                proof {
                    assert(violations.deep_view().len() != 0);
                }
                Err(AppError::Validation(violations))
            }
        },
    }
}

/// The same validation stage over the query string decoding outcome.
pub fn extract_query<T: Validated>(decoded: Result<T, QueryFailure>) -> (r: Result<
    Query<T>,
    AppError,
>)
    ensures
        decoded matches Err(e) ==> r == Err::<Query<T>, AppError>(AppError::Query(e)),
        decoded matches Ok(v) ==> (v.spec_violations().len() == 0 ==> r == Ok::<
            Query<T>,
            AppError,
        >(Query(v))),
        decoded matches Ok(v) ==> (v.spec_violations().len() != 0 ==> (r matches Err(e) && e matches
            AppError::Validation(vs) && vs.deep_view() == v.spec_violations())),
{
    match decoded {
        Err(e) => Err(AppError::Query(e)),
        Ok(v) => {
            let violations = v.validate();
            if violations.len() == 0 {
                proof {
                    assert(violations.deep_view().len() == 0);
                }
                Ok(Query(v))
            } else {
                proof {
                    assert(violations.deep_view().len() != 0);
                }
                Err(AppError::Validation(violations))
            }
        },
    }
}

/// The same validation stage over the path segment decoding outcome.
pub fn extract_path<T: Validated>(decoded: Result<T, QueryFailure>) -> (r: Result<
    Path<T>,
    AppError,
>)
    ensures
        decoded matches Err(e) ==> r == Err::<Path<T>, AppError>(AppError::Query(e)),
        decoded matches Ok(v) ==> (v.spec_violations().len() == 0 ==> r == Ok::<Path<T>, AppError>(
            Path(v),
        )),
        decoded matches Ok(v) ==> (v.spec_violations().len() != 0 ==> (r matches Err(e) && e matches
            AppError::Validation(vs) && vs.deep_view() == v.spec_violations())),
{
    match decoded {
        Err(e) => Err(AppError::Query(e)),
        Ok(v) => {
            let violations = v.validate();
            if violations.len() == 0 {
                proof {
                    assert(violations.deep_view().len() == 0);
                }
                Ok(Path(v))
            } else {
                proof {
                    assert(violations.deep_view().len() != 0);
                }
                Err(AppError::Validation(violations))
            }
        },
    }
}

} // verus!
