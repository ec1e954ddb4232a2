//! Response shaping: from any taxonomy error to a transport response.
//!
//! The body is always the JSON object `{"success":false,"errors":[...]}`;
//! absent optional message fields are omitted, never emitted as `null`.

use crate::error::ErrorShape;
use crate::message::{push_message, spec_render_message, Message, MessageModel};
use crate::text::from_chars;
use vstd::prelude::*;

verus! {

/// A transport response: status code, headers, and the JSON body.
#[derive(Debug, PartialEq)]
pub struct Response {
    pub status: u16,
    pub headers: Vec<(String, String)>,
    pub body: String,
}

/// JSON text of a list of messages, comma separated, without the brackets.
pub open spec fn spec_render_messages(msgs: Seq<MessageModel>) -> Seq<char>
    decreases msgs.len(),
{
    if msgs.len() == 0 {
        Seq::empty()
    } else if msgs.len() == 1 {
        spec_render_message(msgs[0])
    } else {
        spec_render_messages(msgs.drop_last()) + seq![','] + spec_render_message(msgs.last())
    }
}

/// JSON text of the whole wire body.
pub open spec fn spec_render_body(msgs: Seq<MessageModel>) -> Seq<char> {
    "{\"success\":false,\"errors\":["@ + spec_render_messages(msgs) + "]}"@
}

/// The headers a response carries: the error's own headers when it has
/// any, else the JSON content type alone.
pub open spec fn spec_response_headers(h: Option<Seq<(Seq<char>, Seq<char>)>>) -> Seq<
    (Seq<char>, Seq<char>),
> {
    match h {
        Some(h) => h,
        None => seq![("content-type"@, "application/json"@)],
    }
}

/// What the response of an error must look like: its status, its headers,
/// and the rendered body, each a function of the error value alone.
pub open spec fn spec_response_matches<E: ErrorShape>(e: E, r: Response) -> bool {
    &&& r.status == e.spec_status()
    &&& r.headers.deep_view() == spec_response_headers(e.spec_headers())
    &&& r.body@ == spec_render_body(e.spec_messages())
}

/// Renders the body holding the given messages.
pub fn render_body(msgs: Vec<Message>) -> (r: String)
    ensures
        r@ == spec_render_body(msgs.deep_view()),
{
    let ghost model = msgs.deep_view();
    let mut out: Vec<char> = Vec::new();
    crate::json::push_str(&mut out, "{\"success\":false,\"errors\":[");
    let n = msgs.len();
    let mut i: usize = 0;
    while i < n
        invariant
            n == msgs@.len(),
            model == msgs.deep_view(),
            i <= n,
            out@ == "{\"success\":false,\"errors\":["@ + spec_render_messages(
                model.take(i as int),
            ),
        decreases n - i,
    {
        if i > 0 {
            out.push(',');
        }
        push_message(&mut out, &msgs[i]);
        proof {
            assert(model[i as int] == msgs@[i as int]@);
            assert(model.take(i + 1).drop_last() =~= model.take(i as int));
            assert(model.take(i + 1).last() == model[i as int]);
            if i == 0 {
                assert(model.take(1)[0] == model[0]);
            }
            assert(out@ =~= "{\"success\":false,\"errors\":["@ + spec_render_messages(
                model.take(i + 1),
            ));
        }
        i = i + 1;
    }
    crate::json::push_str(&mut out, "]}");
    proof {
        assert(model.take(n as int) =~= model);
        assert(out@ =~= spec_render_body(model));
    }
    from_chars(&out)
}

/// Transforms an error into a response: its status, its headers, and the
/// fixed JSON body over its messages.
pub fn into_response<E: ErrorShape>(e: E) -> (r: Response)
    ensures
        spec_response_matches(e, r),
{
    let status = e.status();
    let headers = e.headers();
    let headers: Vec<(String, String)> = match headers {
        Some(h) => h,
        None => {
            let mut h: Vec<(String, String)> = Vec::new();
            h.push(("content-type".to_owned(), "application/json".to_owned()));
            proof {
                assert(h.deep_view() =~~= seq![("content-type"@, "application/json"@)]);
            }
            h
        },
    };
    let body = render_body(e.into_errors());
    Response { status, headers, body }
}

/// A validation failure with k violated (field, rule) pairs answers 400,
/// and its body renders exactly k messages, each carrying the violated
/// rule's code, the rule parameters, and the field name.
pub proof fn lemma_validation_response(vs: Vec<crate::error::FieldViolation>, r: Response)
    requires
        spec_response_matches(crate::error::AppError::Validation(vs), r),
    ensures
        r.status == 400,
        crate::error::AppError::Validation(vs).spec_messages().len() == vs@.len(),
        r.body@ == spec_render_body(crate::error::AppError::Validation(vs).spec_messages()),
        forall|i: int|
            0 <= i < vs@.len() ==> #[trigger] crate::error::AppError::Validation(
                vs,
            ).spec_messages()[i] == crate::error::spec_violation_message(vs@[i]),
{
}

/// A malformed request body answers 400 with exactly one message, never
/// an internal error.
pub proof fn lemma_malformed_body_response(rej: crate::error::BodyRejection, r: Response)
    requires
        !(rej matches crate::error::BodyRejection::SchemaViolations(_)),
        spec_response_matches(crate::error::AppError::Json(rej), r),
    ensures
        r.status == 400,
        crate::error::AppError::Json(rej).spec_messages().len() == 1,
        r.body@ == spec_render_body(crate::error::AppError::Json(rej).spec_messages()),
{
}

/// A persistence failure of any kind answers 500 with the empty error
/// list: its body is, byte for byte, the empty-errors envelope.
pub proof fn lemma_database_response(f: crate::error::DbFailure, r: Response)
    requires
        spec_response_matches(crate::error::AppError::Database(f), r),
    ensures
        r.status == 500,
        crate::error::AppError::Database(f).spec_messages() == Seq::<MessageModel>::empty(),
        r.body@ == "{\"success\":false,\"errors\":[]}"@,
{
    reveal_strlit("{\"success\":false,\"errors\":[");
    reveal_strlit("]}");
    reveal_strlit("{\"success\":false,\"errors\":[]}");
    assert(r.body@ =~= "{\"success\":false,\"errors\":[]}"@);
}

/// Converting the same error value to a response twice yields the same
/// status, the same headers, and a byte-identical JSON body.
pub proof fn lemma_response_deterministic<E: ErrorShape>(e: E, r1: Response, r2: Response)
    requires
        spec_response_matches(e, r1),
        spec_response_matches(e, r2),
    ensures
        r1.status == r2.status,
        r1.headers.deep_view() == r2.headers.deep_view(),
        r1.body@ == r2.body@,
{
}

} // verus!
