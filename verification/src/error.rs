//! The closed error taxonomy and its mapping to statuses and messages.
//!
//! Every failure of the service is classified into one member of
//! [`AppError`] or of a feature module's own error set. Each member maps to
//! exactly one HTTP status and to a list of [`Message`] values; the mapping
//! is pure and total.

use crate::json::{DetailModel, DetailValue};
use crate::message::{Message, MessageModel};
use vstd::prelude::*;

verus! {

/// The shape every error set presents to the response pipeline: a status,
/// a list of messages, and optional extra headers.
pub trait ErrorShape: Sized {
    /// The HTTP status this error maps to.
    spec fn spec_status(&self) -> u16;

    /// The messages this error produces, as message models.
    spec fn spec_messages(&self) -> Seq<MessageModel>;

    /// Extra headers to send, `None` for almost every error.
    spec fn spec_headers(&self) -> Option<Seq<(Seq<char>, Seq<char>)>>;

    /// Returns the HTTP status code associated with the error.
    fn status(&self) -> (r: u16)
        ensures
            r == self.spec_status(),
    ;

    /// Returns the list of error messages to be sent to the client.
    fn into_errors(self) -> (r: Vec<Message>)
        ensures
            r.deep_view() == self.spec_messages(),
    ;

    /// Returns additional headers to be sent to the client, used by the
    /// rate-limit member to forward its retry headers.
    fn headers(&self) -> (r: Option<Vec<(String, String)>>)
        ensures
            r.deep_view() == self.spec_headers(),
    ;
}

/// A model message holding a code and a human-readable text.
pub open spec fn spec_code_content(code: Seq<char>, content: Seq<char>) -> MessageModel {
    MessageModel { code, content: Some(content), details: None }
}

/// A message holding the given code and text.
pub(crate) fn msg_with_content(code: &str, content: &str) -> (m: Message)
    ensures
        m@ == spec_code_content(code@, content@),
{
    let m = Message::new(code).content(content);
    proof {
        assert(m@ =~= spec_code_content(code@, content@));
    }
    m
}

// ---------------------------------------------------------------------------
// Semantic validation failures
// ---------------------------------------------------------------------------

/// One violated (field, rule) pair reported by semantic validation,
/// together with the parameters of the violated rule.
#[derive(Debug, PartialEq)]
pub struct FieldViolation {
    /// The input field that triggered the violation.
    pub field: String,
    /// The stable code of the violated rule.
    pub code: String,
    /// Optional human-readable text for the rule.
    pub message: Option<String>,
    /// The parameters of the rule, such as its bounds.
    pub params: Vec<(String, DetailValue)>,
}

/// The message a violation turns into: the rule's code and text, with the
/// rule parameters and the field name under `details`.
pub open spec fn spec_violation_message(v: FieldViolation) -> MessageModel {
    MessageModel {
        code: v.code@,
        content: match v.message {
            Some(m) => Some(m@),
            None => None,
        },
        details: Some(
            v.params.deep_view() + seq![("field"@, DetailModel::Str(v.field@))],
        ),
    }
}

/// A fresh copy of a detail value with the same model.
pub(crate) fn clone_value(v: &DetailValue) -> (r: DetailValue)
    ensures
        r@ == v@,
{
    match v {
        DetailValue::Null => DetailValue::Null,
        DetailValue::Bool(b) => DetailValue::Bool(*b),
        DetailValue::Int(n) => DetailValue::Int(*n),
        DetailValue::Str(s) => DetailValue::Str(s.clone()),
    }
}

/// A fresh copy of a key/value list with the same model.
pub(crate) fn clone_params(params: &Vec<(String, DetailValue)>) -> (r: Vec<(String, DetailValue)>)
    ensures
        r.deep_view() == params.deep_view(),
{
    let mut r: Vec<(String, DetailValue)> = Vec::new();
    let n = params.len();
    let mut i: usize = 0;
    while i < n
        invariant
            n == params@.len(),
            i <= n,
            r.deep_view() =~~= params.deep_view().take(i as int),
        decreases n - i,
    {
        r.push((params[i].0.clone(), clone_value(&params[i].1)));
        proof {
            assert(r.deep_view() =~~= params.deep_view().take(i + 1));
        }
        i = i + 1;
    }
    proof {
        assert(params.deep_view().take(n as int) =~= params.deep_view());
    }
    r
}

/// The message for one violation.
fn violation_message(v: &FieldViolation) -> (m: Message)
    ensures
        m@ == spec_violation_message(*v),
{
    let mut details = clone_params(&v.params);
    details.push(("field".to_owned(), DetailValue::Str(v.field.clone())));
    let content: Option<String> = match &v.message {
        Some(t) => Some(t.clone()),
        None => None,
    };
    let m = Message { code: v.code.clone(), content, details: Some(details) };
    proof {
        assert(m@.details->Some_0 =~= spec_violation_message(*v).details->Some_0);
        assert(m@ =~= spec_violation_message(*v));
    }
    m
}

impl ErrorShape for Vec<FieldViolation> {
    /// Validation failures are the client's fault: 400.
    open spec fn spec_status(&self) -> u16 {
        400
    }

    /// One message per violated (field, rule) pair, in order.
    open spec fn spec_messages(&self) -> Seq<MessageModel> {
        Seq::new(self@.len(), |i: int| spec_violation_message(self@[i]))
    }

    open spec fn spec_headers(&self) -> Option<Seq<(Seq<char>, Seq<char>)>> {
        None
    }

    fn status(&self) -> u16 {
        400
    }

    fn into_errors(self) -> (r: Vec<Message>) {
        let mut r: Vec<Message> = Vec::new();
        let n = self.len();
        let mut i: usize = 0;
        while i < n
            invariant
                n == self@.len(),
                i <= n,
                r@.len() == i,
                r.deep_view() =~~= self.spec_messages().take(i as int),
            decreases n - i,
        {
            let m = violation_message(&self[i]);
            let ghost mm = m@;
            let ghost prev = r.deep_view();
            r.push(m);
            proof {
                assert(r@.len() == i + 1);
                assert(r.deep_view() == Seq::new(r@.len() as nat, |j: int| r@[j].deep_view()));
                assert(r.deep_view()[i as int] == mm);
                assert(forall|j: int| 0 <= j < i ==> r.deep_view()[j] == prev[j]);
                assert(r.deep_view() =~~= self.spec_messages().take(i + 1));
            }
            i = i + 1;
        }
        proof {
            assert(self.spec_messages().take(n as int) =~= self.spec_messages());
        }
        r
    }

    fn headers(&self) -> Option<Vec<(String, String)>> {
        None
    }
}

// ---------------------------------------------------------------------------
// Structural decode failures
// ---------------------------------------------------------------------------

/// What the body decoding collaborator can report: the request body failed
/// to decode into the expected shape, at one of its stages.
#[derive(Debug, PartialEq)]
pub enum BodyRejection {
    /// The body was valid JSON but did not fit the target type.
    DataError(String),
    /// The body bytes could not be read.
    BytesFailure(String),
    /// The body was not valid JSON.
    SyntaxError(String),
    /// The request did not declare a JSON content type.
    MissingContentType,
    /// A body failure of no more specific kind.
    UnknownJson,
    /// The decoder reported a failure at a named path into the document.
    SerdePath(String),
    /// The body was valid JSON but violated the declared schema; one
    /// description per violation.
    SchemaViolations(Vec<String>),
}

impl ErrorShape for BodyRejection {
    /// A malformed body is the client's fault: 400, never a 500.
    open spec fn spec_status(&self) -> u16 {
        400
    }

    open spec fn spec_messages(&self) -> Seq<MessageModel> {
        match self {
            BodyRejection::DataError(t) => seq![
                spec_code_content("json_deserialize_error"@, t@),
            ],
            BodyRejection::BytesFailure(t) => seq![
                spec_code_content("unacceptable_json_payload"@, t@),
            ],
            BodyRejection::SyntaxError(t) => seq![spec_code_content("json_syntax_error"@, t@)],
            BodyRejection::MissingContentType => seq![
                spec_code_content("missing_json_content_type"@, "Missing JSON content type."@),
            ],
            BodyRejection::UnknownJson => seq![
                spec_code_content("unknown_json_error"@, "Unknown JSON error."@),
            ],
            BodyRejection::SerdePath(p) => seq![
                (MessageModel {
                    code: "json_deserialize_error"@,
                    content: None,
                    details: Some(seq![("field"@, DetailModel::Str(p@))]),
                }),
            ],
            BodyRejection::SchemaViolations(ds) => Seq::new(
                ds@.len(),
                |i: int| spec_code_content("json_validation_error"@, ds@[i]@),
            ),
        }
    }

    open spec fn spec_headers(&self) -> Option<Seq<(Seq<char>, Seq<char>)>> {
        None
    }

    fn status(&self) -> u16 {
        400
    }

    fn into_errors(self) -> (r: Vec<Message>) {
        match self {
            BodyRejection::DataError(t) => msg_with_content(
                "json_deserialize_error",
                t.as_str(),
            ).into_vec(),
            BodyRejection::BytesFailure(t) => msg_with_content(
                "unacceptable_json_payload",
                t.as_str(),
            ).into_vec(),
            BodyRejection::SyntaxError(t) => msg_with_content(
                "json_syntax_error",
                t.as_str(),
            ).into_vec(),
            BodyRejection::MissingContentType => msg_with_content(
                "missing_json_content_type",
                "Missing JSON content type.",
            ).into_vec(),
            BodyRejection::UnknownJson => msg_with_content(
                "unknown_json_error",
                "Unknown JSON error.",
            ).into_vec(),
            BodyRejection::SerdePath(p) => {
                let m = Message::new("json_deserialize_error").detail(
                    "field",
                    DetailValue::Str(p),
                );
                proof {
                    assert(m@.details->Some_0 =~= seq![
                        ("field"@, DetailModel::Str(p@)),
                    ]);
                }
                m.into_vec()
            },
            BodyRejection::SchemaViolations(ds) => {
                let ghost model = Seq::new(
                    ds@.len(),
                    |i: int| spec_code_content("json_validation_error"@, ds@[i]@),
                );
                let mut r: Vec<Message> = Vec::new();
                let n = ds.len();
                let mut i: usize = 0;
                while i < n
                    invariant
                        n == ds@.len(),
                        i <= n,
                        r@.len() == i,
                        model == Seq::new(
                            ds@.len(),
                            |j: int| spec_code_content("json_validation_error"@, ds@[j]@),
                        ),
                        r.deep_view() =~~= model.take(i as int),
                    decreases n - i,
                {
                    let m = msg_with_content("json_validation_error", ds[i].as_str());
                    let ghost mm = m@;
                    let ghost prev = r.deep_view();
                    r.push(m);
                    proof {
                        assert(r@.len() == i + 1);
                        assert(r.deep_view() == Seq::new(
                            r@.len() as nat,
                            |j: int| r@[j].deep_view(),
                        ));
                        assert(r.deep_view()[i as int] == mm);
                        assert(forall|j: int| 0 <= j < i ==> r.deep_view()[j] == prev[j]);
                        assert(r.deep_view() =~~= model.take(i + 1));
                    }
                    i = i + 1;
                }
                proof {
                    assert(model.take(n as int) =~= model);
                }
                r
            },
        }
    }

    fn headers(&self) -> Option<Vec<(String, String)>> {
        None
    }
}

// ---------------------------------------------------------------------------
// Query string decode failures
// ---------------------------------------------------------------------------

/// What the query string decoding collaborator can report.
#[derive(Debug, PartialEq)]
pub enum QueryFailure {
    /// The query string did not decode into the expected shape.
    Deserialize(String),
    /// A query failure of no more specific kind.
    Unknown,
}

impl ErrorShape for QueryFailure {
    /// A malformed query string is the client's fault: 400.
    open spec fn spec_status(&self) -> u16 {
        400
    }

    open spec fn spec_messages(&self) -> Seq<MessageModel> {
        match self {
            QueryFailure::Deserialize(t) => seq![
                spec_code_content("query_deserialize_error"@, t@),
            ],
            QueryFailure::Unknown => seq![
                spec_code_content("unknown_query_error"@, "Unknown query error."@),
            ],
        }
    }

    open spec fn spec_headers(&self) -> Option<Seq<(Seq<char>, Seq<char>)>> {
        None
    }

    fn status(&self) -> u16 {
        400
    }

    fn into_errors(self) -> (r: Vec<Message>) {
        match self {
            QueryFailure::Deserialize(t) => msg_with_content(
                "query_deserialize_error",
                t.as_str(),
            ).into_vec(),
            QueryFailure::Unknown => msg_with_content(
                "unknown_query_error",
                "Unknown query error.",
            ).into_vec(),
        }
    }

    fn headers(&self) -> Option<Vec<(String, String)>> {
        None
    }
}

// ---------------------------------------------------------------------------
// Rate limiting failures
// ---------------------------------------------------------------------------

/// What the rate-limiting collaborator can report. Its retry and quota
/// headers are forwarded to the client unchanged.
#[derive(Debug, PartialEq)]
pub enum RateLimitFailure {
    /// The client exceeded its request quota.
    TooManyRequests { headers: Option<Vec<(String, String)>> },
    /// The limiter could not attribute the request to a client key.
    UnableToExtractKey,
    /// A limiter failure carrying its own status, text and headers.
    Other { code: u16, msg: Option<String>, headers: Option<Vec<(String, String)>> },
}

/// A fresh copy of a header list with the same model.
pub(crate) fn clone_headers(h: &Vec<(String, String)>) -> (r: Vec<(String, String)>)
    ensures
        r.deep_view() == h.deep_view(),
{
    let mut r: Vec<(String, String)> = Vec::new();
    let n = h.len();
    let mut i: usize = 0;
    while i < n
        invariant
            n == h@.len(),
            i <= n,
            r.deep_view() =~~= h.deep_view().take(i as int),
        decreases n - i,
    {
        r.push((h[i].0.clone(), h[i].1.clone()));
        proof {
            assert(r.deep_view() =~~= h.deep_view().take(i + 1));
        }
        i = i + 1;
    }
    proof {
        assert(h.deep_view().take(n as int) =~= h.deep_view());
    }
    r
}

impl ErrorShape for RateLimitFailure {
    open spec fn spec_status(&self) -> u16 {
        match self {
            RateLimitFailure::TooManyRequests { .. } => 429,
            RateLimitFailure::UnableToExtractKey => 500,
            RateLimitFailure::Other { code, .. } => *code,
        }
    }

    open spec fn spec_messages(&self) -> Seq<MessageModel> {
        match self {
            RateLimitFailure::TooManyRequests { .. } => seq![
                spec_code_content("too_many_requests"@, "You are sending too many requests."@),
            ],
            RateLimitFailure::UnableToExtractKey => seq![
                spec_code_content("internal_error"@, "Unable to extract key."@),
            ],
            RateLimitFailure::Other { msg: Some(m), .. } => seq![
                spec_code_content("internal_error"@, m@),
            ],
            RateLimitFailure::Other { msg: None, .. } => Seq::empty(),
        }
    }

    /// The limiter's own headers are forwarded unchanged.
    open spec fn spec_headers(&self) -> Option<Seq<(Seq<char>, Seq<char>)>> {
        match self {
            RateLimitFailure::TooManyRequests { headers } => headers.deep_view(),
            RateLimitFailure::UnableToExtractKey => None,
            RateLimitFailure::Other { headers, .. } => headers.deep_view(),
        }
    }

    fn status(&self) -> u16 {
        match self {
            RateLimitFailure::TooManyRequests { .. } => 429,
            RateLimitFailure::UnableToExtractKey => 500,
            RateLimitFailure::Other { code, .. } => *code,
        }
    }

    fn into_errors(self) -> (r: Vec<Message>) {
        match self {
            RateLimitFailure::TooManyRequests { .. } => msg_with_content(
                "too_many_requests",
                "You are sending too many requests.",
            ).into_vec(),
            RateLimitFailure::UnableToExtractKey => msg_with_content(
                "internal_error",
                "Unable to extract key.",
            ).into_vec(),
            RateLimitFailure::Other { msg, .. } => match msg {
                Some(m) => msg_with_content("internal_error", m.as_str()).into_vec(),
                None => Vec::new(),
            },
        }
    }

    fn headers(&self) -> (r: Option<Vec<(String, String)>>) {
        match self {
            RateLimitFailure::TooManyRequests { headers: Some(h) } => Some(clone_headers(h)),
            RateLimitFailure::Other { headers: Some(h), .. } => Some(clone_headers(h)),
            _ => None,
        }
    }
}

// ---------------------------------------------------------------------------
// Persistence failures
// ---------------------------------------------------------------------------

/// What the persistence collaborator can report: either a database-side
/// error naming a violated integrity constraint, or any other failure, its
/// text kept only for the server-side log.
#[derive(Debug, PartialEq)]
pub enum DbFailure {
    /// A database error reporting the named violated constraint.
    Constraint(String),
    /// Any other persistence failure; the text never reaches the client.
    Other(String),
}

// ---------------------------------------------------------------------------
// The top-level taxonomy
// ---------------------------------------------------------------------------

/// Cross-cutting error taxonomy of the application.
///
/// Every variant maps to exactly one HTTP status; the mapping is pure and
/// total.
#[derive(Debug, PartialEq)]
pub enum AppError {
    /// One or more semantic validation violations.
    Validation(Vec<FieldViolation>),
    /// A malformed or invalid request body.
    Json(BodyRejection),
    /// A malformed query string.
    Query(QueryFailure),
    /// A persistence-layer failure.
    Database(DbFailure),
    /// A rate-limit rejection.
    Governor(RateLimitFailure),
}

impl ErrorShape for AppError {
    open spec fn spec_status(&self) -> u16 {
        match self {
            AppError::Validation(v) => v.spec_status(),
            AppError::Json(e) => e.spec_status(),
            AppError::Query(_) => 400,
            AppError::Database(_) => 500,
            AppError::Governor(e) => e.spec_status(),
        }
    }

    /// Database failures produce no client-visible messages at all: their
    /// detail is deliberately hidden from the client.
    open spec fn spec_messages(&self) -> Seq<MessageModel> {
        match self {
            AppError::Validation(v) => v.spec_messages(),
            AppError::Json(e) => e.spec_messages(),
            AppError::Query(e) => e.spec_messages(),
            AppError::Database(_) => Seq::empty(),
            AppError::Governor(e) => e.spec_messages(),
        }
    }

    open spec fn spec_headers(&self) -> Option<Seq<(Seq<char>, Seq<char>)>> {
        match self {
            AppError::Governor(e) => e.spec_headers(),
            _ => None,
        }
    }

    fn status(&self) -> u16 {
        match self {
            AppError::Validation(v) => v.status(),
            AppError::Json(e) => e.status(),
            AppError::Query(_) => 400,
            AppError::Database(_) => 500,
            AppError::Governor(e) => e.status(),
        }
    }

    fn into_errors(self) -> (r: Vec<Message>) {
        match self {
            AppError::Validation(v) => v.into_errors(),
            AppError::Json(e) => e.into_errors(),
            AppError::Query(e) => e.into_errors(),
            AppError::Database(_) => Vec::new(),
            AppError::Governor(e) => e.into_errors(),
        }
    }

    fn headers(&self) -> (r: Option<Vec<(String, String)>>) {
        match self {
            AppError::Governor(e) => e.headers(),
            _ => None,
        }
    }
}

impl From<Vec<FieldViolation>> for AppError {
    /// Automatic promotion of semantic validation failures.
    fn from(v: Vec<FieldViolation>) -> (r: Self) {
        AppError::Validation(v)
    }
}

impl vstd::std_specs::convert::FromSpecImpl<Vec<FieldViolation>> for AppError {
    open spec fn obeys_from_spec() -> bool {
        true
    }

    open spec fn from_spec(v: Vec<FieldViolation>) -> Self {
        AppError::Validation(v)
    }
}

impl From<BodyRejection> for AppError {
    /// Automatic promotion of a body decoding failure.
    fn from(e: BodyRejection) -> (r: Self) {
        AppError::Json(e)
    }
}

impl vstd::std_specs::convert::FromSpecImpl<BodyRejection> for AppError {
    open spec fn obeys_from_spec() -> bool {
        true
    }

    open spec fn from_spec(e: BodyRejection) -> Self {
        AppError::Json(e)
    }
}

impl From<QueryFailure> for AppError {
    /// Automatic promotion of a query decoding failure.
    fn from(e: QueryFailure) -> (r: Self) {
        AppError::Query(e)
    }
}

impl vstd::std_specs::convert::FromSpecImpl<QueryFailure> for AppError {
    open spec fn obeys_from_spec() -> bool {
        true
    }

    open spec fn from_spec(e: QueryFailure) -> Self {
        AppError::Query(e)
    }
}

impl From<DbFailure> for AppError {
    /// Automatic promotion of a persistence failure.
    fn from(f: DbFailure) -> (r: Self) {
        AppError::Database(f)
    }
}

impl vstd::std_specs::convert::FromSpecImpl<DbFailure> for AppError {
    open spec fn obeys_from_spec() -> bool {
        true
    }

    open spec fn from_spec(f: DbFailure) -> Self {
        AppError::Database(f)
    }
}

impl From<RateLimitFailure> for AppError {
    /// Automatic promotion of a rate-limit rejection.
    fn from(e: RateLimitFailure) -> (r: Self) {
        AppError::Governor(e)
    }
}

impl vstd::std_specs::convert::FromSpecImpl<RateLimitFailure> for AppError {
    open spec fn obeys_from_spec() -> bool {
        true
    }

    open spec fn from_spec(e: RateLimitFailure) -> Self {
        AppError::Governor(e)
    }
}

// ---------------------------------------------------------------------------
// Laws
// ---------------------------------------------------------------------------

/// Validation inputs violating k distinct (field, rule) pairs produce
/// exactly k messages, each carrying the field name and the rule
/// parameters, under status 400.
pub proof fn lemma_validation_error_shape(vs: Vec<FieldViolation>)
    ensures
        AppError::Validation(vs).spec_status() == 400,
        AppError::Validation(vs).spec_messages().len() == vs@.len(),
        forall|i: int|
            0 <= i < vs@.len() ==> {
                let m = #[trigger] AppError::Validation(vs).spec_messages()[i];
                m.code == vs@[i].code@ && m.details == Some(
                    vs@[i].params.deep_view() + seq![
                        ("field"@, DetailModel::Str(vs@[i].field@)),
                    ],
                )
            },
{
}

/// A malformed request body always maps to status 400 with exactly one
/// message, never to an internal error.
pub proof fn lemma_malformed_body_shape(r: BodyRejection)
    requires
        !(r matches BodyRejection::SchemaViolations(_)),
    ensures
        r.spec_status() == 400,
        r.spec_messages().len() == 1,
{
}

/// A persistence failure of any kind maps to status 500 and an empty
/// message list: no internal database detail reaches the client.
pub proof fn lemma_database_error_shape(f: DbFailure)
    ensures
        AppError::Database(f).spec_status() == 500,
        AppError::Database(f).spec_messages() == Seq::<MessageModel>::empty(),
{
}

} // verus!
