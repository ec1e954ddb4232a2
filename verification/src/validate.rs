//! Semantic validation: field-level business rules.
//!
//! Every violated rule produces one (field, rule, parameters) triple; a
//! value's rules are all checked, never only the first. String lengths
//! count characters, as the semantic validation collaborator does.

use crate::error::FieldViolation;
use crate::json::{DetailModel, DetailValue};
use crate::pagination::Paginate;
use vstd::prelude::*;

verus! {

/// Mathematical model of one violation.
pub struct ViolationModel {
    pub field: Seq<char>,
    pub code: Seq<char>,
    pub message: Option<Seq<char>>,
    pub params: Seq<(Seq<char>, DetailModel)>,
}

impl View for FieldViolation {
    type V = ViolationModel;

    open spec fn view(&self) -> ViolationModel {
        ViolationModel {
            field: self.field@,
            code: self.code@,
            message: match self.message {
                Some(m) => Some(m@),
                None => None,
            },
            params: self.params.deep_view(),
        }
    }
}

impl DeepView for FieldViolation {
    type V = ViolationModel;

    open spec fn deep_view(&self) -> ViolationModel {
        self.view()
    }
}

/// A value whose semantic validation rules the library knows: every
/// violated rule yields one (field, rule, parameters) triple, and all
/// rules are checked, never only the first.
pub trait Validated: Sized {
    /// The violations this value's rules produce, in field order.
    spec fn spec_violations(&self) -> Seq<ViolationModel>;

    /// Checks every rule and returns all violations.
    fn validate(&self) -> (r: Vec<FieldViolation>)
        ensures
            r.deep_view() == self.spec_violations(),
    ;
}

/// Whether a string passes the email shape check.
pub uninterp spec fn spec_email_ok(s: Seq<char>) -> bool;

/// Relies on validator's `ValidateEmail` for `str`: the HTML5 email
/// shape check, a function of the string alone.
#[verifier::external_body]
pub(crate) fn is_valid_email(s: &str) -> (r: bool)
    ensures
        r == spec_email_ok(s@),
{
    validator::ValidateEmail::validate_email(&s)
}

/// Whether a character counts as alphanumeric.
pub uninterp spec fn spec_alphanumeric(c: char) -> bool;

/// Relies on `char::is_alphanumeric`: a function of the character alone.
#[verifier::external_body]
fn char_is_alphanumeric(c: char) -> (r: bool)
    ensures
        r == spec_alphanumeric(c),
{
    c.is_alphanumeric()
}

// ---------------------------------------------------------------------------
// The violations each rule produces
// ---------------------------------------------------------------------------

/// A violated string length rule, carrying its bounds and the value.
pub open spec fn spec_length_violation(field: Seq<char>, value: Seq<char>, min: int, max: int)
    -> ViolationModel {
    ViolationModel {
        field,
        code: "length"@,
        message: None,
        params: seq![
            ("min"@, DetailModel::Int(min)),
            ("max"@, DetailModel::Int(max)),
            ("value"@, DetailModel::Str(value)),
        ],
    }
}

/// A violated numeric range rule, carrying its bounds and the value.
pub open spec fn spec_range_violation(field: Seq<char>, value: int, min: int, max: int)
    -> ViolationModel {
    ViolationModel {
        field,
        code: "range"@,
        message: None,
        params: seq![
            ("min"@, DetailModel::Int(min)),
            ("max"@, DetailModel::Int(max)),
            ("value"@, DetailModel::Int(value)),
        ],
    }
}

/// A violated email shape rule, carrying the value.
pub open spec fn spec_email_violation(field: Seq<char>, value: Seq<char>) -> ViolationModel {
    ViolationModel {
        field,
        code: "email"@,
        message: None,
        params: seq![("value"@, DetailModel::Str(value))],
    }
}

/// The violated username character class rule, carrying the value.
pub open spec fn spec_username_violation(field: Seq<char>, value: Seq<char>) -> ViolationModel {
    ViolationModel {
        field,
        code: "username must be alphanumeric"@,
        message: None,
        params: seq![("value"@, DetailModel::Str(value))],
    }
}

// ---------------------------------------------------------------------------
// Executable rule checks
// ---------------------------------------------------------------------------

pub(crate) fn length_violation(field: &str, value: &str, min: i64, max: i64) -> (r: FieldViolation)
    ensures
        r@ == spec_length_violation(field@, value@, min as int, max as int),
{
    let mut params: Vec<(String, DetailValue)> = Vec::new();
    params.push(("min".to_owned(), DetailValue::Int(min)));
    params.push(("max".to_owned(), DetailValue::Int(max)));
    params.push(("value".to_owned(), DetailValue::Str(value.to_owned())));
    let r = FieldViolation {
        field: field.to_owned(),
        code: "length".to_owned(),
        message: None,
        params,
    };
    proof {
        assert(r@.params =~= spec_length_violation(field@, value@, min as int, max as int).params);
        assert(r@ =~= spec_length_violation(field@, value@, min as int, max as int));
    }
    r
}

pub(crate) fn range_violation(field: &str, value: i64, min: i64, max: i64) -> (r: FieldViolation)
    ensures
        r@ == spec_range_violation(field@, value as int, min as int, max as int),
{
    let mut params: Vec<(String, DetailValue)> = Vec::new();
    params.push(("min".to_owned(), DetailValue::Int(min)));
    params.push(("max".to_owned(), DetailValue::Int(max)));
    params.push(("value".to_owned(), DetailValue::Int(value)));
    let r = FieldViolation {
        field: field.to_owned(),
        code: "range".to_owned(),
        message: None,
        params,
    };
    proof {
        assert(r@.params =~= spec_range_violation(
            field@,
            value as int,
            min as int,
            max as int,
        ).params);
        assert(r@ =~= spec_range_violation(field@, value as int, min as int, max as int));
    }
    r
}

pub(crate) fn email_violation(field: &str, value: &str) -> (r: FieldViolation)
    ensures
        r@ == spec_email_violation(field@, value@),
{
    let mut params: Vec<(String, DetailValue)> = Vec::new();
    params.push(("value".to_owned(), DetailValue::Str(value.to_owned())));
    let r = FieldViolation {
        field: field.to_owned(),
        code: "email".to_owned(),
        message: None,
        params,
    };
    proof {
        assert(r@.params =~= spec_email_violation(field@, value@).params);
        assert(r@ =~= spec_email_violation(field@, value@));
    }
    r
}

pub(crate) fn username_violation(field: &str, value: &str) -> (r: FieldViolation)
    ensures
        r@ == spec_username_violation(field@, value@),
{
    let mut params: Vec<(String, DetailValue)> = Vec::new();
    params.push(("value".to_owned(), DetailValue::Str(value.to_owned())));
    let r = FieldViolation {
        field: field.to_owned(),
        code: "username must be alphanumeric".to_owned(),
        message: None,
        params,
    };
    proof {
        assert(r@.params =~= spec_username_violation(field@, value@).params);
        assert(r@ =~= spec_username_violation(field@, value@));
    }
    r
}

// ---------------------------------------------------------------------------
// The rules of each input shape
// ---------------------------------------------------------------------------

impl Validated for crate::auth::LoginInput {
    /// The email must have email shape; the password 8 to 128 characters.
    open spec fn spec_violations(&self) -> Seq<ViolationModel> {
        (if !spec_email_ok(self.email@) {
            seq![spec_email_violation("email"@, self.email@)]
        } else {
            Seq::empty()
        }) + (if !(8 <= self.password@.len() <= 128) {
            seq![spec_length_violation("password"@, self.password@, 8, 128)]
        } else {
            Seq::empty()
        })
    }

    fn validate(&self) -> (r: Vec<FieldViolation>) {
        let mut r: Vec<FieldViolation> = Vec::new();
        if !is_valid_email(self.email.as_str()) {
            r.push(email_violation("email", self.email.as_str()));
        }
        let plen = self.password.as_str().unicode_len();
        if !(8 <= plen && plen <= 128) {
            r.push(length_violation("password", self.password.as_str(), 8, 128));
        }
        proof {
            assert(r.deep_view() =~~= self.spec_violations());
        }
        r
    }
}

impl Validated for crate::auth::RegisterInput {
    /// The email must have email shape; the password 8 to 128
    /// characters; the username 3 to 16 characters, all alphanumeric.
    open spec fn spec_violations(&self) -> Seq<ViolationModel> {
        (if !spec_email_ok(self.email@) {
            seq![spec_email_violation("email"@, self.email@)]
        } else {
            Seq::empty()
        }) + (if !(8 <= self.password@.len() <= 128) {
            seq![spec_length_violation("password"@, self.password@, 8, 128)]
        } else {
            Seq::empty()
        }) + (if !(3 <= self.username@.len() <= 16) {
            seq![spec_length_violation("username"@, self.username@, 3, 16)]
        } else {
            Seq::empty()
        }) + (if !spec_username_ok(self.username@) {
            seq![spec_username_violation("username"@, self.username@)]
        } else {
            Seq::empty()
        })
    }

    fn validate(&self) -> (r: Vec<FieldViolation>) {
        let mut r: Vec<FieldViolation> = Vec::new();
        if !is_valid_email(self.email.as_str()) {
            r.push(email_violation("email", self.email.as_str()));
        }
        let plen = self.password.as_str().unicode_len();
        if !(8 <= plen && plen <= 128) {
            r.push(length_violation("password", self.password.as_str(), 8, 128));
        }
        let ulen = self.username.as_str().unicode_len();
        if !(3 <= ulen && ulen <= 16) {
            r.push(length_violation("username", self.username.as_str(), 3, 16));
        }
        if !validate_username(self.username.as_str()) {
            r.push(username_violation("username", self.username.as_str()));
        }
        proof {
            assert(r.deep_view() =~~= self.spec_violations());
        }
        r
    }
}

impl Validated for crate::auth::UpdateUserInput {
    /// Each present field obeys the same rule as at registration.
    open spec fn spec_violations(&self) -> Seq<ViolationModel> {
        (match self.email {
            Some(e) => if !spec_email_ok(e@) {
                seq![spec_email_violation("email"@, e@)]
            } else {
                Seq::empty()
            },
            None => Seq::empty(),
        }) + (match self.username {
            Some(u) => (if !(3 <= u@.len() <= 16) {
                seq![spec_length_violation("username"@, u@, 3, 16)]
            } else {
                Seq::empty()
            }) + (if !spec_username_ok(u@) {
                seq![spec_username_violation("username"@, u@)]
            } else {
                Seq::empty()
            }),
            None => Seq::empty(),
        })
    }

    fn validate(&self) -> (r: Vec<FieldViolation>) {
        let mut r: Vec<FieldViolation> = Vec::new();
        match &self.email {
            Some(e) => {
                if !is_valid_email(e.as_str()) {
                    r.push(email_violation("email", e.as_str()));
                }
            },
            None => {},
        }
        match &self.username {
            Some(u) => {
                let ulen = u.as_str().unicode_len();
                if !(3 <= ulen && ulen <= 16) {
                    r.push(length_violation("username", u.as_str(), 3, 16));
                }
                if !validate_username(u.as_str()) {
                    r.push(username_violation("username", u.as_str()));
                }
            },
            None => {},
        }
        proof {
            assert(r.deep_view() =~~= self.spec_violations());
        }
        r
    }
}

impl Validated for crate::post::CreatePostInput {
    /// The title must be 3 to 128 characters; the content is free.
    open spec fn spec_violations(&self) -> Seq<ViolationModel> {
        if !(3 <= self.title@.len() <= 128) {
            seq![spec_length_violation("title"@, self.title@, 3, 128)]
        } else {
            Seq::empty()
        }
    }

    fn validate(&self) -> (r: Vec<FieldViolation>) {
        let mut r: Vec<FieldViolation> = Vec::new();
        let tlen = self.title.as_str().unicode_len();
        if !(3 <= tlen && tlen <= 128) {
            r.push(length_violation("title", self.title.as_str(), 3, 128));
        }
        proof {
            assert(r.deep_view() =~~= self.spec_violations());
        }
        r
    }
}

impl Validated for crate::post::UpdatePostInput {
    /// A present title obeys the same rule as at creation.
    open spec fn spec_violations(&self) -> Seq<ViolationModel> {
        match self.title {
            Some(t) => if !(3 <= t@.len() <= 128) {
                seq![spec_length_violation("title"@, t@, 3, 128)]
            } else {
                Seq::empty()
            },
            None => Seq::empty(),
        }
    }

    fn validate(&self) -> (r: Vec<FieldViolation>) {
        let mut r: Vec<FieldViolation> = Vec::new();
        match &self.title {
            Some(t) => {
                let tlen = t.as_str().unicode_len();
                if !(3 <= tlen && tlen <= 128) {
                    r.push(length_violation("title", t.as_str(), 3, 128));
                }
            },
            None => {},
        }
        proof {
            assert(r.deep_view() =~~= self.spec_violations());
        }
        r
    }
}

impl Validated for Paginate {
    /// Page and size must both lie in 1 to 100.
    open spec fn spec_violations(&self) -> Seq<ViolationModel> {
        (if !(1 <= self.page <= 100) {
            seq![spec_range_violation("page"@, self.page as int, 1, 100)]
        } else {
            Seq::empty()
        }) + (if !(1 <= self.size <= 100) {
            seq![spec_range_violation("size"@, self.size as int, 1, 100)]
        } else {
            Seq::empty()
        })
    }

    fn validate(&self) -> (r: Vec<FieldViolation>) {
        let mut r: Vec<FieldViolation> = Vec::new();
        if !(1 <= self.page && self.page <= 100) {
            r.push(range_violation("page", self.page, 1, 100));
        }
        if !(1 <= self.size && self.size <= 100) {
            r.push(range_violation("size", self.size, 1, 100));
        }
        proof {
            assert(r.deep_view() =~~= self.spec_violations());
        }
        r
    }
}

impl Validated for crate::pagination::IdInput {
    /// An id in the path carries no further rule.
    open spec fn spec_violations(&self) -> Seq<ViolationModel> {
        Seq::empty()
    }

    fn validate(&self) -> (r: Vec<FieldViolation>) {
        let r: Vec<FieldViolation> = Vec::new();
        proof {
            assert(r.deep_view() =~~= Seq::<ViolationModel>::empty());
        }
        r
    }
}

/// Whether every character of the username is alphanumeric.
pub open spec fn spec_username_ok(s: Seq<char>) -> bool {
    forall|i: int| 0 <= i < s.len() ==> spec_alphanumeric(s[i])
}

/// Checks the username character class rule, the one custom rule of the
/// service.
pub fn validate_username(username: &str) -> (r: bool)
    ensures
        r == spec_username_ok(username@),
{
    let n = username.unicode_len();
    let mut i: usize = 0;
    while i < n
        invariant
            n == username@.len(),
            i <= n,
            forall|j: int| 0 <= j < i ==> spec_alphanumeric(username@[j]),
        decreases n - i,
    {
        if !char_is_alphanumeric(username.get_char(i)) {
            return false;
        }
        i = i + 1;
    }
    true
}

} // verus!
