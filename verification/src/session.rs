//! Sessions, API keys, and the credential rules of the extraction
//! pipeline.
//!
//! A request authenticates either by a bearer API key in the
//! `Authorization` header or by the session cookie; the API key is
//! checked first, a fixed precedence. The cookie grammar is parsed here;
//! the database lookups stay with the caller, which hands their results
//! back to the decision functions.

use crate::auth;
use crate::ids::{parse_uuid, spec_uuid_chars};
use crate::model::User;
use crate::text::{from_chars, str_eq};
use vstd::prelude::*;

verus! {

/// The name of the session cookie.
pub fn cookie_name() -> (r: &'static str)
    ensures
        r@ == "session"@,
{
    "session"
}

/// The prefix of a bearer `Authorization` header.
pub fn authorization_prefix() -> (r: &'static str)
    ensures
        r@ == "Bearer "@,
{
    "Bearer "
}

/// A session or API key.
///
/// When fetching a user through cookie authentication, this is a
/// [`SessionOrApiKey::Session`]; through API key authentication, a
/// [`SessionOrApiKey::ApiKey`].
#[derive(Debug, PartialEq)]
pub enum SessionOrApiKey {
    Session(u128),
    ApiKey(u128),
}

/// An authenticated identity: how the request authenticated, and the
/// resolved user.
#[derive(Debug, PartialEq)]
pub struct Session {
    pub id: SessionOrApiKey,
    pub user: User,
}

// ---------------------------------------------------------------------------
// Session cookies
// ---------------------------------------------------------------------------

/// A cookie to be written into a `Set-Cookie` header.
#[derive(Debug, PartialEq)]
pub struct Cookie {
    pub name: String,
    pub value: String,
    pub http_only: bool,
    pub path: Option<String>,
    pub max_age_seconds: Option<i64>,
}

/// Creates a session cookie with no expiry. Its value is the id's UUID
/// text, and parsing that text recovers exactly the id, so the session
/// extractor resolves the cookie this library writes to the session it
/// was built from.
pub fn create_cookie(session_id: u128) -> (c: Cookie)
    ensures
        c.name@ == "session"@,
        c.value@ == spec_uuid_chars(session_id),
        crate::ids::spec_uuid_of(c.value@) == Some(session_id),
        c.http_only,
        c.path matches Some(p) && p@ == "/"@,
        c.max_age_seconds is None,
{
    Cookie {
        name: "session".to_owned(),
        value: crate::ids::format_uuid(session_id),
        http_only: true,
        path: Some("/".to_owned()),
        max_age_seconds: None,
    }
}

/// Creates an empty session cookie used to invalidate a previous one.
pub fn clear_cookie() -> (c: Cookie)
    ensures
        c.name@ == "session"@,
        c.value@ == Seq::<char>::empty(),
        c.http_only,
        c.path matches Some(p) && p@ == "/"@,
        c.max_age_seconds == Some(0i64),
{
    proof {
        reveal_strlit("");
    }
    Cookie {
        name: "session".to_owned(),
        value: "".to_owned(),
        http_only: true,
        path: Some("/".to_owned()),
        max_age_seconds: Some(0),
    }
}

/// The `Set-Cookie` header text of a cookie.
pub open spec fn spec_set_cookie(c: Cookie) -> Seq<char> {
    c.name@ + "="@ + c.value@ + (if c.http_only {
        "; HttpOnly"@
    } else {
        Seq::empty()
    }) + (match c.path {
        Some(p) => "; Path="@ + p@,
        None => Seq::empty(),
    }) + (match c.max_age_seconds {
        Some(s) => "; Max-Age="@ + crate::json::spec_dec_int(s as int),
        None => Seq::empty(),
    })
}

/// Renders a cookie into its `Set-Cookie` header value.
pub fn set_cookie_header(c: &Cookie) -> (r: String)
    ensures
        r@ == spec_set_cookie(*c),
{
    let mut out: Vec<char> = Vec::new();
    crate::json::push_str(&mut out, c.name.as_str());
    crate::json::push_str(&mut out, "=");
    crate::json::push_str(&mut out, c.value.as_str());
    if c.http_only {
        crate::json::push_str(&mut out, "; HttpOnly");
    }
    match &c.path {
        Some(p) => {
            crate::json::push_str(&mut out, "; Path=");
            crate::json::push_str(&mut out, p.as_str());
        },
        None => {},
    }
    match &c.max_age_seconds {
        Some(s) => {
            crate::json::push_str(&mut out, "; Max-Age=");
            crate::json::push_dec_i64(&mut out, *s);
        },
        None => {},
    }
    proof {
        assert(out@ =~= spec_set_cookie(*c));
    }
    from_chars(&out)
}

// ---------------------------------------------------------------------------
// The cookie header grammar
// ---------------------------------------------------------------------------

/// Length of the prefix of `s` before the first `c`, the whole length
/// when `c` does not occur.
pub open spec fn spec_upto(s: Seq<char>, c: char) -> nat
    decreases s.len(),
{
    if s.len() == 0 {
        0
    } else if s[0] == c {
        0
    } else {
        1 + spec_upto(s.skip(1), c)
    }
}

proof fn lemma_upto_is(s: Seq<char>, c: char, k: int)
    requires
        0 <= k <= s.len(),
        forall|j: int| 0 <= j < k ==> s[j] != c,
        k < s.len() ==> s[k] == c,
    ensures
        spec_upto(s, c) == k,
    decreases k,
{
    if s.len() == 0 {
    } else if s[0] == c {
        assert(k == 0);
    } else {
        assert(k >= 1);
        assert forall|j: int| 0 <= j < k - 1 implies s.skip(1)[j] != c by {
            assert(s.skip(1)[j] == s[j + 1]);
        }
        if k - 1 < s.skip(1).len() {
            assert(s.skip(1)[k - 1] == s[k]);
        }
        lemma_upto_is(s.skip(1), c, k - 1);
    }
}

/// Number of leading spaces of `s`.
pub open spec fn spec_lead(s: Seq<char>) -> int
    decreases s.len(),
{
    if s.len() == 0 {
        0
    } else if s[0] == ' ' {
        1 + spec_lead(s.skip(1))
    } else {
        0
    }
}

/// Number of trailing spaces of `s`.
pub open spec fn spec_trail(s: Seq<char>) -> int
    decreases s.len(),
{
    if s.len() == 0 {
        0
    } else if s.last() == ' ' {
        1 + spec_trail(s.drop_last())
    } else {
        0
    }
}

/// `s` without its surrounding spaces.
pub open spec fn spec_trim(s: Seq<char>) -> Seq<char> {
    if spec_lead(s) + spec_trail(s) <= s.len() {
        s.subrange(spec_lead(s), s.len() - spec_trail(s))
    } else {
        Seq::empty()
    }
}

proof fn lemma_lead_is(s: Seq<char>, k: int)
    requires
        0 <= k <= s.len(),
        forall|j: int| 0 <= j < k ==> s[j] == ' ',
        k < s.len() ==> s[k] != ' ',
    ensures
        spec_lead(s) == k,
    decreases k,
{
    if s.len() == 0 {
    } else if k == 0 {
    } else {
        assert(s[0] == ' ');
        assert forall|j: int| 0 <= j < k - 1 implies s.skip(1)[j] == ' ' by {
            assert(s.skip(1)[j] == s[j + 1]);
        }
        if k - 1 < s.skip(1).len() {
            assert(s.skip(1)[k - 1] == s[k]);
        }
        lemma_lead_is(s.skip(1), k - 1);
    }
}

proof fn lemma_trail_is(s: Seq<char>, k: int)
    requires
        0 <= k <= s.len(),
        forall|j: int| s.len() - k <= j < s.len() ==> s[j] == ' ',
        k < s.len() ==> s[s.len() - k - 1] != ' ',
    ensures
        spec_trail(s) == k,
    decreases k,
{
    if s.len() == 0 {
    } else if k == 0 {
        assert(s.last() != ' ');
    } else {
        assert(s.last() == ' ');
        assert forall|j: int| s.drop_last().len() - (k - 1) <= j < s.drop_last().len() implies s.drop_last()[j]
            == ' ' by {
            assert(s.drop_last()[j] == s[j]);
        }
        if k - 1 < s.drop_last().len() {
            assert(s.drop_last()[s.drop_last().len() - (k - 1) - 1] == s[s.len() - k - 1]);
        }
        lemma_trail_is(s.drop_last(), k - 1);
    }
}

/// Index of the first `c` in `v` at or after `from`, the length when
/// there is none.
fn find_char(v: &Vec<char>, from: usize, c: char) -> (r: usize)
    requires
        from <= v@.len(),
    ensures
        from <= r <= v@.len(),
        forall|j: int| from <= j < r ==> v@[j] != c,
        r < v@.len() ==> v@[r as int] == c,
{
    let n = v.len();
    let mut i = from;
    while i < n
        invariant
            from <= i <= n,
            n == v@.len(),
            forall|j: int| from <= j < i ==> v@[j] != c,
        decreases n - i,
    {
        if v[i] == c {
            return i;
        }
        i = i + 1;
    }
    i
}

/// The characters of `v` from `lo` to `hi`.
fn subvec(v: &Vec<char>, lo: usize, hi: usize) -> (r: Vec<char>)
    requires
        lo <= hi <= v@.len(),
    ensures
        r@ == v@.subrange(lo as int, hi as int),
{
    let mut r: Vec<char> = Vec::new();
    let mut i = lo;
    while i < hi
        invariant
            lo <= i <= hi <= v@.len(),
            r@ =~= v@.subrange(lo as int, i as int),
        decreases hi - i,
    {
        r.push(v[i]);
        proof {
            assert(r@ =~= v@.subrange(lo as int, i + 1));
        }
        i = i + 1;
    }
    r
}

/// `v` without its surrounding spaces.
fn trim_chars(v: &Vec<char>) -> (r: Vec<char>)
    ensures
        r@ == spec_trim(v@),
{
    let n = v.len();
    let mut lo: usize = 0;
    while lo < n && v[lo] == ' '
        invariant
            lo <= n,
            n == v@.len(),
            forall|j: int| 0 <= j < lo ==> v@[j] == ' ',
        decreases n - lo,
    {
        lo = lo + 1;
    }
    proof {
        lemma_lead_is(v@, lo as int);
    }
    let mut hi: usize = n;
    while hi > lo && v[hi - 1] == ' '
        invariant
            lo <= hi <= n,
            n == v@.len(),
            forall|j: int| hi <= j < n ==> v@[j] == ' ',
        decreases hi,
    {
        hi = hi - 1;
    }
    if lo == n {
        proof {
            lemma_trail_is(v@, n as int);
            if n > 0 {
                assert(spec_lead(v@) + spec_trail(v@) > v@.len());
            }
            assert(spec_trim(v@) =~= Seq::<char>::empty());
        }
        Vec::new()
    } else {
        proof {
            assert(v@[lo as int] != ' ');
            assert(hi > lo);
            lemma_trail_is(v@, (n - hi) as int);
            assert(spec_trim(v@) == v@.subrange(lo as int, hi as int));
        }
        subvec(v, lo, hi)
    }
}

/// The pair a single `name=value` segment contributes: nothing when it
/// has no `=`, the trimmed name and value otherwise.
pub open spec fn spec_segment_pair(seg: Seq<char>) -> Seq<(Seq<char>, Seq<char>)> {
    let e = spec_upto(seg, '=') as int;
    if e >= seg.len() {
        Seq::empty()
    } else {
        seq![(spec_trim(seg.take(e)), spec_trim(seg.skip(e + 1)))]
    }
}

/// The `name=value` pairs of a `Cookie` header, in order: segments
/// separated by `;`, surrounding spaces ignored, segments without `=`
/// skipped.
pub open spec fn spec_cookie_pairs(s: Seq<char>) -> Seq<(Seq<char>, Seq<char>)>
    decreases s.len(),
{
    let k = spec_upto(s, ';') as int;
    if k >= s.len() {
        spec_segment_pair(s)
    } else {
        spec_segment_pair(s.take(k)) + spec_cookie_pairs(s.skip(k + 1))
    }
}

fn segment_pair(seg: &Vec<char>) -> (r: Option<(String, String)>)
    ensures
        r is None ==> spec_segment_pair(seg@) == Seq::<(Seq<char>, Seq<char>)>::empty(),
        r matches Some(p) ==> spec_segment_pair(seg@) == seq![(p.0@, p.1@)],
{
    let n = seg.len();
    let e = find_char(seg, 0, '=');
    proof {
        lemma_upto_is(seg@, '=', e as int);
    }
    if e == n {
        None
    } else {
        let name = trim_chars(&subvec(seg, 0, e));
        let value = trim_chars(&subvec(seg, e + 1, n));
        proof {
            assert(seg@.subrange(0, e as int) =~= seg@.take(e as int));
            assert(seg@.subrange(e + 1, n as int) =~= seg@.skip(e + 1));
        }
        Some((from_chars(&name), from_chars(&value)))
    }
}

fn pairs_from(v: &Vec<char>, pos: usize, out: &mut Vec<(String, String)>)
    requires
        pos <= v@.len(),
    ensures
        final(out).deep_view() == old(out).deep_view() + spec_cookie_pairs(v@.skip(pos as int)),
    decreases v@.len() - pos,
{
    let n = v.len();
    let k = find_char(v, pos, ';');
    proof {
        let s = v@.skip(pos as int);
        assert forall|j: int| 0 <= j < k - pos implies s[j] != ';' by {
            assert(s[j] == v@[j + pos]);
        }
        if k - pos < s.len() {
            assert(s[k - pos] == v@[k as int]);
        }
        lemma_upto_is(s, ';', k - pos);
    }
    let seg = subvec(v, pos, k);
    proof {
        assert(seg@ =~= v@.skip(pos as int).take(k - pos));
    }
    let ghost prev = out.deep_view();
    let pair = segment_pair(&seg);
    match pair {
        Some(p) => {
            let ghost pm = (p.0@, p.1@);
            out.push(p);
            proof {
                assert(out.deep_view() =~~= prev + seq![pm]);
            }
        },
        None => {},
    }
    if k < n {
        pairs_from(v, k + 1, out);
        proof {
            assert(v@.skip(pos as int).skip(k - pos + 1) =~= v@.skip(k + 1));
            assert(final(out).deep_view() =~~= old(out).deep_view() + spec_cookie_pairs(
                v@.skip(pos as int),
            ));
        }
    } else {
        proof {
            assert(v@.skip(pos as int).take(k - pos) =~= v@.skip(pos as int));
            assert(final(out).deep_view() =~~= old(out).deep_view() + spec_cookie_pairs(
                v@.skip(pos as int),
            ));
        }
    }
}

/// Parses one `Cookie` header into its `name=value` pairs, in order.
pub fn parse_cookie_pairs(header: &str) -> (r: Vec<(String, String)>)
    ensures
        r.deep_view() == spec_cookie_pairs(header@),
{
    let v = crate::text::to_chars(header);
    let mut out: Vec<(String, String)> = Vec::new();
    pairs_from(&v, 0, &mut out);
    proof {
        assert(v@.skip(0) =~= header@);
        assert(out.deep_view() =~~= spec_cookie_pairs(header@));
    }
    out
}

/// The value of the first pair with the given name.
pub open spec fn spec_find_cookie(pairs: Seq<(Seq<char>, Seq<char>)>, name: Seq<char>) -> Option<
    Seq<char>,
>
    decreases pairs.len(),
{
    if pairs.len() == 0 {
        None
    } else if pairs[0].0 == name {
        Some(pairs[0].1)
    } else {
        spec_find_cookie(pairs.skip(1), name)
    }
}

fn find_cookie(pairs: &Vec<(String, String)>, name: &str) -> (r: Option<String>)
    ensures
        (r is Some) == (spec_find_cookie(pairs.deep_view(), name@) is Some),
        r matches Some(s) ==> spec_find_cookie(pairs.deep_view(), name@) == Some(s@),
{
    let n = pairs.len();
    let mut i: usize = 0;
    proof {
        assert(pairs.deep_view().skip(0) =~= pairs.deep_view());
    }
    while i < n
        invariant
            i <= n,
            n == pairs@.len(),
            spec_find_cookie(pairs.deep_view().skip(i as int), name@) == spec_find_cookie(
                pairs.deep_view(),
                name@,
            ),
        decreases n - i,
    {
        proof {
            assert(pairs.deep_view().skip(i as int)[0] == pairs.deep_view()[i as int]);
            assert(pairs.deep_view()[i as int] == (pairs@[i as int].0@, pairs@[i as int].1@));
        }
        if str_eq(pairs[i].0.as_str(), name) {
            return Some(pairs[i].1.clone());
        }
        proof {
            assert(pairs.deep_view().skip(i as int).skip(1) =~= pairs.deep_view().skip(i + 1));
        }
        i = i + 1;
    }
    proof {
        assert(pairs.deep_view().skip(n as int) =~= Seq::<(Seq<char>, Seq<char>)>::empty());
    }
    None
}

/// The session cookie's value across the request's `Cookie` headers, in
/// order: the first pair named `session` wins.
pub open spec fn spec_session_cookie(headers: Seq<Seq<char>>) -> Option<Seq<char>>
    decreases headers.len(),
{
    if headers.len() == 0 {
        None
    } else {
        match spec_find_cookie(spec_cookie_pairs(headers[0]), "session"@) {
            Some(x) => Some(x),
            None => spec_session_cookie(headers.skip(1)),
        }
    }
}

/// Finds the session cookie's value across the `Cookie` headers.
pub fn session_cookie_value(headers: &Vec<String>) -> (r: Option<String>)
    ensures
        (r is Some) == (spec_session_cookie(headers.deep_view()) is Some),
        r matches Some(s) ==> spec_session_cookie(headers.deep_view()) == Some(s@),
{
    let n = headers.len();
    let mut i: usize = 0;
    proof {
        assert(headers.deep_view().skip(0) =~= headers.deep_view());
    }
    while i < n
        invariant
            i <= n,
            n == headers@.len(),
            spec_session_cookie(headers.deep_view().skip(i as int)) == spec_session_cookie(
                headers.deep_view(),
            ),
        decreases n - i,
    {
        proof {
            assert(headers.deep_view().skip(i as int)[0] == headers.deep_view()[i as int]);
            assert(headers.deep_view()[i as int] == headers@[i as int]@);
        }
        let pairs = parse_cookie_pairs(headers[i].as_str());
        let found = find_cookie(&pairs, cookie_name());
        match found {
            Some(s) => {
                return Some(s);
            },
            None => {},
        }
        proof {
            assert(headers.deep_view().skip(i as int).skip(1) =~= headers.deep_view().skip(i + 1));
        }
        i = i + 1;
    }
    proof {
        assert(headers.deep_view().skip(n as int) =~= Seq::<Seq<char>>::empty());
    }
    None
}

// ---------------------------------------------------------------------------
// Credential extraction
// ---------------------------------------------------------------------------

/// The token after the `Bearer ` prefix of an `Authorization` header,
/// when the prefix is there.
pub open spec fn spec_bearer_token(h: Seq<char>) -> Option<Seq<char>> {
    if h.len() >= 7 && h.subrange(0, 7) == "Bearer "@ {
        Some(h.skip(7))
    } else {
        None
    }
}

/// Parses a bearer `Authorization` header into the API key id it names.
pub fn parse_bearer(h: &str) -> (r: Option<u128>)
    ensures
        r == (match spec_bearer_token(h@) {
            Some(t) => crate::ids::spec_uuid_of(t),
            None => None::<u128>,
        }),
{
    let n = h.unicode_len();
    if n < 7 {
        return None;
    }
    let prefix = h.substring_char(0, 7);
    if !str_eq(prefix, authorization_prefix()) {
        return None;
    }
    let rest = h.substring_char(7, n);
    parse_uuid(rest)
}

/// The credential a request's headers carry. The `Authorization` header
/// is checked first: when it is present at all, the cookies are never
/// consulted, so a request bearing both credentials authenticates by the
/// API key.
pub open spec fn spec_credential(
    authorization: Option<Seq<char>>,
    cookie_headers: Seq<Seq<char>>,
) -> Result<SessionOrApiKey, auth::Error> {
    match authorization {
        Some(h) => match spec_bearer_token(h) {
            Some(t) => match crate::ids::spec_uuid_of(t) {
                Some(u) => Ok(SessionOrApiKey::ApiKey(u)),
                None => Err(auth::Error::InvalidApiKey),
            },
            None => Err(auth::Error::InvalidApiKey),
        },
        None => match spec_session_cookie(cookie_headers) {
            None => Err(auth::Error::NoSessionCookieOrApiKey),
            Some(val) => match crate::ids::spec_uuid_of(val) {
                Some(u) => Ok(SessionOrApiKey::Session(u)),
                None => Err(auth::Error::InvalidSessionCookie),
            },
        },
    }
}

/// Reads the credential out of the request headers: the bearer API key
/// when an `Authorization` header is present, else the session cookie.
pub fn credential_of_headers(authorization: Option<&str>, cookie_headers: &Vec<String>) -> (r:
    Result<SessionOrApiKey, auth::Error>)
    ensures
        r == spec_credential(
            match authorization {
                Some(h) => Some(h@),
                None => None::<Seq<char>>,
            },
            cookie_headers.deep_view(),
        ),
{
    match authorization {
        Some(h) => match parse_bearer(h) {
            Some(u) => Ok(SessionOrApiKey::ApiKey(u)),
            None => Err(auth::Error::InvalidApiKey),
        },
        None => match session_cookie_value(cookie_headers) {
            None => Err(auth::Error::NoSessionCookieOrApiKey),
            Some(val) => match parse_uuid(val.as_str()) {
                Some(u) => Ok(SessionOrApiKey::Session(u)),
                None => Err(auth::Error::InvalidSessionCookie),
            },
        },
    }
}

/// Resolves a credential against the user the caller looked it up to: a
/// missing row is the credential's own 401, any persistence failure is
/// hidden behind a 500.
pub fn resolve_credential(cred: SessionOrApiKey, lookup: Result<Option<User>, crate::error::DbFailure>)
    -> (r: Result<Session, auth::RouteError>)
    ensures
        r == (match lookup {
            Ok(Some(u)) => Ok::<Session, auth::RouteError>(Session { id: cred, user: u }),
            Ok(None) => Err::<Session, auth::RouteError>(
                crate::route_error::RouteError::Route(
                    match cred {
                        SessionOrApiKey::ApiKey(_) => auth::Error::InvalidApiKey,
                        SessionOrApiKey::Session(_) => auth::Error::InvalidSessionCookie,
                    },
                ),
            ),
            Err(f) => Err::<Session, auth::RouteError>(
                crate::route_error::RouteError::App(crate::error::AppError::Database(f)),
            ),
        }),
{
    match lookup {
        Ok(Some(u)) => Ok(Session { id: cred, user: u }),
        Ok(None) => Err(crate::route_error::RouteError::Route(
            match cred {
                SessionOrApiKey::ApiKey(_) => auth::Error::InvalidApiKey,
                SessionOrApiKey::Session(_) => auth::Error::InvalidSessionCookie,
            },
        )),
        Err(f) => Err(crate::route_error::RouteError::from_db(f)),
    }
}

// ---------------------------------------------------------------------------
// Laws
// ---------------------------------------------------------------------------

/// Authentication precedence: when the `Authorization` header carries a
/// valid bearer credential, the resolved credential is that API key,
/// whatever cookies the request also carries.
pub proof fn lemma_api_key_precedence(h: Seq<char>, cookies: Seq<Seq<char>>, k: u128)
    requires
        spec_bearer_token(h) matches Some(t) && crate::ids::spec_uuid_of(t) == Some(k),
    ensures
        spec_credential(Some(h), cookies) == Ok::<SessionOrApiKey, auth::Error>(
            SessionOrApiKey::ApiKey(k),
        ),
{
}

/// With an `Authorization` header present, the cookies never influence
/// the credential at all.
pub proof fn lemma_authorization_ignores_cookies(
    h: Seq<char>,
    cookies1: Seq<Seq<char>>,
    cookies2: Seq<Seq<char>>,
)
    ensures
        spec_credential(Some(h), cookies1) == spec_credential(Some(h), cookies2),
{
}

/// A request with no `Authorization` header and no session cookie fails
/// with the `authentication_required` error.
pub proof fn lemma_no_credential(cookies: Seq<Seq<char>>)
    requires
        spec_session_cookie(cookies) is None,
    ensures
        spec_credential(None::<Seq<char>>, cookies) == Err::<SessionOrApiKey, auth::Error>(
            auth::Error::NoSessionCookieOrApiKey,
        ),
{
}

} // verus!
