//! A single client-visible error datum.

use crate::json::{
    push_details, push_quoted, push_str, spec_quoted, spec_render_details, DetailModel, DetailValue,
};
use vstd::prelude::*;

verus! {

/// One error message sent to the client.
///
/// `code` is a stable machine-readable identifier and is always present;
/// when `content` is absent the client treats the code as canonical.
/// `details` is an optional mapping from string keys to structured values,
/// such as the parameters of a violated validation constraint.
#[derive(Debug, PartialEq)]
pub struct Message {
    pub code: String,
    pub content: Option<String>,
    pub details: Option<Vec<(String, DetailValue)>>,
}

/// Mathematical model of a message: the same shape over character
/// sequences.
pub struct MessageModel {
    pub code: Seq<char>,
    pub content: Option<Seq<char>>,
    pub details: Option<Seq<(Seq<char>, DetailModel)>>,
}

impl View for Message {
    type V = MessageModel;

    open spec fn view(&self) -> MessageModel {
        MessageModel {
            code: self.code@,
            content: match self.content {
                Some(c) => Some(c@),
                None => None,
            },
            details: match self.details {
                Some(d) => Some(d.deep_view()),
                None => None,
            },
        }
    }
}

impl DeepView for Message {
    type V = MessageModel;

    open spec fn deep_view(&self) -> MessageModel {
        self.view()
    }
}

impl Message {
    /// A message holding only the given code.
    pub fn new(code: &str) -> (m: Message)
        ensures
            m@.code == code@,
            m@.content is None,
            m@.details is None,
    {
        Message { code: code.to_owned(), content: None, details: None }
    }

    /// The same message with its human-readable text set.
    pub fn content(self, content: &str) -> (m: Message)
        ensures
            m@.code == self@.code,
            m@.content == Some(content@),
            m@.details == self@.details,
    {
        Message { code: self.code, content: Some(content.to_owned()), details: self.details }
    }

    /// The same message with `key: value` in its details: a mapping
    /// insert, which overwrites the value of an already present key and
    /// appends the pair otherwise.
    pub fn detail(self, key: &str, value: DetailValue) -> (m: Message)
        ensures
            m@.code == self@.code,
            m@.content == self@.content,
            m@.details == Some(spec_upsert(spec_prior_details(self@), key@, value@)),
    {
        let mut details: Vec<(String, DetailValue)> = match self.details {
            Some(d) => d,
            None => Vec::new(),
        };
        let ghost prior = details.deep_view();
        let n = details.len();
        let mut found: usize = n;
        let mut i: usize = 0;
        while i < n
            invariant
                i <= n,
                found <= n,
                n == details@.len(),
                prior == details.deep_view(),
                found == n ==> forall|j: int| 0 <= j < i ==> prior[j].0 != key@,
                found < n ==> found < i && prior[found as int].0 == key@ && forall|j: int|
                    0 <= j < found ==> prior[j].0 != key@,
            decreases n - i,
        {
            proof {
                assert(prior[i as int] == (details@[i as int].0@, details@[i as int].1@));
            }
            if found == n && crate::text::str_eq(details[i].0.as_str(), key) {
                found = i;
            }
            i = i + 1;
        }
        if found < n {
            details[found] = (key.to_owned(), value);
            proof {
                lemma_upsert_found(prior, key@, value@, found as int);
                assert(details.deep_view() =~~= prior.update(found as int, (key@, value@)));
            }
        } else {
            details.push((key.to_owned(), value));
            proof {
                assert(prior.len() == n);
                assert(forall|j: int| 0 <= j < prior.len() ==> prior[j].0 != key@);
                lemma_upsert_absent(prior, key@, value@);
                assert(details.deep_view() =~~= prior + seq![(key@, value@)]);
            }
        }
        let m = Message { code: self.code, content: self.content, details: Some(details) };
        proof {
            assert(m@.details == Some(spec_upsert(spec_prior_details(self@), key@, value@)));
        }
        m
    }

    /// This message alone, as a list.
    pub fn into_vec(self) -> (r: Vec<Message>)
        ensures
            r@.len() == 1,
            r@[0] == self,
    {
        let mut r: Vec<Message> = Vec::new();
        r.push(self);
        r
    }
}

/// The details of a message model, the empty mapping when it has none.
pub open spec fn spec_prior_details(m: MessageModel) -> Seq<(Seq<char>, DetailModel)> {
    match m.details {
        Some(d) => d,
        None => Seq::empty(),
    }
}

/// A mapping insert into a key/value list: the first entry whose key is
/// `k` takes the new value in place, and a fresh pair goes to the end
/// when no entry has that key.
pub open spec fn spec_upsert(
    d: Seq<(Seq<char>, DetailModel)>,
    k: Seq<char>,
    v: DetailModel,
) -> Seq<(Seq<char>, DetailModel)>
    decreases d.len(),
{
    if d.len() == 0 {
        seq![(k, v)]
    } else if d[0].0 == k {
        seq![(k, v)] + d.skip(1)
    } else {
        seq![d[0]] + spec_upsert(d.skip(1), k, v)
    }
}

proof fn lemma_upsert_found(d: Seq<(Seq<char>, DetailModel)>, k: Seq<char>, v: DetailModel, i: int)
    requires
        0 <= i < d.len(),
        d[i].0 == k,
        forall|j: int| 0 <= j < i ==> d[j].0 != k,
    ensures
        spec_upsert(d, k, v) == d.update(i, (k, v)),
    decreases i,
{
    if i == 0 {
        assert(spec_upsert(d, k, v) =~= d.update(0, (k, v)));
    } else {
        assert(d.skip(1)[i - 1].0 == k);
        assert forall|j: int| 0 <= j < i - 1 implies d.skip(1)[j].0 != k by {
            assert(d.skip(1)[j] == d[j + 1]);
        }
        lemma_upsert_found(d.skip(1), k, v, i - 1);
        assert(spec_upsert(d, k, v) =~= d.update(i, (k, v)));
    }
}

proof fn lemma_upsert_absent(d: Seq<(Seq<char>, DetailModel)>, k: Seq<char>, v: DetailModel)
    requires
        forall|j: int| 0 <= j < d.len() ==> d[j].0 != k,
    ensures
        spec_upsert(d, k, v) == d + seq![(k, v)],
    decreases d.len(),
{
    if d.len() == 0 {
        assert(spec_upsert(d, k, v) =~= d + seq![(k, v)]);
    } else {
        assert forall|j: int| 0 <= j < d.skip(1).len() implies d.skip(1)[j].0 != k by {
            assert(d.skip(1)[j] == d[j + 1]);
        }
        lemma_upsert_absent(d.skip(1), k, v);
        assert(spec_upsert(d, k, v) =~= d + seq![(k, v)]);
    }
}

/// Setting the same detail twice is idempotent: the second insert of a
/// key overwrites the first, and the key/value set of the mapping stays
/// the same.
pub proof fn lemma_detail_idempotent(d: Seq<(Seq<char>, DetailModel)>, k: Seq<char>, v: DetailModel)
    ensures
        spec_upsert(spec_upsert(d, k, v), k, v) == spec_upsert(d, k, v),
    decreases d.len(),
{
    if d.len() == 0 {
        assert(spec_upsert(spec_upsert(d, k, v), k, v) =~= spec_upsert(d, k, v));
    } else if d[0].0 == k {
        assert(spec_upsert(spec_upsert(d, k, v), k, v) =~= spec_upsert(d, k, v));
    } else {
        lemma_detail_idempotent(d.skip(1), k, v);
        let u = spec_upsert(d, k, v);
        assert(u == seq![d[0]] + spec_upsert(d.skip(1), k, v));
        assert(u[0] == d[0]);
        assert(u.skip(1) =~= spec_upsert(d.skip(1), k, v));
        assert(spec_upsert(u, k, v) =~= u);
    }
}

/// JSON text of one message: the fixed field names `code`, `message` and
/// `details`, the optional fields omitted entirely when absent.
pub open spec fn spec_render_message(m: MessageModel) -> Seq<char> {
    "{\"code\":"@ + spec_quoted(m.code) + (match m.content {
        Some(c) => ",\"message\":"@ + spec_quoted(c),
        None => Seq::empty(),
    }) + (match m.details {
        Some(d) => ",\"details\":"@ + spec_render_details(d),
        None => Seq::empty(),
    }) + "}"@
}

/// Appends the JSON text of one message.
pub fn push_message(out: &mut Vec<char>, m: &Message)
    ensures
        final(out)@ == old(out)@ + spec_render_message(m@),
{
    push_str(out, "{\"code\":");
    push_quoted(out, m.code.as_str());
    match &m.content {
        Some(c) => {
            push_str(out, ",\"message\":");
            push_quoted(out, c.as_str());
        },
        None => {},
    }
    match &m.details {
        Some(d) => {
            push_str(out, ",\"details\":");
            push_details(out, d);
        },
        None => {},
    }
    push_str(out, "}");
    proof {
        assert(out@ =~= old(out)@ + spec_render_message(m@));
    }
}

} // verus!
