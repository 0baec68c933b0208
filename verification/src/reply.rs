//! What a handler answers: a status, the two headers that the site sets, and
//! a body.

use vstd::prelude::*;

use crate::http::{HTML, MOVED_PERMANENTLY, OK};
use crate::text::{field_value, text_of};

verus! {

/// A reply before it is put on the wire.
#[derive(Clone, Debug, PartialEq, Eq)]
pub struct Reply {
    pub status: u16,
    pub content_type: Option<String>,
    pub location: Option<String>,
    pub body: String,
}

/// A reply as contracts speak of it.
pub struct ReplyView {
    pub status: u16,
    pub content_type: Option<Seq<char>>,
    pub location: Option<Seq<char>>,
    pub body: Seq<char>,
}

impl View for Reply {
    type V = ReplyView;

    open spec fn view(&self) -> ReplyView {
        ReplyView {
            status: self.status,
            content_type: text_of(self.content_type),
            location: text_of(self.location),
            body: self.body@,
        }
    }
}

impl ReplyView {
    /// A page: status 200, the HTML content type, and the page as its body.
    pub open spec fn page(body: Seq<char>) -> ReplyView {
        ReplyView { status: OK, content_type: Some(HTML@), location: None, body }
    }

    /// A permanent redirect: status 301, the target as `Location`, no body.
    pub open spec fn moved(location: Seq<char>) -> ReplyView {
        ReplyView {
            status: MOVED_PERMANENTLY,
            content_type: None,
            location: Some(location),
            body: Seq::empty(),
        }
    }

    /// A reply that is a status and nothing more.
    pub open spec fn bare(status: u16) -> ReplyView {
        ReplyView { status, content_type: None, location: None, body: Seq::empty() }
    }

    /// The same reply with an empty body, as a `HEAD` request gets it.
    pub open spec fn without_body(self) -> ReplyView {
        ReplyView { body: Seq::empty(), ..self }
    }

    /// A reply that can be written out as it stands: its status has three
    /// digits and its headers hold nothing but tabs and printable ASCII.
    pub open spec fn presentable(self) -> bool {
        &&& 100 <= self.status <= 999
        &&& self.content_type matches Some(t) ==> field_value(t)
        &&& self.location matches Some(l) ==> field_value(l)
    }
}

impl Reply {
    /// An HTML page with `body` as its text.
    pub fn page(body: String) -> (reply: Reply)
        ensures
            reply@ == ReplyView::page(body@),
    {
        Reply { status: OK, content_type: Some(HTML.to_owned()), location: None, body }
    }

    /// A permanent redirect to `location`.
    pub fn moved(location: String) -> (reply: Reply)
        ensures
            reply@ == ReplyView::moved(location@),
    {
        Reply {
            status: MOVED_PERMANENTLY,
            content_type: None,
            location: Some(location),
            body: String::new(),
        }
    }

    /// A reply of `status` without headers or body.
    pub fn bare(status: u16) -> (reply: Reply)
        ensures
            reply@ == ReplyView::bare(status),
    {
        Reply { status, content_type: None, location: None, body: String::new() }
    }
}

/// A page can be written out as it stands.
pub proof fn page_is_presentable(body: Seq<char>)
    ensures
        ReplyView::page(body).presentable(),
{
    reveal_strlit("text/html; charset=utf-8");
}

} // verus!
