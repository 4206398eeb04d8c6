//! The HTTP-visible result of a request, as plain values.

use vstd::prelude::*;

verus! {

/// What is sent back to the caller.
#[derive(Debug, PartialEq, Eq)]
pub struct Response {
    /// HTTP status code.
    pub status: u16,
    /// Value of the `Content-Type` header, where the response names one;
    /// without it the body is plain text.
    pub content_type: Option<&'static str>,
    /// The body, in full.
    pub body: String,
}

/// Mathematical value of a [`Response`].
pub struct ResponseView {
    pub status: u16,
    pub content_type: Option<Seq<char>>,
    pub body: Seq<char>,
}

impl View for Response {
    type V = ResponseView;

    open spec fn view(&self) -> ResponseView {
        ResponseView {
            status: self.status,
            content_type: match self.content_type {
                Some(name) => Some(name@),
                None => None,
            },
            body: self.body@,
        }
    }
}

/// Content type of a rebuilt feed.
pub open spec fn feed_content_type() -> Seq<char> {
    "application/xml; charset=utf-8"@
}

impl ResponseView {
    /// A plain-text response.
    pub open spec fn text(status: u16, body: Seq<char>) -> ResponseView {
        ResponseView { status, content_type: None, body }
    }

    /// The response that carries a rebuilt feed.
    pub open spec fn feed(body: Seq<char>) -> ResponseView {
        ResponseView { status: 200, content_type: Some(feed_content_type()), body }
    }
}

impl Response {
    /// A plain-text response with the given status.
    pub fn text(status: u16, body: String) -> (response: Response)
        ensures
            response@ == ResponseView::text(status, body@),
    {
        Response { status, content_type: None, body }
    }

    /// The response that carries a rebuilt feed.
    pub fn feed(body: String) -> (response: Response)
        ensures
            response@ == ResponseView::feed(body@),
    {
        Response { status: 200, content_type: Some("application/xml; charset=utf-8"), body }
    }
}

} // verus!
