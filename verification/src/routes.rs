//! The two endpoints and the course of one request through them.
//!
//! A request is handled in two calls. [`dispatch`] looks at the request
//! and tells the host either to answer at once or to fetch the upstream
//! feed; [`complete`] takes what the fetch gave and produces the answer.
//! In between the host fetches, guided by [`crate::fetch::fetch_feed`].
//!
//! So a request to the filter endpoint passes through these stages, and
//! the first failure ends it: authorizing, fetching, parsing, filtering,
//! serializing, responding. Requests share nothing but the secret, which
//! is only read.

use vstd::prelude::*;
use axum::http::Uri;
use crate::auth::{auth, credential_in, invalid_credential, missing_credential, verdict};
use crate::errors::{outcome_view, AppError, Failure};
use crate::feed::{filter_channel, filtered, parse_feed, parsed, render_feed, rendered};
use crate::fetch::{is_success, next_step, status_text, FetchEventView, FetchStepView};
use crate::response::{Response, ResponseView};

verus! {

/// The text served at the root.
pub open spec fn usage() -> Seq<char> {
    "Web Server to filter out premium substack posts from RSS feed\n\nUsage: {url}/filter/{rss_feed_url}?API_KEY={API_KEY}"@
}

/// Handler of `GET /`: a static description of the service.
pub fn root() -> (text: &'static str)
    ensures
        text@ == usage(),
{
    "Web Server to filter out premium substack posts from RSS feed\n\nUsage: {url}/filter/{rss_feed_url}?API_KEY={API_KEY}"
}

/// What a fetched body is answered with: the feed it holds, rebuilt
/// without its premium items, or the failure that stops the rebuilding.
pub open spec fn served(content: Seq<char>) -> Result<ResponseView, Failure> {
    match parsed(content) {
        Ok(channel) => match rendered(filtered(channel)) {
            Ok(body) => Ok(ResponseView::feed(body)),
            Err(failure) => Err(failure),
        },
        Err(failure) => Err(failure),
    }
}

/// Handler of `GET /filter/{url}`, from the fetched body on: parses it,
/// drops the premium items and writes the document back out.
pub fn filter_feed(feed_content: &str) -> (outcome: Result<Response, AppError>)
    ensures
        outcome_view(outcome) == served(feed_content@),
{
    let mut channel = match parse_feed(feed_content) {
        Ok(channel) => channel,
        Err(error) => return Err(error),
    };
    filter_channel(&mut channel);
    match render_feed(&channel) {
        Ok(body) => Ok(Response::feed(body)),
        Err(error) => Err(error),
    }
}

/// Which endpoint a request addresses.
#[derive(Debug, PartialEq, Eq)]
pub enum Route {
    /// `GET /`.
    Root,
    /// `GET /filter/{url}`, with the upstream URL as the path gave it. The
    /// URL is handed to the fetch as it is: it is neither validated nor
    /// restricted here.
    Filter(String),
}

/// Mathematical value of a [`Route`].
pub enum RouteView {
    Root,
    Filter(Seq<char>),
}

impl View for Route {
    type V = RouteView;

    open spec fn view(&self) -> RouteView {
        match self {
            Route::Root => RouteView::Root,
            Route::Filter(url) => RouteView::Filter(url@),
        }
    }
}

/// What the host does next for a request.
#[derive(Debug, PartialEq, Eq)]
pub enum Action {
    /// Issue one GET to this URL and hand the outcome to [`complete`].
    Fetch(String),
    /// Send this response; the request is over.
    Respond(Response),
}

/// Mathematical value of an [`Action`].
pub enum ActionView {
    Fetch(Seq<char>),
    Respond(ResponseView),
}

impl View for Action {
    type V = ActionView;

    open spec fn view(&self) -> ActionView {
        match self {
            Action::Fetch(url) => ActionView::Fetch(url@),
            Action::Respond(response) => ActionView::Respond(response@),
        }
    }
}

/// What a request leads to before anything is fetched.
///
/// The root is open to everyone. The filter endpoint checks the credential
/// first and asks for the fetch only where the check passes.
pub open spec fn dispatched(
    api_key: Seq<char>,
    route: RouteView,
    presented: Option<Seq<char>>,
) -> ActionView {
    match route {
        RouteView::Root => ActionView::Respond(ResponseView::text(200, usage())),
        RouteView::Filter(url) => match verdict(api_key, presented) {
            Ok(_) => ActionView::Fetch(url),
            Err(failure) => ActionView::Respond(failure.response()),
        },
    }
}

/// First stage of a request: answers it at once or asks for the fetch.
///
/// `route` is the endpoint that the request addresses and `uri` its target,
/// whose query carries the credential.
pub fn dispatch(api_key: &str, route: Route, uri: &Uri) -> (action: Action)
    ensures
        action@ == dispatched(api_key@, route@, credential_in(*uri)),
{
    match route {
        Route::Root => Action::Respond(Response::text(200, String::from_str(root()))),
        Route::Filter(url) => match auth(api_key, uri) {
            Ok(_) => Action::Fetch(url),
            Err(error) => Action::Respond(error.into_response()),
        },
    }
}

/// The answer to a request whose fetch ended in `fetched`.
pub open spec fn completed(fetched: Result<Seq<char>, Failure>) -> ResponseView {
    match fetched {
        Ok(content) => match served(content) {
            Ok(response) => response,
            Err(failure) => failure.response(),
        },
        Err(failure) => failure.response(),
    }
}

/// Last stage of a request: turns the outcome of the fetch into the
/// response.
pub fn complete(fetched: Result<String, AppError>) -> (response: Response)
    ensures
        response@ == completed(outcome_view(fetched)),
{
    match fetched {
        Ok(content) => match filter_feed(content.as_str()) {
            Ok(response) => response,
            Err(error) => error.into_response(),
        },
        Err(error) => error.into_response(),
    }
}

/// The root answers every request alike, with status 200 and the usage
/// text: whatever credential the request carries, and also where it
/// carries none.
pub proof fn lemma_root_is_open(api_key: Seq<char>, presented: Option<Seq<char>>)
    ensures
        dispatched(api_key, RouteView::Root, presented) == ActionView::Respond(
            ResponseView::text(200, usage()),
        ),
{
}

/// A request to the filter endpoint that does not present the secret is
/// answered with status 401 and a message that tells a missing credential
/// from a wrong one. Nothing is fetched for it.
pub proof fn lemma_refused_before_fetch(
    api_key: Seq<char>,
    url: Seq<char>,
    presented: Option<Seq<char>>,
)
    requires
        presented != Some(api_key),
    ensures
        dispatched(api_key, RouteView::Filter(url), presented) == ActionView::Respond(
            ResponseView::text(
                401,
                if presented is None {
                    missing_credential().message()
                } else {
                    invalid_credential().message()
                },
            ),
        ),
        !(dispatched(api_key, RouteView::Filter(url), presented) is Fetch),
{
}

/// A request to the filter endpoint that presents the secret leads to one
/// fetch, of the URL it names.
pub proof fn lemma_admitted_is_fetched(api_key: Seq<char>, url: Seq<char>)
    ensures
        dispatched(api_key, RouteView::Filter(url), Some(api_key)) == ActionView::Fetch(url),
{
}

/// An upstream answer outside the success range ends the fetch, and the
/// request is answered with status 400 and a message that names the
/// upstream's status.
pub proof fn lemma_rejected_upstream_is_bad_request(code: u16)
    requires
        !is_success(code),
    ensures
        next_step(FetchEventView::Answered(code)) matches FetchStepView::Done(fetched)
            && completed(fetched) == ResponseView::text(
            400,
            "Fetch Error: "@ + ("HTTP "@ + status_text(code) + ": Failed to fetch feed"@),
        ),
{
}

/// A fetched body that is not a feed is answered with status 422.
pub proof fn lemma_unreadable_feed_is_unprocessable(content: Seq<char>)
    requires
        parsed(content) is Err,
    ensures
        completed(Ok(content)).status == 422,
        completed(Ok(content)).content_type is None,
{
}

/// A fetched feed that can be written back is served with status 200 and
/// the feed content type; the body is the feed without its premium items,
/// written out.
pub proof fn lemma_rebuilt_feed_is_served(content: Seq<char>)
    requires
        parsed(content) is Ok,
        rendered(filtered(parsed(content)->Ok_0)) is Ok,
    ensures
        completed(Ok(content)) == ResponseView::feed(
            rendered(filtered(parsed(content)->Ok_0))->Ok_0,
        ),
        completed(Ok(content)).status == 200,
        completed(Ok(content)).content_type == Some("application/xml; charset=utf-8"@),
{
}

} // verus!
