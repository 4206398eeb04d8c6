//! What to make of the upstream's answer to the one GET a request issues.
//!
//! The host owns the connection. It reports each thing it observes as a
//! [`FetchEvent`] and does what the returned [`FetchStep`] says. There is
//! one attempt per request: nothing is retried.

use vstd::prelude::*;
use reqwest::StatusCode;
use crate::errors::{outcome_view, AppError, Failure};

verus! {

/// Seconds the host gives the upstream to answer before it reports the
/// fetch as failed.
pub const FETCH_TIMEOUT_SECONDS: u64 = 30;

/// Text that `reqwest::StatusCode` displays for the status with this code:
/// the code and its reason phrase.
pub uninterp spec fn status_text(code: u16) -> Seq<char>;

/// `reqwest::StatusCode::from_u16` followed by the status's `Display`.
///
/// A status exists for the codes from 100 to 999 and for no others; its
/// text depends on the code alone.
#[verifier::external_body]
fn status_display(code: u16) -> (text: Option<String>)
    ensures
        text is Some <==> 100 <= code <= 999,
        text matches Some(shown) ==> shown@ == status_text(code),
{
    match StatusCode::from_u16(code) {
        Ok(status) => Some(status.to_string()),
        Err(_) => None,
    }
}

/// Status code of an upstream response: a number from 100 to 999.
#[derive(Debug, Clone, Copy, PartialEq, Eq)]
pub struct UpstreamStatus {
    code: u16,
}

impl View for UpstreamStatus {
    type V = u16;

    closed spec fn view(&self) -> u16 {
        self.code
    }
}

/// A status in the success range lets the body through.
pub open spec fn is_success(code: u16) -> bool {
    200 <= code <= 299
}

impl UpstreamStatus {
    #[verifier::type_invariant]
    spec fn in_range(self) -> bool {
        100 <= self.code <= 999
    }

    /// The status with the given code, where there is one.
    pub fn new(code: u16) -> (status: Option<UpstreamStatus>)
        ensures
            status is Some <==> 100 <= code <= 999,
            status matches Some(made) ==> made@ == code,
    {
        if 100 <= code && code <= 999 {
            Some(UpstreamStatus { code })
        } else {
            None
        }
    }

    /// The numeric code.
    pub fn code(&self) -> (code: u16)
        ensures
            code == self@,
            100 <= code <= 999,
    {
        proof {
            use_type_invariant(self);
        }
        self.code
    }

    /// Tells whether the status is in the success range.
    pub fn is_success(&self) -> (success: bool)
        ensures
            success == is_success(self@),
    {
        200 <= self.code && self.code <= 299
    }

    /// The status as it is shown to people: code and reason phrase.
    pub fn describe(&self) -> (shown: String)
        ensures
            shown@ == status_text(self@),
    {
        proof {
            use_type_invariant(self);
        }
        match status_display(self.code) {
            Some(shown) => shown,
            None => unreached(),
        }
    }
}

/// The failure that reports a response outside the success range, given
/// the text of its status.
pub open spec fn rejected(shown: Seq<char>) -> Failure {
    Failure::Fetch("HTTP "@ + shown + ": Failed to fetch feed"@)
}

/// Builds the failure that reports a response outside the success range.
pub fn upstream_rejected(shown: &str) -> (error: AppError)
    ensures
        error@ == rejected(shown@),
{
    let mut detail = String::from_str("HTTP ");
    detail.append(shown);
    detail.append(": Failed to fetch feed");
    AppError::FetchError(detail)
}

/// One thing the host observed while fetching.
#[derive(Debug, PartialEq, Eq)]
pub enum FetchEvent {
    /// The request could not be issued, no response came in time, or the
    /// body could not be read; the text says why.
    Failed(String),
    /// A response arrived with this status; its body has not been read.
    Answered(UpstreamStatus),
    /// The body was read to its end.
    Body(String),
}

/// Mathematical value of a [`FetchEvent`].
pub enum FetchEventView {
    Failed(Seq<char>),
    Answered(u16),
    Body(Seq<char>),
}

impl View for FetchEvent {
    type V = FetchEventView;

    open spec fn view(&self) -> FetchEventView {
        match self {
            FetchEvent::Failed(detail) => FetchEventView::Failed(detail@),
            FetchEvent::Answered(status) => FetchEventView::Answered(status@),
            FetchEvent::Body(text) => FetchEventView::Body(text@),
        }
    }
}

/// What the host does after reporting an event.
#[derive(Debug, PartialEq, Eq)]
pub enum FetchStep {
    /// Read the whole body and report it.
    ReadBody,
    /// The fetch is over: this is the body, or the failure.
    Done(Result<String, AppError>),
}

/// Mathematical value of a [`FetchStep`].
pub enum FetchStepView {
    ReadBody,
    Done(Result<Seq<char>, Failure>),
}

impl View for FetchStep {
    type V = FetchStepView;

    open spec fn view(&self) -> FetchStepView {
        match self {
            FetchStep::ReadBody => FetchStepView::ReadBody,
            FetchStep::Done(outcome) => FetchStepView::Done(outcome_view(*outcome)),
        }
    }
}

/// How a fetch goes on after an event.
///
/// A failure of the transport ends it with the failure's own text. A
/// response is judged by its status alone: in the success range the body is
/// asked for; otherwise the fetch ends with a failure that names the
/// status. A body ends the fetch with that body.
pub open spec fn next_step(event: FetchEventView) -> FetchStepView {
    match event {
        FetchEventView::Failed(detail) => FetchStepView::Done(Err(Failure::Fetch(detail))),
        FetchEventView::Answered(code) => if is_success(code) {
            FetchStepView::ReadBody
        } else {
            FetchStepView::Done(Err(rejected(status_text(code))))
        },
        FetchEventView::Body(text) => FetchStepView::Done(Ok(text)),
    }
}

/// Decides how the fetch goes on after `event`.
///
/// Events are judged one by one. The body of a response outside the
/// success range is never asked for.
pub fn fetch_feed(event: FetchEvent) -> (step: FetchStep)
    ensures
        step@ == next_step(event@),
{
    match event {
        FetchEvent::Failed(detail) => FetchStep::Done(Err(AppError::FetchError(detail))),
        FetchEvent::Answered(status) => {
            if status.is_success() {
                FetchStep::ReadBody
            } else {
                let shown = status.describe();
                FetchStep::Done(Err(upstream_rejected(shown.as_str())))
            }
        },
        FetchEvent::Body(text) => FetchStep::Done(Ok(text)),
    }
}

} // verus!
