//! Failure kinds of one request and their rendering as an HTTP response.

use vstd::prelude::*;
use crate::response::{Response, ResponseView};

verus! {

/// Everything that can end a request early.
///
/// Each variant carries the detail text that is shown to the caller.
#[derive(Debug, PartialEq, Eq)]
pub enum AppError {
    /// The upstream could not be reached, or answered with a status outside
    /// the success range.
    FetchError(String),
    /// The fetched body is not a feed.
    ParseError(String),
    /// The filtered feed could not be written back out.
    BuildError(String),
    /// The credential is missing or wrong.
    AuthError(String),
}

/// Mathematical value of an [`AppError`].
pub enum Failure {
    Fetch(Seq<char>),
    Parse(Seq<char>),
    Build(Seq<char>),
    Auth(Seq<char>),
}

impl View for AppError {
    type V = Failure;

    open spec fn view(&self) -> Failure {
        match self {
            AppError::FetchError(detail) => Failure::Fetch(detail@),
            AppError::ParseError(detail) => Failure::Parse(detail@),
            AppError::BuildError(detail) => Failure::Build(detail@),
            AppError::AuthError(detail) => Failure::Auth(detail@),
        }
    }
}

impl Failure {
    /// Detail text carried by the failure.
    pub open spec fn detail(self) -> Seq<char> {
        match self {
            Failure::Fetch(detail) => detail,
            Failure::Parse(detail) => detail,
            Failure::Build(detail) => detail,
            Failure::Auth(detail) => detail,
        }
    }

    /// HTTP status the failure is reported with.
    pub open spec fn status(self) -> u16 {
        match self {
            Failure::Fetch(_) => 400,
            Failure::Parse(_) => 422,
            Failure::Build(_) => 500,
            Failure::Auth(_) => 401,
        }
    }

    /// Label that opens the message shown to the caller.
    ///
    /// Parse and build failures are labelled as fetch failures too. The
    /// label is misleading for them, but clients match on the text, so it
    /// stays as it is.
    pub open spec fn label(self) -> Seq<char> {
        match self {
            Failure::Auth(_) => "Authorization Error: "@,
            _ => "Fetch Error: "@,
        }
    }

    /// Message shown to the caller: the label followed by the detail.
    pub open spec fn message(self) -> Seq<char> {
        self.label() + self.detail()
    }

    /// The response the failure is reported with.
    pub open spec fn response(self) -> ResponseView {
        ResponseView::text(self.status(), self.message())
    }
}

/// Mathematical value of an outcome that may be a failure.
pub open spec fn outcome_view<T: View>(outcome: Result<T, AppError>) -> Result<T::V, Failure> {
    match outcome {
        Ok(value) => Ok(value@),
        Err(error) => Err(error@),
    }
}

impl AppError {
    /// Detail text carried by the failure.
    pub fn detail(&self) -> (text: &str)
        ensures
            text@ == self@.detail(),
    {
        match self {
            AppError::FetchError(detail) => detail.as_str(),
            AppError::ParseError(detail) => detail.as_str(),
            AppError::BuildError(detail) => detail.as_str(),
            AppError::AuthError(detail) => detail.as_str(),
        }
    }

    /// HTTP status the failure is reported with.
    pub fn status(&self) -> (code: u16)
        ensures
            code == self@.status(),
    {
        match self {
            AppError::FetchError(_) => 400,
            AppError::ParseError(_) => 422,
            AppError::BuildError(_) => 500,
            AppError::AuthError(_) => 401,
        }
    }

    /// Message shown to the caller.
    pub fn message(&self) -> (text: String)
        ensures
            text@ == self@.message(),
    {
        let label = match self {
            AppError::AuthError(_) => "Authorization Error: ",
            _ => "Fetch Error: ",
        };
        String::from_str(label).concat(self.detail())
    }

    /// Renders the failure as the response that reports it.
    pub fn into_response(self) -> (response: Response)
        ensures
            response@ == self@.response(),
    {
        let status = self.status();
        let message = self.message();
        Response::text(status, message)
    }
}

} // verus!
