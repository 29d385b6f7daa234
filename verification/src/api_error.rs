//! Failures of single requests to the code-hosting service.

use crate::chars::{chars_of, push_str, string_of};
use crate::http::{push_status, status_text};
use vstd::prelude::*;

verus! {

/// What can go wrong with a request.
#[derive(Debug, Clone, Copy, PartialEq, Eq, Structural)]
pub enum ApiErrorKind {
    /// The token is empty.
    MissingToken,
    /// The service did not accept the token.
    InvalidToken,
    /// The request could not be sent or answered.
    Transport,
    /// The answer could not be read.
    Parse,
    /// The service refused to start the device flow.
    DeviceRejected,
    /// The service refused the search.
    SearchFailed,
    /// The address of the search could not be built.
    UrlParse,
    /// The address names no repository of the service.
    NotGitHubUrl,
}

/// Why a request failed: the kind of failure, the status code of the answer
/// where the kind has one, and a detail.
#[derive(Debug, Clone)]
pub struct ApiError {
    pub kind: ApiErrorKind,
    pub status: u16,
    pub detail: String,
}

/// The texts of an [`ApiError`].
pub struct ApiErrorView {
    pub kind: ApiErrorKind,
    pub status: u16,
    pub detail: Seq<char>,
}

impl View for ApiError {
    type V = ApiErrorView;

    open spec fn view(&self) -> ApiErrorView {
        ApiErrorView { kind: self.kind, status: self.status, detail: self.detail@ }
    }
}

/// The message of an error.
pub open spec fn api_message(e: ApiErrorView) -> Seq<char> {
    match e.kind {
        ApiErrorKind::MissingToken => "Missing token"@,
        ApiErrorKind::InvalidToken => "Invalid token (HTTP "@ + status_text(e.status) + ")"@,
        ApiErrorKind::Transport => "Request failed: "@ + e.detail,
        ApiErrorKind::Parse => "Parse error: "@ + e.detail,
        ApiErrorKind::DeviceRejected => "GitHub returned "@ + status_text(e.status) + " : "@
            + e.detail,
        ApiErrorKind::SearchFailed => "GitHub search failed (HTTP "@ + status_text(e.status)
            + "): "@ + e.detail,
        ApiErrorKind::UrlParse => "URL parse failed: "@ + e.detail,
        ApiErrorKind::NotGitHubUrl => "Not a GitHub URL"@,
    }
}

impl ApiError {
    /// An error of a kind that needs neither status nor detail.
    pub fn plain(kind: ApiErrorKind) -> (r: ApiError)
        ensures
            r@ == (ApiErrorView { kind, status: 0, detail: Seq::empty() }),
    {
        ApiError { kind, status: 0, detail: String::new() }
    }

    /// The error for a request that could not be sent or answered.
    pub fn transport(detail: &str) -> (r: ApiError)
        ensures
            r@ == (ApiErrorView { kind: ApiErrorKind::Transport, status: 0, detail: detail@ }),
    {
        ApiError { kind: ApiErrorKind::Transport, status: 0, detail: detail.to_owned() }
    }

    /// The error for an answer that could not be read.
    pub fn parse(detail: &str) -> (r: ApiError)
        ensures
            r@ == (ApiErrorView { kind: ApiErrorKind::Parse, status: 0, detail: detail@ }),
    {
        ApiError { kind: ApiErrorKind::Parse, status: 0, detail: detail.to_owned() }
    }

    /// The error for an answer with a status that does not report success.
    pub fn rejected(kind: ApiErrorKind, status: u16, body: &str) -> (r: ApiError)
        ensures
            r@ == (ApiErrorView { kind, status, detail: body@ }),
    {
        ApiError { kind, status, detail: body.to_owned() }
    }

    /// The message of the error.
    pub fn message(&self) -> (r: String)
        ensures
            r@ == api_message(self@),
    {
        let mut out: Vec<char>;
        match self.kind {
            ApiErrorKind::MissingToken => {
                out = chars_of("Missing token");
            },
            ApiErrorKind::InvalidToken => {
                out = chars_of("Invalid token (HTTP ");
                push_status(&mut out, self.status);
                push_str(&mut out, ")");
            },
            ApiErrorKind::Transport => {
                out = chars_of("Request failed: ");
                push_str(&mut out, self.detail.as_str());
            },
            ApiErrorKind::Parse => {
                out = chars_of("Parse error: ");
                push_str(&mut out, self.detail.as_str());
            },
            ApiErrorKind::DeviceRejected => {
                out = chars_of("GitHub returned ");
                push_status(&mut out, self.status);
                push_str(&mut out, " : ");
                push_str(&mut out, self.detail.as_str());
            },
            ApiErrorKind::SearchFailed => {
                out = chars_of("GitHub search failed (HTTP ");
                push_status(&mut out, self.status);
                push_str(&mut out, "): ");
                push_str(&mut out, self.detail.as_str());
            },
            ApiErrorKind::UrlParse => {
                out = chars_of("URL parse failed: ");
                push_str(&mut out, self.detail.as_str());
            },
            ApiErrorKind::NotGitHubUrl => {
                out = chars_of("Not a GitHub URL");
            },
        }
        string_of(&out)
    }
}

} // verus!
