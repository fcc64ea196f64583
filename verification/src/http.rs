//! Requests to the service and the replies that come back, as plain values.
//!
//! The library decides what is sent and what a reply means; sending is left
//! to the caller.

use vstd::prelude::*;
use vstd::string::StringExecFns;

verus! {

/// The address that every path of the API is appended to.
pub const API_BASE: &'static str = "https://discord.com/api/v10";

/// The header that carries the credential.
pub const AUTHORIZATION: &'static str = "Authorization";

/// The status that the service answers with when it has done what was asked
/// and has nothing to say.
pub const NO_CONTENT: u16 = 204;

/// The HTTP methods that the tool uses.
#[derive(Clone, Copy, Debug, PartialEq, Eq, Structural)]
pub enum Method {
    Get,
    Delete,
}

/// One request: the method, the full address and the value of the
/// [`AUTHORIZATION`] header.
#[derive(Debug, PartialEq, Eq)]
pub struct Request {
    pub method: Method,
    pub url: String,
    pub authorization: String,
}

/// What a [`Request`] is in contracts.
pub struct RequestView {
    pub method: Method,
    pub url: Seq<char>,
    pub authorization: Seq<char>,
}

impl View for Request {
    type V = RequestView;

    open spec fn view(&self) -> RequestView {
        RequestView { method: self.method, url: self.url@, authorization: self.authorization@ }
    }
}

/// The request that the tool sends for `path`: every request goes to
/// [`API_BASE`] followed by the path and carries the credential, unchanged,
/// as its authorization.
pub open spec fn request_to(method: Method, path: Seq<char>, credential: Seq<char>) -> RequestView {
    RequestView { method, url: API_BASE@ + path, authorization: credential }
}

impl Request {
    /// Builds the request for `path` on behalf of `credential`.
    pub fn new(method: Method, path: &str, credential: &str) -> (request: Request)
        ensures
            request@ == request_to(method, path@, credential@),
    {
        let mut url = String::from_str(API_BASE);
        url.append(path);
        Request { method, url, authorization: String::from_str(credential) }
    }
}

impl Clone for Request {
    fn clone(&self) -> (copy: Request)
        ensures
            copy@ == self@,
    {
        Request {
            method: self.method,
            url: self.url.clone(),
            authorization: self.authorization.clone(),
        }
    }
}

/// What came of a request.
#[derive(Debug, PartialEq, Eq)]
pub enum Reply {
    /// The service answered with this status and body.
    Answered { status: u16, body: Vec<u8> },
    /// No answer arrived: the connection could not be made or broke.
    Failed,
}

/// What a [`Reply`] is in contracts.
pub enum ReplyView {
    Answered { status: u16, body: Seq<u8> },
    Failed,
}

impl View for Reply {
    type V = ReplyView;

    open spec fn view(&self) -> ReplyView {
        match self {
            Reply::Answered { status, body } => ReplyView::Answered { status: *status, body: body@ },
            Reply::Failed => ReplyView::Failed,
        }
    }
}

/// Whether a status is one of the success statuses, 200 to 299.
pub open spec fn is_success(status: u16) -> bool {
    200 <= status <= 299
}

impl ReplyView {
    /// Whether the service answered with a success status.
    pub open spec fn succeeded(self) -> bool {
        self matches ReplyView::Answered { status, .. } && is_success(status)
    }

    /// Whether the service answered with exactly `status`.
    pub open spec fn has_status(self, status: u16) -> bool {
        self matches ReplyView::Answered { status: s, .. } && s == status
    }

    /// The body of the answer, empty where there was no answer.
    pub open spec fn body(self) -> Seq<u8> {
        match self {
            ReplyView::Answered { body, .. } => body,
            ReplyView::Failed => Seq::empty(),
        }
    }
}

impl Reply {
    /// Whether the service answered with a success status.
    pub fn succeeded(&self) -> (yes: bool)
        ensures
            yes == self@.succeeded(),
    {
        match self {
            Reply::Answered { status, .. } => 200 <= *status && *status <= 299,
            Reply::Failed => false,
        }
    }

    /// Whether the service answered with exactly `status`.
    pub fn has_status(&self, status: u16) -> (yes: bool)
        ensures
            yes == self@.has_status(status),
    {
        match self {
            Reply::Answered { status: s, .. } => *s == status,
            Reply::Failed => false,
        }
    }
}

} // verus!
