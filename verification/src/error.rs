//! Error values: of requests to the upstream API, and of the startup.

use vstd::prelude::*;
use crate::text::{push_decimal, push_text};

verus! {

/// Why a request to the upstream API did not yield a value.
#[derive(Debug, PartialEq, Eq)]
pub enum RequestError {
    /// A response with a status that is neither a success nor retried.
    Http(u16),
    /// The retry budget ran out.
    Timeout,
    /// A transport failure that is not retried, with its description.
    Unexpected(String),
    /// The payload did not have the expected shape, with the parser's words.
    Deserialize(String),
    /// The response was well formed but lacked the entity: its kind and the query.
    NotFound(String, String),
}

/// Mathematical value of a [`RequestError`].
pub enum RequestErrorView {
    Http(u16),
    Timeout,
    Unexpected(Seq<char>),
    Deserialize(Seq<char>),
    NotFound(Seq<char>, Seq<char>),
}

impl View for RequestError {
    type V = RequestErrorView;

    open spec fn view(&self) -> RequestErrorView {
        match self {
            RequestError::Http(code) => RequestErrorView::Http(*code),
            RequestError::Timeout => RequestErrorView::Timeout,
            RequestError::Unexpected(e) => RequestErrorView::Unexpected(e@),
            RequestError::Deserialize(e) => RequestErrorView::Deserialize(e@),
            RequestError::NotFound(kind, query) => RequestErrorView::NotFound(kind@, query@),
        }
    }
}

/// Whether a lookup that failed with `e` is replaced by a default value
/// instead of failing the event: the entity is absent, or its payload is malformed.
pub open spec fn is_data_gap(e: RequestErrorView) -> bool {
    e is NotFound || e is Deserialize
}

/// The text that describes `e`.
pub open spec fn request_error_text(e: RequestErrorView) -> Seq<char> {
    match e {
        RequestErrorView::Http(code) => "HTTP "@ + crate::text::decimal(code as nat),
        RequestErrorView::Timeout => "Timeout error"@,
        RequestErrorView::Unexpected(d) => "Unexpected error: "@ + d,
        RequestErrorView::Deserialize(d) => "Deserialize error: "@ + d,
        RequestErrorView::NotFound(kind, query) => kind + " not found for query "@ + query,
    }
}

impl RequestError {
    /// Whether this error stands for an expected gap in upstream data.
    pub fn is_data_gap(&self) -> (out: bool)
        ensures
            out == is_data_gap(self@),
    {
        match self {
            RequestError::NotFound(_, _) => true,
            RequestError::Deserialize(_) => true,
            _ => false,
        }
    }

    /// Classifies a status that is neither a success nor retried.
    pub fn from_status(code: u16) -> (out: RequestError)
        ensures
            out@ == RequestErrorView::Http(code),
    {
        RequestError::Http(code)
    }

    /// A copy of this error.
    pub fn duplicate(&self) -> (out: RequestError)
        ensures
            out@ == self@,
    {
        match self {
            RequestError::Http(code) => RequestError::Http(*code),
            RequestError::Timeout => RequestError::Timeout,
            RequestError::Unexpected(e) => RequestError::Unexpected(e.clone()),
            RequestError::Deserialize(e) => RequestError::Deserialize(e.clone()),
            RequestError::NotFound(kind, query) => RequestError::NotFound(
                kind.clone(),
                query.clone(),
            ),
        }
    }

    /// Human-readable description.
    pub fn message(&self) -> (out: String)
        ensures
            out@ == request_error_text(self@),
    {
        let mut out = String::new();
        match self {
            RequestError::Http(code) => {
                push_text(&mut out, "HTTP ");
                push_decimal(&mut out, *code as u64);
            },
            RequestError::Timeout => {
                push_text(&mut out, "Timeout error");
            },
            RequestError::Unexpected(e) => {
                push_text(&mut out, "Unexpected error: ");
                push_text(&mut out, e.as_str());
            },
            RequestError::Deserialize(e) => {
                push_text(&mut out, "Deserialize error: ");
                push_text(&mut out, e.as_str());
            },
            RequestError::NotFound(kind, query) => {
                push_text(&mut out, kind.as_str());
                push_text(&mut out, " not found for query ");
                push_text(&mut out, query.as_str());
            },
        }
        assert(out@ =~= request_error_text(self@));
        out
    }
}

/// An entity that the upstream API did not return.
#[derive(Debug)]
pub enum TwitchError {
    /// The kind of entity and the query that found none.
    NotFound(String, String),
}

impl TwitchError {
    /// Human-readable description.
    pub fn message(&self) -> (out: String)
        ensures
            match self {
                TwitchError::NotFound(kind, query) => out@ == kind@ + " not found for query "@
                    + query@,
            },
    {
        let mut out = String::new();
        match self {
            TwitchError::NotFound(kind, query) => {
                push_text(&mut out, kind.as_str());
                push_text(&mut out, " not found for query ");
                push_text(&mut out, query.as_str());
            },
        }
        out
    }
}

/// A response that carried an error status, with its body.
#[derive(Debug)]
pub struct HttpError {
    pub status: u16,
    pub body: String,
}

impl HttpError {
    pub fn new(status: u16, body: String) -> (out: Self)
        ensures
            out.status == status,
            out.body == body,
    {
        Self { status, body }
    }

    /// Human-readable description.
    pub fn message(&self) -> (out: String)
        ensures
            out@ == "HTTP error "@ + crate::text::decimal(self.status as nat) + ": "@
                + self.body@,
    {
        let mut out = String::new();
        push_text(&mut out, "HTTP error ");
        push_decimal(&mut out, self.status as u64);
        push_text(&mut out, ": ");
        push_text(&mut out, self.body.as_str());
        out
    }
}

/// The retry budget of a request ran out.
#[derive(Debug)]
pub struct RequestTimeoutError;

impl RequestTimeoutError {
    /// Human-readable description.
    pub fn message(&self) -> (out: String)
        ensures
            out@ == "Request timeout after 3 tries"@,
    {
        let mut out = String::new();
        push_text(&mut out, "Request timeout after 3 tries");
        assert(out@ =~= "Request timeout after 3 tries"@);
        out
    }
}

/// The credentials grant was refused.
#[derive(Debug)]
pub struct AuthorizationError;

impl AuthorizationError {
    /// Human-readable description.
    pub fn message(&self) -> (out: String)
        ensures
            out@ == "Authorization error"@,
    {
        let mut out = String::new();
        push_text(&mut out, "Authorization error");
        assert(out@ =~= "Authorization error"@);
        out
    }
}

/// Why the role integration could not be set up at startup.
#[derive(Clone, Copy, Debug, PartialEq, Eq, Structural)]
pub enum InitError {
    NoGuilds,
    TooManyGuilds,
}

impl InitError {
    /// Human-readable description.
    pub fn message(&self) -> (out: String)
        ensures
            out@ == match *self {
                InitError::NoGuilds => "No guilds found"@,
                InitError::TooManyGuilds => "Too many guilds found"@,
            },
    {
        let mut out = String::new();
        match self {
            InitError::NoGuilds => {
                push_text(&mut out, "No guilds found");
                assert(out@ =~= "No guilds found"@);
            },
            InitError::TooManyGuilds => {
                push_text(&mut out, "Too many guilds found");
                assert(out@ =~= "Too many guilds found"@);
            },
        }
        out
    }
}

} // verus!
