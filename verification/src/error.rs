//! The failures a query can end in.

use vstd::prelude::*;

verus! {

/// What the transport reported when an HTTP exchange failed before a
/// response could be read.
#[derive(Debug, Clone)]
pub struct HttpFailure {
    /// The exchange ran into its time limit.
    pub timeout: bool,
    /// The connection could not be established.
    pub connect: bool,
    /// The request itself could not be sent.
    pub request: bool,
    /// The transport's own description of the failure.
    pub message: String,
}

/// The mathematical value of an [`HttpFailure`].
pub struct HttpFailureView {
    pub timeout: bool,
    pub connect: bool,
    pub request: bool,
    pub message: Seq<char>,
}

impl View for HttpFailure {
    type V = HttpFailureView;

    open spec fn view(&self) -> HttpFailureView {
        HttpFailureView {
            timeout: self.timeout,
            connect: self.connect,
            request: self.request,
            message: self.message@,
        }
    }
}

impl HttpFailureView {
    /// A failure of the network rather than of what was exchanged.
    pub open spec fn transient(self) -> bool {
        self.timeout || self.connect || self.request
    }
}

/// Everything that can go wrong between a search and its records.
#[derive(Debug, Clone)]
pub enum ShikicrateError {
    /// The HTTP exchange failed before a response was read.
    Http(HttpFailure),
    /// The service answered through its own error channel.
    GraphQL {
        /// The messages of the error channel, drawn into one.
        message: String,
        /// The error channel as the service sent it.
        errors: Option<serde_json::Value>,
    },
    /// The response body could not be read as what was expected.
    Serialization(String),
    /// The service answered with a status outside the success range.
    Api {
        /// The HTTP status.
        status: u16,
        /// The body of the response.
        message: String,
    },
    /// The service asked the client to slow down.
    RateLimit {
        /// The body of the response.
        message: String,
        /// The number of seconds the service asked the client to wait.
        retry_after: Option<u64>,
    },
    /// A search parameter broke one of the rules for it.
    Validation(String),
}

/// The mathematical value of a [`ShikicrateError`].
pub enum ErrorView {
    Http(HttpFailureView),
    GraphQL { message: Seq<char>, errors: Option<serde_json::Value> },
    Serialization(Seq<char>),
    Api { status: u16, message: Seq<char> },
    RateLimit { message: Seq<char>, retry_after: Option<u64> },
    Validation(Seq<char>),
}

/// The six kinds of failure, without their payloads.
#[derive(Debug, Clone, Copy, PartialEq, Eq, Structural)]
pub enum ErrorKind {
    /// The network failed.
    Transport,
    /// The service throttled the client.
    RateLimited,
    /// The service answered with a failure status.
    ServerRejected,
    /// The service reported errors of its own.
    Protocol,
    /// The response could not be decoded.
    Decode,
    /// The caller's parameters were refused.
    Validation,
}

impl View for ShikicrateError {
    type V = ErrorView;

    open spec fn view(&self) -> ErrorView {
        match *self {
            ShikicrateError::Http(failure) => ErrorView::Http(failure@),
            ShikicrateError::GraphQL { message, errors } => ErrorView::GraphQL {
                message: message@,
                errors,
            },
            ShikicrateError::Serialization(message) => ErrorView::Serialization(message@),
            ShikicrateError::Api { status, message } => ErrorView::Api {
                status,
                message: message@,
            },
            ShikicrateError::RateLimit { message, retry_after } => ErrorView::RateLimit {
                message: message@,
                retry_after,
            },
            ShikicrateError::Validation(message) => ErrorView::Validation(message@),
        }
    }
}

impl ErrorView {
    /// The kind of this failure.
    pub open spec fn kind(self) -> ErrorKind {
        match self {
            ErrorView::Http(_) => ErrorKind::Transport,
            ErrorView::GraphQL { .. } => ErrorKind::Protocol,
            ErrorView::Serialization(_) => ErrorKind::Decode,
            ErrorView::Api { .. } => ErrorKind::ServerRejected,
            ErrorView::RateLimit { .. } => ErrorKind::RateLimited,
            ErrorView::Validation(_) => ErrorKind::Validation,
        }
    }

    /// Whether an attempt that failed like this may be made again: a
    /// transient failure of the network, or throttling by the service.
    pub open spec fn retryable(self) -> bool {
        match self {
            ErrorView::Http(failure) => failure.transient(),
            ErrorView::RateLimit { .. } => true,
            _ => false,
        }
    }

    /// The delay, in seconds, that the service asked for, if it asked.
    pub open spec fn suggested_delay(self) -> Option<u64> {
        match self {
            ErrorView::RateLimit { retry_after, .. } => retry_after,
            _ => None,
        }
    }

    /// The diagnostic text that the failure carries.
    pub open spec fn message(self) -> Seq<char> {
        match self {
            ErrorView::Http(failure) => failure.message,
            ErrorView::GraphQL { message, .. } => message,
            ErrorView::Serialization(message) => message,
            ErrorView::Api { message, .. } => message,
            ErrorView::RateLimit { message, .. } => message,
            ErrorView::Validation(message) => message,
        }
    }
}

impl ShikicrateError {
    /// The kind of this failure.
    pub fn kind(&self) -> (kind: ErrorKind)
        ensures
            kind == self@.kind(),
    {
        match self {
            ShikicrateError::Http(_) => ErrorKind::Transport,
            ShikicrateError::GraphQL { .. } => ErrorKind::Protocol,
            ShikicrateError::Serialization(_) => ErrorKind::Decode,
            ShikicrateError::Api { .. } => ErrorKind::ServerRejected,
            ShikicrateError::RateLimit { .. } => ErrorKind::RateLimited,
            ShikicrateError::Validation(_) => ErrorKind::Validation,
        }
    }

    /// Whether an attempt that failed like this may be made again.
    pub fn is_retryable(&self) -> (retryable: bool)
        ensures
            retryable == self@.retryable(),
    {
        match self {
            ShikicrateError::Http(failure) => failure.timeout || failure.connect || failure.request,
            ShikicrateError::RateLimit { .. } => true,
            _ => false,
        }
    }

    /// The delay, in seconds, that the service asked for, if it asked.
    pub fn suggested_delay(&self) -> (delay: Option<u64>)
        ensures
            delay == self@.suggested_delay(),
    {
        match self {
            ShikicrateError::RateLimit { retry_after, .. } => *retry_after,
            _ => None,
        }
    }

    /// The diagnostic text that the failure carries.
    pub fn message(&self) -> (text: &str)
        ensures
            text@ == self@.message(),
    {
        match self {
            ShikicrateError::Http(failure) => failure.message.as_str(),
            ShikicrateError::GraphQL { message, .. } => message.as_str(),
            ShikicrateError::Serialization(message) => message.as_str(),
            ShikicrateError::Api { message, .. } => message.as_str(),
            ShikicrateError::RateLimit { message, .. } => message.as_str(),
            ShikicrateError::Validation(message) => message.as_str(),
        }
    }
}

/// Whether a verdict is the one that a refusal, or its absence, calls for:
/// acceptance where nothing is refused, and otherwise a parameter failure
/// that carries the reason.
pub open spec fn verdict_matches(
    verdict: Result<(), ShikicrateError>,
    refusal: Option<Seq<char>>,
) -> bool {
    match verdict {
        Ok(_) => refusal is None,
        Err(error) => refusal is Some && error@ == ErrorView::Validation(refusal->0),
    }
}

/// A failure that is no transient failure of the network and no throttling
/// is never tried again: neither the caller's mistakes, nor what the service
/// said in its error channel, nor a body that could not be decoded, nor a
/// failure status.
pub proof fn law_only_transport_and_throttling_retry(error: ErrorView)
    ensures
        error.retryable() ==> error.kind() == ErrorKind::Transport || error.kind()
            == ErrorKind::RateLimited,
        error.kind() == ErrorKind::RateLimited ==> error.retryable(),
        error.kind() == ErrorKind::Validation ==> !error.retryable(),
        error.kind() == ErrorKind::Decode ==> !error.retryable(),
        error.kind() == ErrorKind::Protocol ==> !error.retryable(),
        error.kind() == ErrorKind::ServerRejected ==> !error.retryable(),
{
}

} // verus!
