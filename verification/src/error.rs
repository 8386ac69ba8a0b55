//! Error taxonomy of the client and HTTP status classification.

use vstd::prelude::*;

verus! {

/// An error the client can surface: a configuration problem at construction,
/// an invalid HTTP verb, a transport failure reported by the embedding
/// program, or a non-success HTTP status with the response body.
#[derive(Debug)]
pub enum ApiError {
    /// Construction failed: a header value could not be encoded.
    Config { detail: String },
    /// The verb handed to the generic request operation is not a known
    /// HTTP method.
    InvalidMethod { method: String },
    /// The transport failed before a status was available (DNS, TLS,
    /// timeout); the detail is the transport's own message.
    Transport { detail: String },
    /// The server answered with a non-success status.
    Status { code: u16, body: String },
}

/// The coarse classification of an [`ApiError`].
#[derive(PartialEq, Eq, Structural, Clone, Copy, Debug)]
pub enum ErrorKind {
    /// A construction-time configuration problem.
    Configuration,
    /// An unrecognized HTTP verb.
    Method,
    /// A network-level failure with no HTTP status.
    Network,
    /// A 4xx response.
    Client,
    /// A 5xx response.
    Server,
    /// Any other non-success status (for example a 3xx the transport did
    /// not follow).
    Http,
}

impl ApiError {
    /// The kind of this error as a mathematical value.
    pub open spec fn spec_kind(&self) -> ErrorKind {
        match *self {
            ApiError::Config { .. } => ErrorKind::Configuration,
            ApiError::InvalidMethod { .. } => ErrorKind::Method,
            ApiError::Transport { .. } => ErrorKind::Network,
            ApiError::Status { code, .. } => if 400 <= code < 500 {
                ErrorKind::Client
            } else if 500 <= code < 600 {
                ErrorKind::Server
            } else {
                ErrorKind::Http
            },
        }
    }

    /// Classifies the error: configuration, method, network, client error,
    /// server error, or other HTTP status.
    pub fn kind(&self) -> (k: ErrorKind)
        ensures
            k == self.spec_kind(),
    {
        match self {
            ApiError::Config { .. } => ErrorKind::Configuration,
            ApiError::InvalidMethod { .. } => ErrorKind::Method,
            ApiError::Transport { .. } => ErrorKind::Network,
            ApiError::Status { code, .. } => {
                if 400 <= *code && *code < 500 {
                    ErrorKind::Client
                } else if 500 <= *code && *code < 600 {
                    ErrorKind::Server
                } else {
                    ErrorKind::Http
                }
            },
        }
    }
}

/// Whether a status code counts as success.
pub open spec fn spec_is_success(status: u16) -> bool {
    200 <= status < 300
}

/// Classifies a response: a success status passes the body through, any
/// other status becomes a [`ApiError::Status`] carrying the code and body.
pub fn classify_response(status: u16, body: String) -> (r: Result<String, ApiError>)
    ensures
        spec_is_success(status) ==> (r matches Ok(b) && b@ == body@),
        !spec_is_success(status) ==> (r matches Err(e) && e matches ApiError::Status {
            code,
            body: b,
        } && code == status && b@ == body@),
{
    if 200 <= status && status < 300 {
        Ok(body)
    } else {
        Err(ApiError::Status { code: status, body })
    }
}

} // verus!
