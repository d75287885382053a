//! What the service reports when it fails, and how the management interface
//! presents it.

use crate::daemon::antares::ident::{hyphenated, mount_id_text};
use vstd::prelude::*;
use vstd::string::StringExecFns;

verus! {

/// Error response body for JSON output.
#[derive(Debug)]
pub struct ErrorBody {
    /// Human-readable error message
    pub error: String,
    /// Machine-readable error code
    pub code: String,
}

/// The mathematical value of an [`ErrorBody`].
pub struct ErrorBodyView {
    pub error: Seq<char>,
    pub code: Seq<char>,
}

impl View for ErrorBody {
    type V = ErrorBodyView;

    open spec fn view(&self) -> ErrorBodyView {
        ErrorBodyView { error: self.error@, code: self.code@ }
    }
}

impl Clone for ErrorBody {
    fn clone(&self) -> (r: Self)
        ensures
            r@ == self@,
    {
        ErrorBody { error: self.error.clone(), code: self.code.clone() }
    }
}

/// Service-level failures that surface through the API.
#[derive(Debug)]
pub enum ServiceError {
    InvalidRequest(String),
    NotFound(u128),
    FuseFailure(String),
    Internal(String),
}

/// The mathematical value of a [`ServiceError`].
pub enum ServiceErrorView {
    InvalidRequest(Seq<char>),
    NotFound(u128),
    FuseFailure(Seq<char>),
    Internal(Seq<char>),
}

impl View for ServiceError {
    type V = ServiceErrorView;

    open spec fn view(&self) -> ServiceErrorView {
        match self {
            ServiceError::InvalidRequest(m) => ServiceErrorView::InvalidRequest(m@),
            ServiceError::NotFound(id) => ServiceErrorView::NotFound(*id),
            ServiceError::FuseFailure(m) => ServiceErrorView::FuseFailure(m@),
            ServiceError::Internal(m) => ServiceErrorView::Internal(m@),
        }
    }
}

impl ServiceErrorView {
    /// The error as one line of text.
    pub open spec fn message(self) -> Seq<char> {
        match self {
            ServiceErrorView::InvalidRequest(m) => "invalid request: "@ + m,
            ServiceErrorView::NotFound(id) => "mount not found: "@ + hyphenated(id),
            ServiceErrorView::FuseFailure(m) => "failed to interact with fuse stack: "@ + m,
            ServiceErrorView::Internal(m) => "unexpected error: "@ + m,
        }
    }
}

impl Clone for ServiceError {
    fn clone(&self) -> (r: Self)
        ensures
            r@ == self@,
    {
        match self {
            ServiceError::InvalidRequest(m) => ServiceError::InvalidRequest(m.clone()),
            ServiceError::NotFound(id) => ServiceError::NotFound(*id),
            ServiceError::FuseFailure(m) => ServiceError::FuseFailure(m.clone()),
            ServiceError::Internal(m) => ServiceError::Internal(m.clone()),
        }
    }
}

impl ServiceError {
    /// The error as one line of text.
    pub fn message(&self) -> (text: String)
        ensures
            text@ == self@.message(),
    {
        match self {
            ServiceError::InvalidRequest(m) => String::from_str("invalid request: ").concat(
                m.as_str(),
            ),
            ServiceError::NotFound(id) => {
                let shown = mount_id_text(*id);
                String::from_str("mount not found: ").concat(shown.as_str())
            },
            ServiceError::FuseFailure(m) => String::from_str(
                "failed to interact with fuse stack: ",
            ).concat(m.as_str()),
            ServiceError::Internal(m) => String::from_str("unexpected error: ").concat(m.as_str()),
        }
    }
}

/// HTTP-facing errors mapped to responses.
#[derive(Debug)]
pub enum ApiError {
    Service(ServiceError),
    BadPayload(String),
    Shutdown,
}

/// The mathematical value of an [`ApiError`].
pub enum ApiErrorView {
    Service(ServiceErrorView),
    BadPayload(Seq<char>),
    Shutdown,
}

impl View for ApiError {
    type V = ApiErrorView;

    open spec fn view(&self) -> ApiErrorView {
        match self {
            ApiError::Service(e) => ApiErrorView::Service(e@),
            ApiError::BadPayload(m) => ApiErrorView::BadPayload(m@),
            ApiError::Shutdown => ApiErrorView::Shutdown,
        }
    }
}

impl ApiErrorView {
    /// The error as one line of text.
    pub open spec fn message(self) -> Seq<char> {
        match self {
            ApiErrorView::Service(e) => e.message(),
            ApiErrorView::BadPayload(m) => "serde payload rejected: "@ + m,
            ApiErrorView::Shutdown => "server shutting down"@,
        }
    }

    /// The HTTP status of the response.
    pub open spec fn status_code(self) -> u16 {
        match self {
            ApiErrorView::Service(ServiceErrorView::InvalidRequest(_)) => 400,
            ApiErrorView::Service(ServiceErrorView::NotFound(_)) => 404,
            ApiErrorView::Service(ServiceErrorView::FuseFailure(_)) => 500,
            ApiErrorView::Service(ServiceErrorView::Internal(_)) => 500,
            ApiErrorView::BadPayload(_) => 400,
            ApiErrorView::Shutdown => 503,
        }
    }

    /// The machine-readable code of the response body.
    pub open spec fn error_code(self) -> Seq<char> {
        match self {
            ApiErrorView::Service(ServiceErrorView::InvalidRequest(_)) => "INVALID_REQUEST"@,
            ApiErrorView::Service(ServiceErrorView::NotFound(_)) => "NOT_FOUND"@,
            ApiErrorView::Service(ServiceErrorView::FuseFailure(_)) => "FUSE_ERROR"@,
            ApiErrorView::Service(ServiceErrorView::Internal(_)) => "INTERNAL_ERROR"@,
            ApiErrorView::BadPayload(_) => "BAD_PAYLOAD"@,
            ApiErrorView::Shutdown => "SHUTDOWN"@,
        }
    }

    /// The human-readable message of the response body.
    pub open spec fn error_text(self) -> Seq<char> {
        match self {
            ApiErrorView::Service(ServiceErrorView::InvalidRequest(m)) => m,
            ApiErrorView::Service(ServiceErrorView::NotFound(id)) => "mount "@ + hyphenated(id)
                + " not found"@,
            ApiErrorView::Service(ServiceErrorView::FuseFailure(m)) => m,
            ApiErrorView::Service(ServiceErrorView::Internal(m)) => m,
            ApiErrorView::BadPayload(m) => m,
            ApiErrorView::Shutdown => "server is shutting down"@,
        }
    }

    /// The response body.
    pub open spec fn body(self) -> ErrorBodyView {
        ErrorBodyView { error: self.error_text(), code: self.error_code() }
    }
}

impl ApiError {
    /// Wraps a service failure, as the handlers do with `?`.
    pub fn from_service(error: ServiceError) -> (api: ApiError)
        ensures
            api@ == ApiErrorView::Service(error@),
    {
        ApiError::Service(error)
    }

    /// The failure of binding the listening socket at `addr`.
    pub fn bind_failed(addr: &str, cause: &str) -> (api: ApiError)
        ensures
            api@ == ApiErrorView::Service(
                ServiceErrorView::Internal("failed to bind to "@ + addr@ + ": "@ + cause@),
            ),
    {
        let text = String::from_str("failed to bind to ").concat(addr).concat(": ").concat(cause);
        ApiError::Service(ServiceError::Internal(text))
    }

    /// The failure of the server loop.
    pub fn server_failed(cause: &str) -> (api: ApiError)
        ensures
            api@ == ApiErrorView::Service(ServiceErrorView::Internal("server error: "@ + cause@)),
    {
        ApiError::Service(ServiceError::Internal(String::from_str("server error: ").concat(cause)))
    }

    /// The error as one line of text.
    pub fn message(&self) -> (text: String)
        ensures
            text@ == self@.message(),
    {
        match self {
            ApiError::Service(e) => e.message(),
            ApiError::BadPayload(m) => String::from_str("serde payload rejected: ").concat(
                m.as_str(),
            ),
            ApiError::Shutdown => String::from_str("server shutting down"),
        }
    }

    /// The HTTP status of the response.
    pub fn status_code(&self) -> (status: u16)
        ensures
            status == self@.status_code(),
    {
        match self {
            ApiError::Service(ServiceError::InvalidRequest(_)) => 400,
            ApiError::Service(ServiceError::NotFound(_)) => 404,
            ApiError::Service(ServiceError::FuseFailure(_)) => 500,
            ApiError::Service(ServiceError::Internal(_)) => 500,
            ApiError::BadPayload(_) => 400,
            ApiError::Shutdown => 503,
        }
    }

    /// The status and the body of the response that reports this error.
    pub fn into_response(self) -> (response: (u16, ErrorBody))
        ensures
            response.0 == self@.status_code(),
            response.1@ == self@.body(),
    {
        let status = self.status_code();
        let (code, error) = match self {
            ApiError::Service(ServiceError::InvalidRequest(m)) => ("INVALID_REQUEST", m),
            ApiError::Service(ServiceError::NotFound(id)) => {
                let shown = mount_id_text(id);
                (
                    "NOT_FOUND",
                    String::from_str("mount ").concat(shown.as_str()).concat(" not found"),
                )
            },
            ApiError::Service(ServiceError::FuseFailure(m)) => ("FUSE_ERROR", m),
            ApiError::Service(ServiceError::Internal(m)) => ("INTERNAL_ERROR", m),
            ApiError::BadPayload(m) => ("BAD_PAYLOAD", m),
            ApiError::Shutdown => ("SHUTDOWN", String::from_str("server is shutting down")),
        };
        (status, ErrorBody { error, code: String::from_str(code) })
    }
}

} // verus!
