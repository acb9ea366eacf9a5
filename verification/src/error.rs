//! Errors reported by the client.
use vstd::prelude::*;
use crate::auth::Error as AuthError;

verus! {

/// A gRPC status, as returned by the service.
#[verifier::external_type_specification]
#[verifier::external_body]
pub struct ExStatus(tonic::Status);

/// An I/O error of the standard library.
#[verifier::external_type_specification]
#[verifier::external_body]
pub struct ExIoError(std::io::Error);

/// Unified error type for the Google Generative AI client.
#[derive(Debug)]
pub enum Error {
    /// Errors occurring during client setup/configuration.
    Setup(SetupError),
    /// Network-level errors (transport failures, connection issues).
    Net(NetError),
    /// Service-level errors (API responses, business logic errors).
    Service(ServiceError),
    /// Streaming operation errors (both I/O and nested errors).
    Stream(ActionError<std::io::Error>),
    /// Authentication errors.
    Auth(AuthError),
    /// Invalid parameter passed to the API.
    InvalidArgument(String),
    /// Malformed or unsupported content structure.
    InvalidContent(String),
}

/// Error occurring during client setup/configuration.
#[derive(Debug)]
pub struct SetupError {
    /// What was being set up.
    pub context: String,
    /// The underlying error, as text.
    pub err: String,
}

impl SetupError {
    /// Creates a setup error with context information.
    pub fn new(context: &str, err: &str) -> (r: Error)
        ensures
            r matches Error::Setup(e) && e.context@ == context@ && e.err@ == err@,
    {
        Error::Setup(SetupError { context: context.to_owned(), err: err.to_owned() })
    }
}

/// Error wrapper for operations that might fail due to external actions.
#[derive(Debug)]
pub enum ActionError<E> {
    /// Error originating from an external action.
    Action(E),
    /// Nested client error.
    Error(Box<Error>),
}

/// Categorization of error sources for troubleshooting.
#[derive(Debug, PartialEq, Eq, Structural, Clone, Copy)]
pub enum ActionErrorBlame {
    Network,
    Service,
    Unknown,
    Action,
}

/// The primary cause category of an action error: the action itself, or the
/// kind of the nested client error, looking through nested stream errors.
pub open spec fn blame_of<E>(e: ActionError<E>) -> ActionErrorBlame
    decreases e,
{
    match e {
        ActionError::Action(_) => ActionErrorBlame::Action,
        ActionError::Error(err) => match *err {
            Error::Net(_) => ActionErrorBlame::Network,
            Error::Service(_) => ActionErrorBlame::Service,
            Error::Stream(inner) => blame_of(inner),
            _ => ActionErrorBlame::Unknown,
        },
    }
}

impl<E> ActionError<E> {
    /// Determines the primary cause category of the error.
    pub fn blame(&self) -> (r: ActionErrorBlame)
        ensures
            r == blame_of(*self),
        decreases self,
    {
        match self {
            ActionError::Action(_) => ActionErrorBlame::Action,
            ActionError::Error(err) => match &**err {
                Error::Setup(_) => ActionErrorBlame::Unknown,
                Error::Net(_) => ActionErrorBlame::Network,
                Error::Service(_) => ActionErrorBlame::Service,
                Error::Stream(inner) => inner.blame(),
                _ => ActionErrorBlame::Unknown,
            },
        }
    }
}

/// Network-related errors (transport layer).
#[derive(Debug)]
pub enum NetError {
    /// The connection could not be made; the transport error as text.
    TransportFailure(String),
    /// The service could not be reached.
    ServiceUnavailable(tonic::Status),
}

/// Service-level errors (API responses).
#[derive(Debug)]
pub enum ServiceError {
    /// The service answered with an error status.
    ApiError(tonic::Status),
    /// The service's answer could not be used.
    InvalidResponse(String),
    /// The content of the answer is not supported.
    InvalidContent(String),
}

/// Whether a status carries an underlying cause: the `source` it was made
/// with, which `Status::source` hands back.
pub uninterp spec fn status_source(s: tonic::Status) -> bool;

/// Whether a status carries an underlying cause (`Error::source` of a
/// `tonic::Status`, which returns the status's stored source).
#[verifier::external_body]
fn status_has_source(status: &tonic::Status) -> (r: bool)
    ensures
        r == status_source(*status),
{
    std::error::Error::source(status).is_some()
}

/// Converts a gRPC status to an error: a status with an underlying cause is
/// a network error, any other an API error; the status is kept either way.
pub fn status_into_error(status: tonic::Status) -> (r: Error)
    ensures
        status_source(status) ==> (r matches Error::Net(NetError::ServiceUnavailable(s)) && s == status),
        !status_source(status) ==> (r matches Error::Service(ServiceError::ApiError(s)) && s == status),
{
    if status_has_source(&status) {
        Error::Net(NetError::ServiceUnavailable(status))
    } else {
        Error::Service(ServiceError::ApiError(status))
    }
}

/// The error a service error becomes: invalid content is reported as such,
/// any other service error as a service error.
pub open spec fn error_of_service(err: ServiceError) -> Error {
    match err {
        ServiceError::InvalidContent(msg) => Error::InvalidContent(msg),
        other => Error::Service(other),
    }
}

impl From<ServiceError> for Error {
    fn from(err: ServiceError) -> (r: Error) {
        match err {
            ServiceError::InvalidContent(msg) => Error::InvalidContent(msg),
            other => Error::Service(other),
        }
    }
}

impl vstd::std_specs::convert::FromSpecImpl<ServiceError> for Error {
    open spec fn obeys_from_spec() -> bool {
        true
    }

    open spec fn from_spec(err: ServiceError) -> Error {
        error_of_service(err)
    }
}

impl From<AuthError> for Error {
    fn from(err: AuthError) -> (r: Error) {
        Error::Auth(err)
    }
}

impl vstd::std_specs::convert::FromSpecImpl<AuthError> for Error {
    open spec fn obeys_from_spec() -> bool {
        true
    }

    open spec fn from_spec(err: AuthError) -> Error {
        Error::Auth(err)
    }
}

impl From<String> for Error {
    fn from(err: String) -> (r: Error) {
        Error::InvalidArgument(err)
    }
}

impl vstd::std_specs::convert::FromSpecImpl<String> for Error {
    open spec fn obeys_from_spec() -> bool {
        true
    }

    open spec fn from_spec(err: String) -> Error {
        Error::InvalidArgument(err)
    }
}

} // verus!
