//! Errors that the pipeline reports to its callers.

use vstd::prelude::*;

verus! {

/// The class of an error, which decides the HTTP-style status it maps to.
#[derive(PartialEq, Eq, Structural, Clone, Copy, Debug)]
pub enum ErrorKind {
    NotFound,
    Unauthorized,
    Forbidden,
    BadRequest,
    Internal,
}

/// An error with its human-readable message.
#[derive(Debug)]
pub enum ApiError {
    NotFound(String),
    Unauthorized,
    Forbidden,
    BadRequest(String),
    Internal(String),
}

/// Mathematical view of an error: its class and its message.
pub struct ErrorView {
    pub kind: ErrorKind,
    pub message: Seq<char>,
}

impl View for ApiError {
    type V = ErrorView;

    open spec fn view(&self) -> ErrorView {
        match self {
            ApiError::NotFound(m) => ErrorView { kind: ErrorKind::NotFound, message: m@ },
            ApiError::Unauthorized => ErrorView { kind: ErrorKind::Unauthorized, message: "Unauthorized"@ },
            ApiError::Forbidden => ErrorView { kind: ErrorKind::Forbidden, message: "Forbidden"@ },
            ApiError::BadRequest(m) => ErrorView { kind: ErrorKind::BadRequest, message: m@ },
            ApiError::Internal(m) => ErrorView { kind: ErrorKind::Internal, message: m@ },
        }
    }
}

/// The view of an error of the given class and message.
pub open spec fn error_of(kind: ErrorKind, message: Seq<char>) -> ErrorView {
    ErrorView { kind, message }
}

/// The HTTP-style status of each error class.
pub open spec fn status_of(kind: ErrorKind) -> u16 {
    match kind {
        ErrorKind::NotFound => 404,
        ErrorKind::Unauthorized => 401,
        ErrorKind::Forbidden => 403,
        ErrorKind::BadRequest => 400,
        ErrorKind::Internal => 500,
    }
}

impl ApiError {
    /// A `BadRequest` error with the given message.
    pub fn bad_request(message: &str) -> (e: ApiError)
        ensures
            e@ == error_of(ErrorKind::BadRequest, message@),
    {
        ApiError::BadRequest(message.to_owned())
    }

    /// A `NotFound` error with the given message.
    pub fn not_found(message: &str) -> (e: ApiError)
        ensures
            e@ == error_of(ErrorKind::NotFound, message@),
    {
        ApiError::NotFound(message.to_owned())
    }

    /// An `Internal` error with the given message.
    pub fn internal(message: &str) -> (e: ApiError)
        ensures
            e@ == error_of(ErrorKind::Internal, message@),
    {
        ApiError::Internal(message.to_owned())
    }

    /// The class of this error.
    pub fn kind(&self) -> (k: ErrorKind)
        ensures
            k == self@.kind,
    {
        match self {
            ApiError::NotFound(_) => ErrorKind::NotFound,
            ApiError::Unauthorized => ErrorKind::Unauthorized,
            ApiError::Forbidden => ErrorKind::Forbidden,
            ApiError::BadRequest(_) => ErrorKind::BadRequest,
            ApiError::Internal(_) => ErrorKind::Internal,
        }
    }

    /// The HTTP-style status that this error is reported with.
    pub fn status_code(&self) -> (s: u16)
        ensures
            s == status_of(self@.kind),
    {
        match self {
            ApiError::NotFound(_) => 404,
            ApiError::Unauthorized => 401,
            ApiError::Forbidden => 403,
            ApiError::BadRequest(_) => 400,
            ApiError::Internal(_) => 500,
        }
    }

    /// The human-readable message of this error.
    pub fn message(&self) -> (m: String)
        ensures
            m@ == self@.message,
    {
        match self {
            ApiError::NotFound(m) => m.clone(),
            ApiError::Unauthorized => "Unauthorized".to_owned(),
            ApiError::Forbidden => "Forbidden".to_owned(),
            ApiError::BadRequest(m) => m.clone(),
            ApiError::Internal(m) => m.clone(),
        }
    }
}

} // verus!
