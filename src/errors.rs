//! Client-facing error kinds and their total mapping to status codes.

use vstd::prelude::*;
use crate::text::{concat, owned};

verus! {

/// A failure reported to a client: its kind and a human message.
#[derive(Debug)]
pub enum ApiError {
    BadRequest(String),
    Unauthorized(String),
    NotFound(String),
    InternalServerError(String),
}

/// The kind of an [`ApiError`], without its message.
#[derive(Clone, Copy, Debug, PartialEq, Eq, Structural)]
pub enum ErrorKind {
    BadRequest,
    Unauthorized,
    NotFound,
    InternalServerError,
}

pub open spec fn status_of(k: ErrorKind) -> u16 {
    match k {
        ErrorKind::BadRequest => 400,
        ErrorKind::Unauthorized => 401,
        ErrorKind::NotFound => 404,
        ErrorKind::InternalServerError => 500,
    }
}

pub open spec fn label_of(k: ErrorKind) -> Seq<char> {
    match k {
        ErrorKind::BadRequest => "Bad Request"@,
        ErrorKind::Unauthorized => "Unauthorized"@,
        ErrorKind::NotFound => "Not Found"@,
        ErrorKind::InternalServerError => "Internal Server Error"@,
    }
}

impl ApiError {
    pub open spec fn spec_kind(&self) -> ErrorKind {
        match self {
            ApiError::BadRequest(_) => ErrorKind::BadRequest,
            ApiError::Unauthorized(_) => ErrorKind::Unauthorized,
            ApiError::NotFound(_) => ErrorKind::NotFound,
            ApiError::InternalServerError(_) => ErrorKind::InternalServerError,
        }
    }

    pub open spec fn spec_message(&self) -> Seq<char> {
        match self {
            ApiError::BadRequest(m) => m@,
            ApiError::Unauthorized(m) => m@,
            ApiError::NotFound(m) => m@,
            ApiError::InternalServerError(m) => m@,
        }
    }

    pub fn bad_request(msg: &str) -> (r: Self)
        ensures
            r.spec_kind() == ErrorKind::BadRequest,
            r.spec_message() == msg@,
    {
        ApiError::BadRequest(owned(msg))
    }

    pub fn unauthorized(msg: &str) -> (r: Self)
        ensures
            r.spec_kind() == ErrorKind::Unauthorized,
            r.spec_message() == msg@,
    {
        ApiError::Unauthorized(owned(msg))
    }

    pub fn not_found(msg: &str) -> (r: Self)
        ensures
            r.spec_kind() == ErrorKind::NotFound,
            r.spec_message() == msg@,
    {
        ApiError::NotFound(owned(msg))
    }

    pub fn internal(msg: &str) -> (r: Self)
        ensures
            r.spec_kind() == ErrorKind::InternalServerError,
            r.spec_message() == msg@,
    {
        ApiError::InternalServerError(owned(msg))
    }

    pub fn kind(&self) -> (r: ErrorKind)
        ensures
            r == self.spec_kind(),
    {
        match self {
            ApiError::BadRequest(_) => ErrorKind::BadRequest,
            ApiError::Unauthorized(_) => ErrorKind::Unauthorized,
            ApiError::NotFound(_) => ErrorKind::NotFound,
            ApiError::InternalServerError(_) => ErrorKind::InternalServerError,
        }
    }

    pub fn message(&self) -> (r: &str)
        ensures
            r@ == self.spec_message(),
    {
        match self {
            ApiError::BadRequest(m) => m.as_str(),
            ApiError::Unauthorized(m) => m.as_str(),
            ApiError::NotFound(m) => m.as_str(),
            ApiError::InternalServerError(m) => m.as_str(),
        }
    }

    /// The HTTP status code of this error's kind.
    pub fn status_code(&self) -> (r: u16)
        ensures
            r == status_of(self.spec_kind()),
    {
        match self {
            ApiError::BadRequest(_) => 400,
            ApiError::Unauthorized(_) => 401,
            ApiError::NotFound(_) => 404,
            ApiError::InternalServerError(_) => 500,
        }
    }

    /// The short name of this error's kind, as shown in the `error` field.
    pub fn error_label(&self) -> (r: &'static str)
        ensures
            r@ == label_of(self.spec_kind()),
    {
        match self {
            ApiError::BadRequest(_) => "Bad Request",
            ApiError::Unauthorized(_) => "Unauthorized",
            ApiError::NotFound(_) => "Not Found",
            ApiError::InternalServerError(_) => "Internal Server Error",
        }
    }

    /// The full human text: the kind's name, a colon and the message.
    pub fn to_string(&self) -> (r: String)
        ensures
            r@ == label_of(self.spec_kind()) + ": "@ + self.spec_message(),
    {
        let head = concat(self.error_label(), ": ");
        concat(head.as_str(), self.message())
    }

}

} // verus!
