//! The error every API operation answers with: an HTTP status, a stable
//! machine-readable code and a human-readable message.

use vstd::prelude::*;
use vstd::string::*;

verus! {

/// The kinds of failure the API reports.
#[derive(Clone, Copy, Debug, PartialEq, Eq, Structural)]
pub enum ErrorKind {
    NotFound,
    Unauthorized,
    Forbidden,
    ValidationError,
    Conflict,
    Gone,
    Internal,
}

/// The HTTP status of each kind.
pub open spec fn status_of(kind: ErrorKind) -> u16 {
    match kind {
        ErrorKind::NotFound => 404,
        ErrorKind::Unauthorized => 401,
        ErrorKind::Forbidden => 403,
        ErrorKind::ValidationError => 400,
        ErrorKind::Conflict => 409,
        ErrorKind::Gone => 410,
        ErrorKind::Internal => 500,
    }
}

/// The machine-readable code of each kind.
pub open spec fn code_of(kind: ErrorKind) -> Seq<char> {
    match kind {
        ErrorKind::NotFound => "not_found"@,
        ErrorKind::Unauthorized => "unauthorized"@,
        ErrorKind::Forbidden => "forbidden"@,
        ErrorKind::ValidationError => "validation_error"@,
        ErrorKind::Conflict => "conflict"@,
        ErrorKind::Gone => "gone"@,
        ErrorKind::Internal => "internal_error"@,
    }
}

impl ErrorKind {
    /// The HTTP status code.
    pub fn status(&self) -> (s: u16)
        ensures
            s == status_of(*self),
    {
        match self {
            ErrorKind::NotFound => 404,
            ErrorKind::Unauthorized => 401,
            ErrorKind::Forbidden => 403,
            ErrorKind::ValidationError => 400,
            ErrorKind::Conflict => 409,
            ErrorKind::Gone => 410,
            ErrorKind::Internal => 500,
        }
    }

    /// The machine-readable code.
    pub fn code(&self) -> (c: &'static str)
        ensures
            c@ == code_of(*self),
    {
        match self {
            ErrorKind::NotFound => "not_found",
            ErrorKind::Unauthorized => "unauthorized",
            ErrorKind::Forbidden => "forbidden",
            ErrorKind::ValidationError => "validation_error",
            ErrorKind::Conflict => "conflict",
            ErrorKind::Gone => "gone",
            ErrorKind::Internal => "internal_error",
        }
    }
}

/// Unified error type for all API responses, rendered as
/// `{"error": {"code": ..., "message": ..., "details": ...}}`.
#[derive(Debug)]
pub struct AppError {
    pub kind: ErrorKind,
    pub message: String,
    /// Optional JSON text with further details.
    pub details: Option<String>,
}

impl AppError {
    /// An error of the given kind with the given message and no details.
    pub fn new(kind: ErrorKind, message: String) -> (e: Self)
        ensures
            e.kind == kind,
            e.message@ == message@,
            e.details is None,
    {
        AppError { kind, message, details: None }
    }

    /// 404 `not_found`.
    pub fn not_found(msg: String) -> (e: Self)
        ensures
            e.kind == ErrorKind::NotFound,
            e.message@ == msg@,
            e.details is None,
    {
        Self::new(ErrorKind::NotFound, msg)
    }

    /// 401 `unauthorized`.
    pub fn unauthorized(msg: String) -> (e: Self)
        ensures
            e.kind == ErrorKind::Unauthorized,
            e.message@ == msg@,
            e.details is None,
    {
        Self::new(ErrorKind::Unauthorized, msg)
    }

    /// 403 `forbidden`.
    pub fn forbidden(msg: String) -> (e: Self)
        ensures
            e.kind == ErrorKind::Forbidden,
            e.message@ == msg@,
            e.details is None,
    {
        Self::new(ErrorKind::Forbidden, msg)
    }

    /// 400 `validation_error`.
    pub fn validation_error(msg: String) -> (e: Self)
        ensures
            e.kind == ErrorKind::ValidationError,
            e.message@ == msg@,
            e.details is None,
    {
        Self::new(ErrorKind::ValidationError, msg)
    }

    /// 409 `conflict`.
    pub fn conflict(msg: String) -> (e: Self)
        ensures
            e.kind == ErrorKind::Conflict,
            e.message@ == msg@,
            e.details is None,
    {
        Self::new(ErrorKind::Conflict, msg)
    }

    /// 410 `gone`.
    pub fn gone(msg: String) -> (e: Self)
        ensures
            e.kind == ErrorKind::Gone,
            e.message@ == msg@,
            e.details is None,
    {
        Self::new(ErrorKind::Gone, msg)
    }

    /// 500 `internal_error`.
    pub fn internal(msg: String) -> (e: Self)
        ensures
            e.kind == ErrorKind::Internal,
            e.message@ == msg@,
            e.details is None,
    {
        Self::new(ErrorKind::Internal, msg)
    }

    /// The same error with the given JSON details attached.
    pub fn with_details(self, details: String) -> (e: Self)
        ensures
            e.kind == self.kind,
            e.message@ == self.message@,
            e.details matches Some(d) && d@ == details@,
    {
        AppError { kind: self.kind, message: self.message, details: Some(details) }
    }

    /// The HTTP status code.
    pub fn status(&self) -> (s: u16)
        ensures
            s == status_of(self.kind),
    {
        self.kind.status()
    }

    /// The machine-readable code.
    pub fn code(&self) -> (c: &'static str)
        ensures
            c@ == code_of(self.kind),
    {
        self.kind.code()
    }

    /// The error as text: `code: message`.
    pub fn describe(&self) -> (t: String)
        ensures
            t@ == code_of(self.kind) + ": "@ + self.message@,
    {
        text(self.kind.code()).concat(": ").concat(self.message.as_str())
    }
}

/// A field named in the details of a validation error.
#[derive(Debug)]
pub struct FieldError {
    pub field: &'static str,
    pub value: Option<String>,
}

/// An owned string with the characters of a literal.
pub fn text(s: &str) -> (t: String)
    ensures
        t@ == s@,
{
    s.to_owned()
}

} // verus!
