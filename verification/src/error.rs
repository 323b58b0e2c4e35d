//! The error every request can end in, and the HTTP status and code each
//! kind maps to. The message is what the caller reads.

use vstd::prelude::*;

verus! {

/// Which of the service's refusals an error is.
#[derive(Debug, Clone, Copy, PartialEq, Eq)]
pub enum ErrorKind {
    BadRequest,
    Unauthorized,
    Forbidden,
    NotFound,
    Conflict,
    TooManyRequests,
    Internal,
}

/// Error envelope: a kind plus the sentence shown to the caller.
#[derive(Debug, Clone)]
pub enum AppError {
    BadRequest(String),
    Unauthorized(String),
    Forbidden(String),
    NotFound(String),
    Conflict(String),
    TooManyRequests(String),
    /// Logged in full, never echoed to the client.
    Internal(String),
}

impl View for AppError {
    type V = (ErrorKind, Seq<char>);

    open spec fn view(&self) -> (ErrorKind, Seq<char>) {
        match self {
            AppError::BadRequest(m) => (ErrorKind::BadRequest, m@),
            AppError::Unauthorized(m) => (ErrorKind::Unauthorized, m@),
            AppError::Forbidden(m) => (ErrorKind::Forbidden, m@),
            AppError::NotFound(m) => (ErrorKind::NotFound, m@),
            AppError::Conflict(m) => (ErrorKind::Conflict, m@),
            AppError::TooManyRequests(m) => (ErrorKind::TooManyRequests, m@),
            AppError::Internal(m) => (ErrorKind::Internal, m@),
        }
    }
}

pub type ApiResult<T> = Result<T, AppError>;

/// The HTTP status a kind is answered with.
pub open spec fn status_of(kind: ErrorKind) -> u16 {
    match kind {
        ErrorKind::BadRequest => 400,
        ErrorKind::Unauthorized => 401,
        ErrorKind::Forbidden => 403,
        ErrorKind::NotFound => 404,
        ErrorKind::Conflict => 409,
        ErrorKind::TooManyRequests => 429,
        ErrorKind::Internal => 500,
    }
}

/// The machine-readable code a kind is answered with.
pub open spec fn code_of(kind: ErrorKind) -> Seq<char> {
    match kind {
        ErrorKind::BadRequest => "BAD_REQUEST"@,
        ErrorKind::Unauthorized => "UNAUTHORIZED"@,
        ErrorKind::Forbidden => "FORBIDDEN"@,
        ErrorKind::NotFound => "NOT_FOUND"@,
        ErrorKind::Conflict => "CONFLICT"@,
        ErrorKind::TooManyRequests => "TOO_MANY_REQUESTS"@,
        ErrorKind::Internal => "INTERNAL"@,
    }
}

impl AppError {
    /// An error of `kind` carrying `msg`.
    pub fn new(kind: ErrorKind, msg: &str) -> (e: AppError)
        ensures
            e@ == (kind, msg@),
    {
        let m = String::from_str(msg);
        match kind {
            ErrorKind::BadRequest => AppError::BadRequest(m),
            ErrorKind::Unauthorized => AppError::Unauthorized(m),
            ErrorKind::Forbidden => AppError::Forbidden(m),
            ErrorKind::NotFound => AppError::NotFound(m),
            ErrorKind::Conflict => AppError::Conflict(m),
            ErrorKind::TooManyRequests => AppError::TooManyRequests(m),
            ErrorKind::Internal => AppError::Internal(m),
        }
    }

    /// Like [`AppError::new`], for a message that was assembled at run time.
    pub fn with_message(kind: ErrorKind, m: String) -> (e: AppError)
        ensures
            e@ == (kind, m@),
    {
        match kind {
            ErrorKind::BadRequest => AppError::BadRequest(m),
            ErrorKind::Unauthorized => AppError::Unauthorized(m),
            ErrorKind::Forbidden => AppError::Forbidden(m),
            ErrorKind::NotFound => AppError::NotFound(m),
            ErrorKind::Conflict => AppError::Conflict(m),
            ErrorKind::TooManyRequests => AppError::TooManyRequests(m),
            ErrorKind::Internal => AppError::Internal(m),
        }
    }

    pub fn kind(&self) -> (k: ErrorKind)
        ensures
            k == self@.0,
    {
        match self {
            AppError::BadRequest(_) => ErrorKind::BadRequest,
            AppError::Unauthorized(_) => ErrorKind::Unauthorized,
            AppError::Forbidden(_) => ErrorKind::Forbidden,
            AppError::NotFound(_) => ErrorKind::NotFound,
            AppError::Conflict(_) => ErrorKind::Conflict,
            AppError::TooManyRequests(_) => ErrorKind::TooManyRequests,
            AppError::Internal(_) => ErrorKind::Internal,
        }
    }

    /// The message as the caller sees it: internal errors are replaced by a
    /// fixed sentence so nothing about the failure leaks.
    pub fn public_message(&self) -> (m: String)
        ensures
            m@ == (if self@.0 == ErrorKind::Internal {
                "Something went wrong on our end."@
            } else {
                self@.1
            }),
    {
        match self {
            AppError::BadRequest(m) => m.clone(),
            AppError::Unauthorized(m) => m.clone(),
            AppError::Forbidden(m) => m.clone(),
            AppError::NotFound(m) => m.clone(),
            AppError::Conflict(m) => m.clone(),
            AppError::TooManyRequests(m) => m.clone(),
            AppError::Internal(_) => String::from_str("Something went wrong on our end."),
        }
    }

    /// HTTP status and error code for the response envelope.
    pub fn parts(&self) -> (p: (u16, &'static str))
        ensures
            p.0 == status_of(self@.0),
            p.1@ == code_of(self@.0),
    {
        match self {
            AppError::BadRequest(_) => (400, "BAD_REQUEST"),
            AppError::Unauthorized(_) => (401, "UNAUTHORIZED"),
            AppError::Forbidden(_) => (403, "FORBIDDEN"),
            AppError::NotFound(_) => (404, "NOT_FOUND"),
            AppError::Conflict(_) => (409, "CONFLICT"),
            AppError::TooManyRequests(_) => (429, "TOO_MANY_REQUESTS"),
            AppError::Internal(_) => (500, "INTERNAL"),
        }
    }
}

/// `s` trimmed, or a `BadRequest` carrying `msg` when nothing is left.
pub fn required<'a>(s: &'a str, msg: &'static str) -> (r: Result<&'a str, AppError>)
    ensures
        crate::text::trim_spec(s@).len() > 0 ==> (r matches Ok(t) && t@ == crate::text::trim_spec(s@)),
        crate::text::trim_spec(s@).len() == 0 ==> r is Err && r->Err_0@ == (ErrorKind::BadRequest, msg@),
{
    let t = crate::text::trim(s);
    if t.unicode_len() == 0 {
        return Err(AppError::new(ErrorKind::BadRequest, msg));
    }
    Ok(t)
}

} // verus!
