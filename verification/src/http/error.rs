//! The single error type of every HTTP handler, and the status code and
//! message each variant is answered with.

use vstd::prelude::*;

verus! {

/// A failed database call, as much of it as the answer depends on.
pub enum DbFailure {
    /// The row the statement needed does not exist; the text says which.
    RecordNotFound(String),
    /// Any other failure, with the database layer's own description.
    Other(String),
}

/// Why a request failed.
pub enum AppError {
    BadRequest(String),
    NotFound(String),
    Conflict(String),
    Gone(String),
    Internal(String),
    Database(DbFailure),
}

pub const BAD_REQUEST: u16 = 400;
pub const NOT_FOUND: u16 = 404;
pub const CONFLICT: u16 = 409;
pub const GONE: u16 = 410;
pub const INTERNAL_SERVER_ERROR: u16 = 500;

/// The status code and message a failed request is answered with. A missing
/// row is the one database failure that means "404 resource missing"; every
/// other database failure is a 500 carrying its description.
pub open spec fn error_parts(e: AppError) -> (u16, Seq<char>) {
    match e {
        AppError::BadRequest(m) => (400, m@),
        AppError::NotFound(m) => (404, m@),
        AppError::Conflict(m) => (409, m@),
        AppError::Gone(m) => (410, m@),
        AppError::Internal(m) => (500, m@),
        AppError::Database(DbFailure::RecordNotFound(m)) => (404, m@),
        AppError::Database(DbFailure::Other(m)) => (500, m@),
    }
}

impl AppError {
    pub fn bad_request(msg: String) -> (res: Self)
        ensures
            res == AppError::BadRequest(msg),
    {
        AppError::BadRequest(msg)
    }

    pub fn not_found(msg: String) -> (res: Self)
        ensures
            res == AppError::NotFound(msg),
    {
        AppError::NotFound(msg)
    }

    pub fn conflict(msg: String) -> (res: Self)
        ensures
            res == AppError::Conflict(msg),
    {
        AppError::Conflict(msg)
    }

    pub fn gone(msg: String) -> (res: Self)
        ensures
            res == AppError::Gone(msg),
    {
        AppError::Gone(msg)
    }

    pub fn internal(msg: String) -> (res: Self)
        ensures
            res == AppError::Internal(msg),
    {
        AppError::Internal(msg)
    }

    /// The status code and message this error is answered with.
    pub fn parts(&self) -> (res: (u16, String))
        ensures
            res.0 == error_parts(*self).0,
            res.1@ == error_parts(*self).1,
    {
        match self {
            AppError::BadRequest(m) => (BAD_REQUEST, m.clone()),
            AppError::NotFound(m) => (NOT_FOUND, m.clone()),
            AppError::Conflict(m) => (CONFLICT, m.clone()),
            AppError::Gone(m) => (GONE, m.clone()),
            AppError::Internal(m) => (INTERNAL_SERVER_ERROR, m.clone()),
            AppError::Database(DbFailure::RecordNotFound(m)) => (NOT_FOUND, m.clone()),
            AppError::Database(DbFailure::Other(m)) => (INTERNAL_SERVER_ERROR, m.clone()),
        }
    }

    /// `true` for the errors answered with a 5xx status.
    pub fn is_server_error(&self) -> (res: bool)
        ensures
            res == (error_parts(*self).0 >= 500),
    {
        match self {
            AppError::Internal(_) => true,
            AppError::Database(DbFailure::Other(_)) => true,
            _ => false,
        }
    }
}

impl From<DbFailure> for AppError {
    fn from(e: DbFailure) -> (res: Self) {
        AppError::Database(e)
    }
}

impl vstd::std_specs::convert::FromSpecImpl<DbFailure> for AppError {
    open spec fn obeys_from_spec() -> bool {
        true
    }

    open spec fn from_spec(v: DbFailure) -> AppError {
        AppError::Database(v)
    }
}

} // verus!
