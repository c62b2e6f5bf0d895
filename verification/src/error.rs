//! The errors that the service answers with, their HTTP status and the
//! message that an answer carries.

use vstd::prelude::*;

use crate::text::owned;

verus! {

/// Every way a request can fail. A database or internal failure keeps the
/// text of the underlying error.
#[derive(Clone, Debug)]
pub enum AppError {
    Db(String),
    NotFound,
    Unauthorized,
    Forbidden,
    BadRequest(String),
    Internal(String),
}

/// The HTTP status that answers each error.
pub open spec fn status_of(e: AppError) -> u16 {
    match e {
        AppError::NotFound => 404,
        AppError::Unauthorized => 401,
        AppError::Forbidden => 403,
        AppError::BadRequest(_) => 400,
        AppError::Db(_) => 500,
        AppError::Internal(_) => 500,
    }
}

/// The full description of an error, as it is logged.
pub open spec fn description_of(e: AppError) -> Seq<char> {
    match e {
        AppError::Db(m) => "Database error: "@ + m@,
        AppError::NotFound => "Not found"@,
        AppError::Unauthorized => "Unauthorized"@,
        AppError::Forbidden => "Forbidden"@,
        AppError::BadRequest(m) => "Bad request: "@ + m@,
        AppError::Internal(m) => "Internal: "@ + m@,
    }
}

/// The message that the answer to an error carries: the details of
/// database and internal failures stay on the server.
pub open spec fn answer_message_of(e: AppError) -> Seq<char> {
    match e {
        AppError::NotFound => "Not found"@,
        AppError::Unauthorized => "Unauthorized"@,
        AppError::Forbidden => "Forbidden"@,
        AppError::BadRequest(m) => m@,
        AppError::Db(_) => "Database error"@,
        AppError::Internal(_) => "Internal error"@,
    }
}

impl AppError {
    /// A request that the service refuses with `message`.
    pub fn bad_request(message: &str) -> (e: AppError)
        ensures
            e matches AppError::BadRequest(m) && m@ == message@,
    {
        AppError::BadRequest(owned(message))
    }

    /// A failure inside the service, described by `message`.
    pub fn internal(message: &str) -> (e: AppError)
        ensures
            e matches AppError::Internal(m) && m@ == message@,
    {
        AppError::Internal(owned(message))
    }

    /// The HTTP status of the answer.
    pub fn status_code(&self) -> (code: u16)
        ensures
            code == status_of(*self),
    {
        match self {
            AppError::NotFound => 404,
            AppError::Unauthorized => 401,
            AppError::Forbidden => 403,
            AppError::BadRequest(_) => 400,
            AppError::Db(_) => 500,
            AppError::Internal(_) => 500,
        }
    }

    /// The full description of the error.
    pub fn description(&self) -> (s: String)
        ensures
            s@ == description_of(*self),
    {
        match self {
            AppError::Db(m) => {
                let mut s = owned("Database error: ");
                s.append(m.as_str());
                s
            },
            AppError::NotFound => owned("Not found"),
            AppError::Unauthorized => owned("Unauthorized"),
            AppError::Forbidden => owned("Forbidden"),
            AppError::BadRequest(m) => {
                let mut s = owned("Bad request: ");
                s.append(m.as_str());
                s
            },
            AppError::Internal(m) => {
                let mut s = owned("Internal: ");
                s.append(m.as_str());
                s
            },
        }
    }

    /// The message that the answer carries.
    pub fn answer_message(&self) -> (s: String)
        ensures
            s@ == answer_message_of(*self),
    {
        match self {
            AppError::NotFound => owned("Not found"),
            AppError::Unauthorized => owned("Unauthorized"),
            AppError::Forbidden => owned("Forbidden"),
            AppError::BadRequest(m) => m.clone(),
            AppError::Db(_) => owned("Database error"),
            AppError::Internal(_) => owned("Internal error"),
        }
    }
}

} // verus!
