//! The errors that the HTTP handlers answer with.

use vstd::prelude::*;

verus! {

/// An error of a handler.
#[derive(Debug, Clone)]
pub enum AppError {
    /// A failure with its message (such as "deserialize json failed") and the
    /// text of the error that caused it, if one did.
    Anyhow { message: String, cause: Option<String> },
    /// What was asked for does not exist.
    NotFound,
    /// The request is malformed.
    BadRequest,
}

/// The message of a request body that cannot be read as the JSON value expected.
pub open spec fn deserialize_failed_message() -> Seq<char> {
    "deserialize json failed"@
}

/// The message of a write that the Raft engine did not commit.
pub open spec fn write_failed_message() -> Seq<char> {
    "client write failed"@
}

/// `e` is a failure with message `message` caused by an error whose text is `cause`.
pub open spec fn is_failure_caused_by(e: AppError, message: Seq<char>, cause: Seq<char>) -> bool {
    e matches AppError::Anyhow { message: m, cause: Some(c) } && m@ == message && c@ == cause
}

/// `e` reports a request body that could not be read as the expected JSON
/// value, and keeps the reader's error as its cause.
pub open spec fn is_deserialize_failure(e: AppError) -> bool {
    e matches AppError::Anyhow { message: m, cause: Some(_) } && m@ == deserialize_failed_message()
}

/// How an error is written for people: the message alone, not its cause.
pub open spec fn error_text(e: AppError) -> Seq<char> {
    match e {
        AppError::Anyhow { message, .. } => "error: `"@ + message@ + "`"@,
        AppError::NotFound => "not found"@,
        AppError::BadRequest => "bad request"@,
    }
}

impl AppError {
    /// The error for a request body that is not the JSON value expected,
    /// caused by the reader's error with text `cause`.
    pub fn deserialize_failed(cause: String) -> (e: AppError)
        ensures
            is_failure_caused_by(e, deserialize_failed_message(), cause@),
            is_deserialize_failure(e),
    {
        AppError::Anyhow { message: String::from_str("deserialize json failed"), cause: Some(cause) }
    }

    /// The error for a write that the Raft engine did not commit, caused by
    /// the engine's error with text `cause`.
    pub fn write_failed(cause: String) -> (e: AppError)
        ensures
            is_failure_caused_by(e, write_failed_message(), cause@),
    {
        AppError::Anyhow { message: String::from_str("client write failed"), cause: Some(cause) }
    }

    /// The text of the error: "error: `<message>`", "not found" or "bad request".
    pub fn to_string(&self) -> (s: String)
        ensures
            s@ == error_text(*self),
    {
        match self {
            AppError::Anyhow { message, .. } => {
                let mut s = String::from_str("error: `");
                s.append(message.as_str());
                s.append("`");
                s
            },
            AppError::NotFound => String::from_str("not found"),
            AppError::BadRequest => String::from_str("bad request"),
        }
    }
}

} // verus!
