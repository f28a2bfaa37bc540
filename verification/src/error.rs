//! The one error type of the handlers, the HTTP status and client-facing
//! message each error is answered with, and its text.
use vstd::prelude::*;

verus! {

/// Every failure of a handler. `Database` and `Internal` carry a description
/// of the underlying failure for the server's log; it is never shown to the
/// client.
#[derive(Debug, Clone)]
pub enum AppError {
    Validation(String),
    Unauthorized(String),
    Forbidden(String),
    NotFound(String),
    Conflict(String),
    Database(String),
    Internal(String),
}

pub type AppResult<T> = Result<T, AppError>;

/// What a client is told when the server itself failed.
pub open spec fn generic_failure_text() -> Seq<char> {
    "Something went wrong. Please try again."@
}

impl AppError {
    /// The HTTP status of the response to this error.
    pub open spec fn status_spec(&self) -> u16 {
        match self {
            AppError::Validation(_) => 400,
            AppError::Unauthorized(_) => 401,
            AppError::Forbidden(_) => 403,
            AppError::NotFound(_) => 404,
            AppError::Conflict(_) => 409,
            AppError::Database(_) => 500,
            AppError::Internal(_) => 500,
        }
    }

    /// Whether the error is a failure of the server rather than of the request.
    pub open spec fn is_server_failure(&self) -> bool {
        self is Database || self is Internal
    }

    /// The message put in the `error` field of the response body.
    pub open spec fn client_message_spec(&self) -> Seq<char> {
        match self {
            AppError::Validation(m) => m@,
            AppError::Unauthorized(m) => m@,
            AppError::Forbidden(m) => m@,
            AppError::NotFound(m) => m@,
            AppError::Conflict(m) => m@,
            AppError::Database(_) => generic_failure_text(),
            AppError::Internal(_) => generic_failure_text(),
        }
    }

    /// The error's text, as it is written out (and sent over a WebSocket).
    pub open spec fn text_spec(&self) -> Seq<char> {
        match self {
            AppError::Validation(m) => "validation error: "@ + m@,
            AppError::Unauthorized(m) => "unauthorized: "@ + m@,
            AppError::Forbidden(m) => "forbidden: "@ + m@,
            AppError::NotFound(m) => "not found: "@ + m@,
            AppError::Conflict(m) => "conflict: "@ + m@,
            AppError::Database(_) => "database error"@,
            AppError::Internal(_) => "internal error"@,
        }
    }

    /// The HTTP status of the response to this error.
    pub fn status_code(&self) -> (status: u16)
        ensures
            status == self.status_spec(),
    {
        match self {
            AppError::Validation(_) => 400,
            AppError::Unauthorized(_) => 401,
            AppError::Forbidden(_) => 403,
            AppError::NotFound(_) => 404,
            AppError::Conflict(_) => 409,
            AppError::Database(_) => 500,
            AppError::Internal(_) => 500,
        }
    }

    /// The message the client is shown: the request errors' own message, and a
    /// fixed apology for failures of the server, whatever their cause.
    pub fn client_message(&self) -> (message: String)
        ensures
            message@ == self.client_message_spec(),
    {
        match self {
            AppError::Validation(m) => m.clone(),
            AppError::Unauthorized(m) => m.clone(),
            AppError::Forbidden(m) => m.clone(),
            AppError::NotFound(m) => m.clone(),
            AppError::Conflict(m) => m.clone(),
            AppError::Database(_) => "Something went wrong. Please try again.".to_owned(),
            AppError::Internal(_) => "Something went wrong. Please try again.".to_owned(),
        }
    }

    /// The status and the message of the HTTP response to this error; the
    /// body of the response is `{"error": message}`.
    pub fn response_parts(&self) -> (parts: (u16, String))
        ensures
            parts.0 == self.status_spec(),
            parts.1@ == self.client_message_spec(),
    {
        (self.status_code(), self.client_message())
    }

    /// The error's text: a prefix naming the kind of error, then the message,
    /// for the request errors; the kind alone for failures of the server.
    pub fn to_text(&self) -> (text: String)
        ensures
            text@ == self.text_spec(),
    {
        match self {
            AppError::Validation(m) => {
                let mut t = "validation error: ".to_owned();
                t.append(m.as_str());
                t
            },
            AppError::Unauthorized(m) => {
                let mut t = "unauthorized: ".to_owned();
                t.append(m.as_str());
                t
            },
            AppError::Forbidden(m) => {
                let mut t = "forbidden: ".to_owned();
                t.append(m.as_str());
                t
            },
            AppError::NotFound(m) => {
                let mut t = "not found: ".to_owned();
                t.append(m.as_str());
                t
            },
            AppError::Conflict(m) => {
                let mut t = "conflict: ".to_owned();
                t.append(m.as_str());
                t
            },
            AppError::Database(_) => "database error".to_owned(),
            AppError::Internal(_) => "internal error".to_owned(),
        }
    }
}

/// No failure of the server reaches the client: whatever the database or
/// internal failure was, the response says the same fixed sentence with
/// status 500, and the error's text names only its kind.
pub proof fn lemma_server_failures_hide_detail(detail1: String, detail2: String)
    ensures
        AppError::Database(detail1).client_message_spec() == generic_failure_text(),
        AppError::Internal(detail2).client_message_spec() == generic_failure_text(),
        AppError::Database(detail1).status_spec() == 500,
        AppError::Internal(detail2).status_spec() == 500,
        AppError::Database(detail1).text_spec() == AppError::Database(detail2).text_spec(),
        AppError::Internal(detail1).text_spec() == AppError::Internal(detail2).text_spec(),
{
}

/// Every error is answered with a client-error status (4xx) or, exactly for
/// failures of the server, with 500.
pub proof fn lemma_status_classes(e: AppError)
    ensures
        400 <= e.status_spec() < 500 <==> !e.is_server_failure(),
        e.status_spec() == 500 <==> e.is_server_failure(),
{
}

/// A request error is answered with its own message under its own status
/// (400 invalid input, 401 unauthenticated, 403 forbidden, 404 missing, 409
/// conflict), and its text is its kind followed by that message.
pub proof fn lemma_request_errors_answered_with_their_message(m: String)
    ensures
        AppError::Validation(m).status_spec() == 400,
        AppError::Unauthorized(m).status_spec() == 401,
        AppError::Forbidden(m).status_spec() == 403,
        AppError::NotFound(m).status_spec() == 404,
        AppError::Conflict(m).status_spec() == 409,
        AppError::Validation(m).client_message_spec() == m@,
        AppError::Unauthorized(m).client_message_spec() == m@,
        AppError::Forbidden(m).client_message_spec() == m@,
        AppError::NotFound(m).client_message_spec() == m@,
        AppError::Conflict(m).client_message_spec() == m@,
        AppError::Validation(m).text_spec() == "validation error: "@ + m@,
        AppError::Unauthorized(m).text_spec() == "unauthorized: "@ + m@,
        AppError::Forbidden(m).text_spec() == "forbidden: "@ + m@,
        AppError::NotFound(m).text_spec() == "not found: "@ + m@,
        AppError::Conflict(m).text_spec() == "conflict: "@ + m@,
        AppError::Database(m).text_spec() == "database error"@,
        AppError::Internal(m).text_spec() == "internal error"@,
        AppError::Database(m).client_message_spec() == "Something went wrong. Please try again."@,
        AppError::Internal(m).client_message_spec() == "Something went wrong. Please try again."@,
{
}

} // verus!
