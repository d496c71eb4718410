use vstd::prelude::*;
use vstd::string::StringExecFns;

verus! {

/// The ways a database call can fail, as far as the HTTP mapping tells them apart.
pub enum DbFailure {
    /// A query that was to return a row returned none; `text` is the driver's report.
    RowNotFound { text: String },
    /// The server refused the statement, with its SQLSTATE code where it sent one.
    Database { code: Option<String>, text: String },
    /// Any other failure.
    Other { text: String },
}

/// The errors a handler returns; each has its HTTP status and message.
pub enum Error {
    Unauthorized,
    Forbidden,
    NotFound,
    /// A JSON body was refused before the handler ran, with the status and text
    /// the extractor chose.
    JsonExtractorRejection { status: u16, body_text: String },
    /// Validation of the input failed; `text` lists what failed.
    ValidationError { text: String },
    Redis { text: String },
    Sqlx(DbFailure),
    Anyhow { text: String },
    Custom(u16, String),
}

/// The result of a handler.
pub type AppResult<T> = Result<T, Error>;

/// SQLSTATE of a unique constraint violation.
pub const UNIQUE_VIOLATION: &'static str = "23505";

/// What an error becomes on the wire, and the line it logs, if any.
pub struct ErrorResponse {
    pub status: u16,
    pub message: String,
    pub logged: Option<String>,
}

impl DbFailure {
    pub open spec fn spec_text(self) -> Seq<char> {
        match self {
            DbFailure::RowNotFound { text } => text@,
            DbFailure::Database { text, .. } => text@,
            DbFailure::Other { text } => text@,
        }
    }

    pub open spec fn is_unique_violation(self) -> bool {
        self matches DbFailure::Database { code: Some(c), .. } && c@ == UNIQUE_VIOLATION@
    }
}

impl Error {
    /// The error's text.
    pub open spec fn spec_text(self) -> Seq<char> {
        match self {
            Error::Unauthorized => "Unauthorized"@,
            Error::Forbidden => "Forbidden"@,
            Error::NotFound => "Not Found"@,
            Error::JsonExtractorRejection { body_text, .. } => body_text@,
            Error::ValidationError { text } => text@,
            Error::Redis { text } => text@,
            Error::Sqlx(f) => f.spec_text(),
            Error::Anyhow { text } => text@,
            Error::Custom(_, text) => text@,
        }
    }

    /// Whether the error is the server's fault: it is logged and its text withheld.
    pub open spec fn is_internal(self) -> bool {
        match self {
            Error::Redis { .. } | Error::Anyhow { .. } => true,
            Error::Sqlx(f) => !(f is RowNotFound) && !f.is_unique_violation(),
            _ => false,
        }
    }

    pub open spec fn spec_status(self) -> u16 {
        match self {
            Error::Unauthorized => 401,
            Error::Forbidden => 403,
            Error::NotFound => 404,
            Error::JsonExtractorRejection { status, .. } => status,
            Error::ValidationError { .. } => 422,
            Error::Sqlx(DbFailure::RowNotFound { .. }) => 404,
            Error::Sqlx(f) => if f.is_unique_violation() {
                409
            } else {
                500
            },
            Error::Custom(status, _) => status,
            _ => 500,
        }
    }

    pub open spec fn spec_message(self) -> Seq<char> {
        if self.is_internal() {
            "Internal Server Error"@
        } else {
            match self {
                Error::Sqlx(DbFailure::RowNotFound { .. }) => "Database Record Not Found"@,
                Error::Sqlx(_) => "Unique Constraint Violation"@,
                _ => self.spec_text(),
            }
        }
    }

    /// The error's text.
    pub fn text(&self) -> (r: String)
        ensures
            r@ == self.spec_text(),
    {
        match self {
            Error::Unauthorized => String::from_str("Unauthorized"),
            Error::Forbidden => String::from_str("Forbidden"),
            Error::NotFound => String::from_str("Not Found"),
            Error::JsonExtractorRejection { body_text, .. } => body_text.clone(),
            Error::ValidationError { text } => text.clone(),
            Error::Redis { text } => text.clone(),
            Error::Sqlx(DbFailure::RowNotFound { text }) => text.clone(),
            Error::Sqlx(DbFailure::Database { text, .. }) => text.clone(),
            Error::Sqlx(DbFailure::Other { text }) => text.clone(),
            Error::Anyhow { text } => text.clone(),
            Error::Custom(_, text) => text.clone(),
        }
    }

    /// The status and message sent back for this error. Failures on the server's side
    /// all read "Internal Server Error" and hand their own text to the log instead.
    pub fn into_response(self) -> (r: ErrorResponse)
        ensures
            r.status == self.spec_status(),
            r.message@ == self.spec_message(),
            self.is_internal() <==> r.logged is Some,
            r.logged matches Some(line) ==> line@ == self.spec_text(),
    {
        let unique = match &self {
            Error::Sqlx(DbFailure::Database { code: Some(c), .. }) => c.eq(
                &String::from_str(UNIQUE_VIOLATION),
            ),
            _ => false,
        };
        match self {
            Error::Unauthorized | Error::Forbidden | Error::NotFound => {
                let status: u16 = match self {
                    Error::Unauthorized => 401,
                    Error::Forbidden => 403,
                    _ => 404,
                };
                ErrorResponse { status, message: self.text(), logged: None }
            },
            Error::JsonExtractorRejection { status, body_text } => ErrorResponse {
                status,
                message: body_text,
                logged: None,
            },
            Error::ValidationError { text } => ErrorResponse {
                status: 422,
                message: text,
                logged: None,
            },
            Error::Sqlx(DbFailure::RowNotFound { .. }) => ErrorResponse {
                status: 404,
                message: String::from_str("Database Record Not Found"),
                logged: None,
            },
            Error::Custom(status, text) => ErrorResponse { status, message: text, logged: None },
            _ => {
                if unique {
                    ErrorResponse {
                        status: 409,
                        message: String::from_str("Unique Constraint Violation"),
                        logged: None,
                    }
                } else {
                    internal_server_error(&self)
                }
            },
        }
    }
}

/// The response for a failure on the server's side: a bare 500 whose text goes to the log.
fn internal_server_error(err: &Error) -> (r: ErrorResponse)
    ensures
        r.status == 500,
        r.message@ == "Internal Server Error"@,
        r.logged matches Some(line) && line@ == err.spec_text(),
{
    ErrorResponse {
        status: 500,
        message: String::from_str("Internal Server Error"),
        logged: Some(err.text()),
    }
}

} // verus!
