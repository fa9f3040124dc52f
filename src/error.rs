use vstd::prelude::*;
use vstd::string::StringExecFns;

verus! {

/// The closed set of failures of the service, each carrying a human-readable detail.
#[derive(Debug, Clone)]
pub enum AppError {
    BadRequest(String),
    Unauthorized(String),
    Forbidden(String),
    Conflict(String),
    ServiceUnavailable(String),
    SchemaMismatch(String),
    Internal(String),
}

impl AppError {
    /// The HTTP status that each kind of failure maps to.
    pub open spec fn spec_status(self) -> u16 {
        match self {
            AppError::BadRequest(_) => 400,
            AppError::Unauthorized(_) => 401,
            AppError::Forbidden(_) => 403,
            AppError::Conflict(_) => 409,
            AppError::ServiceUnavailable(_) => 503,
            AppError::SchemaMismatch(_) => 500,
            AppError::Internal(_) => 500,
        }
    }

    pub open spec fn detail(self) -> Seq<char> {
        match self {
            AppError::BadRequest(d) => d@,
            AppError::Unauthorized(d) => d@,
            AppError::Forbidden(d) => d@,
            AppError::Conflict(d) => d@,
            AppError::ServiceUnavailable(d) => d@,
            AppError::SchemaMismatch(d) => d@,
            AppError::Internal(d) => d@,
        }
    }

    pub open spec fn kind_label(self) -> Seq<char> {
        match self {
            AppError::BadRequest(_) => "bad request: "@,
            AppError::Unauthorized(_) => "unauthorized: "@,
            AppError::Forbidden(_) => "forbidden: "@,
            AppError::Conflict(_) => "conflict: "@,
            AppError::ServiceUnavailable(_) => "service unavailable: "@,
            AppError::SchemaMismatch(_) => "schema mismatch: "@,
            AppError::Internal(_) => "internal server error: "@,
        }
    }

    pub fn status_code(&self) -> (r: u16)
        ensures
            r == self.spec_status(),
    {
        match self {
            AppError::BadRequest(_) => 400,
            AppError::Unauthorized(_) => 401,
            AppError::Forbidden(_) => 403,
            AppError::Conflict(_) => 409,
            AppError::ServiceUnavailable(_) => 503,
            AppError::SchemaMismatch(_) => 500,
            AppError::Internal(_) => 500,
        }
    }

    /// The message shown to clients: the kind's label followed by the detail.
    pub fn message(&self) -> (r: String)
        ensures
            r@ == self.kind_label() + self.detail(),
    {
        let (label, d) = match self {
            AppError::BadRequest(d) => ("bad request: ", d),
            AppError::Unauthorized(d) => ("unauthorized: ", d),
            AppError::Forbidden(d) => ("forbidden: ", d),
            AppError::Conflict(d) => ("conflict: ", d),
            AppError::ServiceUnavailable(d) => ("service unavailable: ", d),
            AppError::SchemaMismatch(d) => ("schema mismatch: ", d),
            AppError::Internal(d) => ("internal server error: ", d),
        };
        String::from_str(label).concat(d.as_str())
    }
}

/// A detail built from a fixed lead and a variable part.
pub fn detail_of(lead: &str, rest: &str) -> (r: String)
    ensures
        r@ == lead@ + rest@,
{
    String::from_str(lead).concat(rest)
}

} // verus!
