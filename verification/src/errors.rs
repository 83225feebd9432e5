//! The error taxonomy every component reports through: internal failures,
//! malformed input, missing resources, permission refusals, throttling, and
//! field-level validation findings.

use vstd::prelude::*;

use vstd::string::StringExecFns;

verus! {

/// One finding of request validation: the field it concerns and a
/// human-readable message.
#[derive(Debug)]
pub struct ValidationIssue {
    pub field: String,
    pub message: String,
}

/// The service-wide error type. A `Forbidden` with an empty message is the
/// deliberate shape of a ban rejection: the banned party learns nothing.
#[derive(Debug)]
pub enum ServiceError {
    InternalServerError(String),
    BadRequest(String),
    NotFound(String),
    Unauthorized,
    Forbidden(String),
    TooManyRequests(String),
    ValidationFailed(Vec<ValidationIssue>),
}

impl ServiceError {
    /// The HTTP status code each variant maps to.
    pub fn status_code(&self) -> (code: u16)
        ensures
            code == match self {
                ServiceError::InternalServerError(_) => 500u16,
                ServiceError::BadRequest(_) => 400u16,
                ServiceError::NotFound(_) => 404u16,
                ServiceError::Unauthorized => 401u16,
                ServiceError::Forbidden(_) => 403u16,
                ServiceError::TooManyRequests(_) => 429u16,
                ServiceError::ValidationFailed(_) => 400u16,
            },
    {
        match self {
            ServiceError::InternalServerError(_) => 500,
            ServiceError::BadRequest(_) => 400,
            ServiceError::NotFound(_) => 404,
            ServiceError::Unauthorized => 401,
            ServiceError::Forbidden(_) => 403,
            ServiceError::TooManyRequests(_) => 429,
            ServiceError::ValidationFailed(_) => 400,
        }
    }

    /// The user-visible message: the variant's payload, or a fixed phrase for
    /// the payload-free variants.
    pub fn message(&self) -> (msg: String)
        ensures
            msg@ == match self {
                ServiceError::InternalServerError(m) => m@,
                ServiceError::BadRequest(m) => m@,
                ServiceError::NotFound(m) => m@,
                ServiceError::Unauthorized => "Unauthorized"@,
                ServiceError::Forbidden(m) => m@,
                ServiceError::TooManyRequests(m) => m@,
                ServiceError::ValidationFailed(_) => "Input validation failed"@,
            },
    {
        match self {
            ServiceError::InternalServerError(m) => m.clone(),
            ServiceError::BadRequest(m) => m.clone(),
            ServiceError::NotFound(m) => m.clone(),
            ServiceError::Unauthorized => String::from_str("Unauthorized"),
            ServiceError::Forbidden(m) => m.clone(),
            ServiceError::TooManyRequests(m) => m.clone(),
            ServiceError::ValidationFailed(_) => String::from_str("Input validation failed"),
        }
    }
}

} // verus!
