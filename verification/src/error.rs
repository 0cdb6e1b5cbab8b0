use vstd::prelude::*;

verus! {

/// Every way a request can fail.
///
/// Database failures carry the driver's message; the other payloads are
/// human readable explanations.
#[derive(Debug, PartialEq, Eq)]
pub enum VeloxError {
    SqlxError(String),
    ValidationError(String),
    EmailError,
    JwtError,
    InvalidToken,
    NotFound,
    RouteNotFound,
    AuthError,
    InternalError,
    EnvError(String),
    StorageLimitExceeded,
}

/// The HTTP status that answers a failure of the given variant.
pub open spec fn spec_status_code(e: VeloxError) -> u16 {
    match e {
        VeloxError::SqlxError(_) => 500,
        VeloxError::ValidationError(_) => 400,
        VeloxError::EmailError => 500,
        VeloxError::JwtError => 500,
        VeloxError::InvalidToken => 401,
        VeloxError::NotFound => 404,
        VeloxError::RouteNotFound => 404,
        VeloxError::AuthError => 401,
        VeloxError::InternalError => 500,
        VeloxError::EnvError(_) => 500,
        VeloxError::StorageLimitExceeded => 400,
    }
}

/// The machine-readable code in the body of the response for a failure of
/// the given variant.
pub open spec fn spec_error_code(e: VeloxError) -> Seq<char> {
    match e {
        VeloxError::SqlxError(_) => "DATABASE_ERROR"@,
        VeloxError::ValidationError(_) => "VALIDATION_ERROR"@,
        VeloxError::EmailError => "EMAIL_ERROR"@,
        VeloxError::JwtError => "JWT_ERROR"@,
        VeloxError::InvalidToken => "INVALID_TOKEN"@,
        VeloxError::NotFound => "RESOURCE_NOT_FOUND"@,
        VeloxError::RouteNotFound => "ROUTE_NOT_FOUND"@,
        VeloxError::AuthError => "AUTH_ERROR"@,
        VeloxError::InternalError => "INTERNAL_ERROR"@,
        VeloxError::EnvError(_) => "ENV_ERROR"@,
        VeloxError::StorageLimitExceeded => "StorageLimitExceeded"@,
    }
}

impl VeloxError {
    /// The code in the body of the response for this failure.
    pub fn error_code(&self) -> (code: &'static str)
        ensures
            code@ == spec_error_code(*self),
    {
        match self {
            VeloxError::SqlxError(_) => "DATABASE_ERROR",
            VeloxError::ValidationError(_) => "VALIDATION_ERROR",
            VeloxError::EmailError => "EMAIL_ERROR",
            VeloxError::JwtError => "JWT_ERROR",
            VeloxError::InvalidToken => "INVALID_TOKEN",
            VeloxError::NotFound => "RESOURCE_NOT_FOUND",
            VeloxError::RouteNotFound => "ROUTE_NOT_FOUND",
            VeloxError::AuthError => "AUTH_ERROR",
            VeloxError::InternalError => "INTERNAL_ERROR",
            VeloxError::EnvError(_) => "ENV_ERROR",
            VeloxError::StorageLimitExceeded => "StorageLimitExceeded",
        }
    }

    /// The status code and the code of the response for this failure.
    pub fn response_parts(&self) -> (res: (u16, &'static str))
        ensures
            res.0 == spec_status_code(*self),
            res.1@ == spec_error_code(*self),
    {
        (self.status_code(), self.error_code())
    }

    /// The HTTP status code of the response for this failure.
    pub fn status_code(&self) -> (code: u16)
        ensures
            code == spec_status_code(*self),
    {
        match self {
            VeloxError::SqlxError(_) => 500,
            VeloxError::ValidationError(_) => 400,
            VeloxError::EmailError => 500,
            VeloxError::JwtError => 500,
            VeloxError::InvalidToken => 401,
            VeloxError::NotFound => 404,
            VeloxError::RouteNotFound => 404,
            VeloxError::AuthError => 401,
            VeloxError::InternalError => 500,
            VeloxError::EnvError(_) => 500,
            VeloxError::StorageLimitExceeded => 400,
        }
    }
}

} // verus!
