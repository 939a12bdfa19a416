use vstd::prelude::*;

verus! {

/// Every way a request can be rejected.
#[derive(Clone, Copy, Debug, PartialEq, Eq, Structural)]
pub enum WebServerError {
    /// The credentials header is missing or is not text.
    BadRequest,
    /// The presented token is not a member of the token store.
    IncorrectAuth,
    /// The code is absent from the mapping cache.
    NotFound,
    /// The code already exists or is reserved, or the account exists.
    Conflict,
    /// The stored destination cannot be sent as a redirect target.
    InvalidRedirectTarget,
    /// The durable store could not carry out the request.
    StoreUnavailable,
    /// A process-wide component was never set up.
    Uninitialized,
    /// The durable store did not affect exactly one row: cache and store
    /// have diverged.
    ConsistencyViolation,
    /// A stored account record lacks the separator between salt and hash.
    NoSalt,
}

impl WebServerError {
    /// The HTTP status that reports this error.
    pub open spec fn status_of(self) -> u16 {
        match self {
            WebServerError::BadRequest => 400,
            WebServerError::IncorrectAuth => 401,
            WebServerError::NotFound => 404,
            WebServerError::Conflict => 409,
            WebServerError::InvalidRedirectTarget => 500,
            WebServerError::StoreUnavailable => 500,
            WebServerError::Uninitialized => 500,
            WebServerError::ConsistencyViolation => 500,
            WebServerError::NoSalt => 500,
        }
    }

    /// The HTTP status that reports this error.
    pub fn status(&self) -> (code: u16)
        ensures
            code == self.status_of(),
    {
        match self {
            WebServerError::BadRequest => 400,
            WebServerError::IncorrectAuth => 401,
            WebServerError::NotFound => 404,
            WebServerError::Conflict => 409,
            _ => 500,
        }
    }

    /// Whether the error reports a broken invariant of the service rather
    /// than a fault of the request: such an error is to be logged apart.
    pub fn is_fatal(&self) -> (fatal: bool)
        ensures
            fatal == (*self == WebServerError::ConsistencyViolation),
    {
        match self {
            WebServerError::ConsistencyViolation => true,
            _ => false,
        }
    }
}

} // verus!
