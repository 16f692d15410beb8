//! Error types of the library.

use vstd::prelude::*;
use vstd::string::StringExecFns;

verus! {

/// Authentication and lookup failures.
#[derive(Clone, Debug)]
pub enum AuthError {
    DuplicateValue(String),
    NotFound(String),
    AuthenticationError(String),
    GenericError(String),
}

impl AuthError {
    /// The message carried by the error.
    pub fn message(&self) -> (r: &String)
        ensures
            r@ == self.spec_message(),
    {
        match self {
            AuthError::DuplicateValue(m) => m,
            AuthError::NotFound(m) => m,
            AuthError::AuthenticationError(m) => m,
            AuthError::GenericError(m) => m,
        }
    }

    /// The message carried by the error.
    pub open spec fn spec_message(&self) -> Seq<char> {
        match self {
            AuthError::DuplicateValue(m) => m@,
            AuthError::NotFound(m) => m@,
            AuthError::AuthenticationError(m) => m@,
            AuthError::GenericError(m) => m@,
        }
    }
}

/// Request-level failures: what a report or mutation surfaces to the caller.
#[derive(Clone, Debug)]
pub enum Error {
    BadRequest(String),
    InternalServerError(String),
    Unauthorized,
    Forbidden,
    NotFound(String),
    BlockingError(String),
}

impl PartialEq for Error {
    fn eq(&self, other: &Self) -> (r: bool) {
        match (self, other) {
            (Error::BadRequest(a), Error::BadRequest(b)) => a.eq(b),
            (Error::InternalServerError(a), Error::InternalServerError(b)) => a.eq(b),
            (Error::Unauthorized, Error::Unauthorized) => true,
            (Error::Forbidden, Error::Forbidden) => true,
            (Error::NotFound(a), Error::NotFound(b)) => a.eq(b),
            (Error::BlockingError(a), Error::BlockingError(b)) => a.eq(b),
            _ => false,
        }
    }
}

impl vstd::std_specs::cmp::PartialEqSpecImpl for Error {
    open spec fn obeys_eq_spec() -> bool {
        true
    }

    open spec fn eq_spec(&self, other: &Self) -> bool {
        match (self, other) {
            (Error::BadRequest(a), Error::BadRequest(b)) => a@ == b@,
            (Error::InternalServerError(a), Error::InternalServerError(b)) => a@ == b@,
            (Error::Unauthorized, Error::Unauthorized) => true,
            (Error::Forbidden, Error::Forbidden) => true,
            (Error::NotFound(a), Error::NotFound(b)) => a@ == b@,
            (Error::BlockingError(a), Error::BlockingError(b)) => a@ == b@,
            _ => false,
        }
    }
}

/// The user-facing shape of an error response.
#[derive(Clone, Debug)]
pub struct ErrorResponse {
    pub errors: Vec<String>,
}

impl ErrorResponse {
    /// A response holding one message.
    pub fn from_message(error: &str) -> (r: ErrorResponse)
        ensures
            r.errors.deep_view() =~= seq![error@],
    {
        let mut errors: Vec<String> = Vec::new();
        errors.push(String::from_str(error));
        proof {
            assert(errors.deep_view() =~= seq![error@]);
        }
        ErrorResponse { errors }
    }

    /// A response holding a list of messages.
    pub fn from_messages(errors: Vec<String>) -> (r: ErrorResponse)
        ensures
            r.errors == errors,
    {
        ErrorResponse { errors }
    }
}

} // verus!
