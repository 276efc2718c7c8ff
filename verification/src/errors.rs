//! Error types of the domain and of the application services.
use vstd::prelude::*;

verus! {

/// Errors raised by repositories and by the domain logic.
#[derive(Debug)]
pub enum DomainError {
    /// GitHub refused the request because a rate limit was hit; carries the
    /// HTTP status code of the refusal.
    RateLimited(u16),
    /// Any other failure, with a message for the user.
    InternalError(String),
}

/// Errors returned by the application services.
#[derive(Debug)]
pub enum ApplicationError {
    /// The request was refused because it is invalid.
    ValidationError(String),
    /// GitHub refused the request because a rate limit was hit.
    RateLimited(u16),
    /// Any other failure, with a message for the user.
    InternalError(String),
}

/// The application error that a domain error becomes.
pub open spec fn application_error_of(e: DomainError) -> ApplicationError {
    match e {
        DomainError::RateLimited(status) => ApplicationError::RateLimited(status),
        DomainError::InternalError(message) => ApplicationError::InternalError(message),
    }
}

impl From<DomainError> for ApplicationError {
    fn from(e: DomainError) -> (r: ApplicationError) {
        match e {
            DomainError::RateLimited(status) => ApplicationError::RateLimited(status),
            DomainError::InternalError(message) => ApplicationError::InternalError(message),
        }
    }
}

impl vstd::std_specs::convert::FromSpecImpl<DomainError> for ApplicationError {
    open spec fn obeys_from_spec() -> bool {
        true
    }

    open spec fn from_spec(e: DomainError) -> ApplicationError {
        application_error_of(e)
    }
}

/// A domain error keeps its kind and its message, or status, when it
/// becomes an application error.
pub proof fn lemma_application_error_keeps_kind(e: DomainError)
    ensures
        e matches DomainError::RateLimited(status) ==> application_error_of(e)
            == ApplicationError::RateLimited(status),
        e matches DomainError::InternalError(m) ==> application_error_of(e)
            == ApplicationError::InternalError(m),
{
}

} // verus!
