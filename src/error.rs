use vstd::prelude::*;

verus! {

/// The ways in which an authentication operation can fail.
#[derive(Debug, Clone, Copy, PartialEq, Eq, Structural)]
pub enum AuthError {
    /// An account with the requested name is already registered.
    AccountExists,
    /// No (active) account matches the given name or identifier.
    AccountNotFound,
    /// The password does not match the stored digest.
    InvalidCredentials,
    /// The token names no live session.
    SessionNotFound,
    /// A backing store could not be reached.
    StoreUnavailable,
    /// A backing store did not answer in time.
    Timeout,
    /// A write that should have succeeded did not (for instance a freshly
    /// generated identifier that is already taken).
    InternalInconsistency,
}

impl AuthError {
    /// A short human-readable description of the error.
    pub fn message(&self) -> (r: &'static str) {
        match self {
            AuthError::AccountExists => "account exists already",
            AuthError::AccountNotFound => "account does not exist",
            AuthError::InvalidCredentials => "wrong account or password",
            AuthError::SessionNotFound => "no such session",
            AuthError::StoreUnavailable => "store unavailable",
            AuthError::Timeout => "store timed out",
            AuthError::InternalInconsistency => "internal inconsistency",
        }
    }
}

} // verus!
