//! What can go wrong when a request is put together or answered.

use vstd::prelude::*;

verus! {

/// A failure reported by the transaction signer, carried as it came.
#[derive(Debug, Clone, PartialEq, Eq)]
pub struct SignerError {
    pub message: String,
}

/// A failure reported by the REST side, carried as it came.
#[derive(Debug, Clone, PartialEq, Eq)]
pub struct RestError {
    pub message: String,
}

/// Error type shared by every fallible operation of the client.
#[derive(Debug, Clone, PartialEq, Eq)]
pub enum Error {
    /// A setting is missing, or two settings do not go together.
    InvalidConfig { field: &'static str, why: &'static str },
    /// The operation needs an account, and none has been configured.
    NotAuthenticated,
    /// The signer failed.
    Signer(SignerError),
    /// A REST request failed.
    Rest(RestError),
}

/// A signer failure is reported as what it is.
impl From<SignerError> for Error {
    fn from(failure: SignerError) -> (error: Self) {
        Error::Signer(failure)
    }
}

impl vstd::std_specs::convert::FromSpecImpl<SignerError> for Error {
    open spec fn obeys_from_spec() -> bool {
        true
    }

    open spec fn from_spec(failure: SignerError) -> Self {
        Error::Signer(failure)
    }
}

} // verus!
