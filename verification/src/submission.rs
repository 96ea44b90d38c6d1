//! What a submitted transaction gave.

use vstd::prelude::*;

use crate::errors::{Error, SignerError};

verus! {

/// Generic submission wrapper containing the signed transaction payload and the API response.
#[derive(Debug)]
pub struct Submission<T, R> {
    payload: T,
    response: R,
}

impl<T, R> View for Submission<T, R> {
    type V = (T, R);

    closed spec fn view(&self) -> (T, R) {
        (self.payload, self.response)
    }
}

impl<T: Clone, R: Clone> Clone for Submission<T, R> {
    /// A clone holds a clone of the payload and a clone of the response.
    fn clone(&self) -> (copy: Self)
        ensures
            cloned(self@.0, copy@.0),
            cloned(self@.1, copy@.1),
    {
        Submission { payload: self.payload.clone(), response: self.response.clone() }
    }
}

impl<T, R> Submission<T, R> {
    pub(crate) fn new(payload: T, response: R) -> (submission: Self)
        ensures
            submission@ == (payload, response),
    {
        Submission { payload, response }
    }

    /// What the signer's answer to a transaction comes to: the transaction and the response to
    /// it, or the signer's failure.
    pub fn from_reply(reply: Result<(T, R), SignerError>) -> (submission: Result<Self, Error>)
        ensures
            match reply {
                Ok((payload, response)) => {
                    &&& submission is Ok
                    &&& submission->Ok_0@ == (payload, response)
                },
                Err(failure) => submission == Err::<Self, Error>(Error::Signer(failure)),
            },
    {
        match reply {
            Ok((payload, response)) => Ok(Submission::new(payload, response)),
            Err(failure) => Err(Error::from(failure)),
        }
    }

    pub fn payload(&self) -> (payload: &T)
        ensures
            *payload == self@.0,
    {
        &self.payload
    }

    pub fn response(&self) -> (response: &R)
        ensures
            *response == self@.1,
    {
        &self.response
    }

    pub fn into_payload(self) -> (payload: T)
        ensures
            payload == self@.0,
    {
        self.payload
    }

    pub fn into_parts(self) -> (parts: (T, R))
        ensures
            parts == self@,
    {
        (self.payload, self.response)
    }
}

} // verus!
