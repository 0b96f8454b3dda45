//! Answers the gateway gives when a create or update was accepted.

use vstd::prelude::*;

verus! {

/// Salesforce accepted a create or update.
#[derive(Debug, Clone, PartialEq, Eq)]
pub struct TransactionSuccessfulResponse {
    message: String,
    status: u16,
}

impl TransactionSuccessfulResponse {
    pub closed spec fn spec_message(&self) -> Seq<char> {
        self.message@
    }

    pub closed spec fn spec_status(&self) -> u16 {
        self.status
    }

    /// An answer with the given text and HTTP status.
    pub fn new(message: String, status: u16) -> (response: Self)
        ensures
            response.spec_message() == message@,
            response.spec_status() == status,
    {
        Self { message, status }
    }

    /// Text of the answer.
    pub fn message(&self) -> (message: String)
        ensures
            message@ == self.spec_message(),
    {
        self.message.clone()
    }

    /// HTTP status of the answer.
    pub fn status(&self) -> (status: u16)
        ensures
            status == self.spec_status(),
    {
        self.status
    }

    /// Status and text the gateway answers with.
    pub fn into_response(self) -> (response: (u16, String))
        ensures
            response.0 == self.spec_status(),
            response.1@ == self.spec_message(),
    {
        (self.status, self.message)
    }
}

} // verus!
