//! The ways in which handling a request can fail.

use vstd::prelude::*;

verus! {

/// Where an attachment fetch broke off.
#[derive(Clone, Copy, Debug, PartialEq, Eq, Structural)]
pub enum FetchStage {
    /// The request itself could not be completed (name lookup, connection,
    /// timeout).
    Request,
    /// A response arrived, but its body could not be read to the end.
    Body,
}

impl FetchStage {
    /// The stage's name as a sequence of characters.
    pub open spec fn label(self) -> Seq<char> {
        match self {
            FetchStage::Request => "request"@,
            FetchStage::Body => "body"@,
        }
    }

    /// The stage's name: `"request"` or `"body"`.
    pub fn name(&self) -> (name: &'static str)
        ensures
            name@ == self.label(),
    {
        match self {
            FetchStage::Request => "request",
            FetchStage::Body => "body",
        }
    }
}

/// An attachment that could not be fetched.
#[derive(Debug, PartialEq, Eq)]
pub struct FetchError {
    pub stage: FetchStage,
    /// What the HTTP client reported.
    pub cause: String,
}

/// A message that could not be put together.
#[derive(Clone, Copy, Debug, PartialEq, Eq, Structural)]
pub enum AssemblyError {
    /// A `"name <email>"` header is not a mail address.
    InvalidAddress,
    /// There is no part to wrap, not even the HTML body.
    Empty,
}

impl AssemblyError {
    /// The text of [`AssemblyError::describe`].
    pub open spec fn description(self) -> Seq<char> {
        match self {
            AssemblyError::InvalidAddress => "invalid mail address"@,
            AssemblyError::Empty => "no email body or attachments provided"@,
        }
    }

    /// A sentence for the caller of the service.
    pub fn describe(&self) -> (text: String)
        ensures
            text@ == self.description(),
    {
        match self {
            AssemblyError::InvalidAddress => "invalid mail address".to_owned(),
            AssemblyError::Empty => "no email body or attachments provided".to_owned(),
        }
    }
}

/// A message that the mail relay did not take.
#[derive(Debug, PartialEq, Eq)]
pub struct TransportError {
    /// What the transport reported.
    pub cause: String,
}

} // verus!
