//! What the caller of the service is told.

use vstd::prelude::*;
use crate::text::text_of;
use crate::error::{AssemblyError, FetchError, TransportError};

verus! {

/// The status of a mail that the transport took.
pub const STATUS_SENT: &'static str = "Email sent";

/// The status when an attachment could not be fetched.
pub const STATUS_FETCH_FAILED: &'static str = "Failed to download attachment";

/// The status when the message could not be built or was not taken.
pub const STATUS_SEND_FAILED: &'static str = "Failed to send email";

/// The status when there was nothing to send.
pub const STATUS_NO_CONTENT: &'static str = "No email body or attachments provided";

/// The outcome of a request: a status, and the cause where it failed.
#[derive(Debug, PartialEq, Eq)]
pub struct Response {
    pub status: String,
    pub error: Option<String>,
}

/// The mathematical content of a [`Response`].
pub struct ResponseView {
    pub status: Seq<char>,
    pub error: Option<Seq<char>>,
}

impl View for Response {
    type V = ResponseView;

    open spec fn view(&self) -> ResponseView {
        ResponseView {
            status: self.status@,
            error: text_of(self.error),
        }
    }
}

/// The response to a mail that was sent.
pub open spec fn success() -> ResponseView {
    ResponseView { status: STATUS_SENT@, error: None }
}

/// The response to a failed fetch with the given cause.
pub open spec fn fetch_failure(cause: Seq<char>) -> ResponseView {
    ResponseView { status: STATUS_FETCH_FAILED@, error: Some(cause) }
}

/// The response to a failed delivery with the given cause.
pub open spec fn send_failure(cause: Seq<char>) -> ResponseView {
    ResponseView { status: STATUS_SEND_FAILED@, error: Some(cause) }
}

/// The response to a failed assembly. An invalid address is a failure to
/// send; an empty message has a status of its own and no cause.
pub open spec fn assembly_failure(error: AssemblyError) -> ResponseView {
    match error {
        AssemblyError::InvalidAddress => send_failure(error.description()),
        AssemblyError::Empty => ResponseView { status: STATUS_NO_CONTENT@, error: None },
    }
}

impl Response {
    /// The mail was handed to the transport.
    pub fn sent() -> (response: Response)
        ensures
            response@ == success(),
    {
        Response { status: STATUS_SENT.to_owned(), error: None }
    }

    /// An attachment could not be fetched.
    pub fn fetch_failed(error: FetchError) -> (response: Response)
        ensures
            response@ == fetch_failure(error.cause@),
    {
        Response { status: STATUS_FETCH_FAILED.to_owned(), error: Some(error.cause) }
    }

    /// The transport did not take the message.
    pub fn send_failed(error: TransportError) -> (response: Response)
        ensures
            response@ == send_failure(error.cause@),
    {
        Response { status: STATUS_SEND_FAILED.to_owned(), error: Some(error.cause) }
    }

    /// The message could not be put together.
    pub fn assembly_failed(error: AssemblyError) -> (response: Response)
        ensures
            response@ == assembly_failure(error),
    {
        match error {
            AssemblyError::InvalidAddress => Response {
                status: STATUS_SEND_FAILED.to_owned(),
                error: Some(error.describe()),
            },
            AssemblyError::Empty => Response { status: STATUS_NO_CONTENT.to_owned(), error: None },
        }
    }
}

} // verus!
