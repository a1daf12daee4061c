//! The request as the service receives it.

use vstd::prelude::*;

verus! {

/// One remote file to attach.
#[derive(Debug, PartialEq, Eq)]
pub struct AttachmentRequest {
    /// Where the bytes are fetched from.
    pub url: String,
    /// The file name shown in the message.
    pub filename: String,
    /// The declared media type; one that does not parse is replaced by
    /// `application/octet-stream`.
    pub mime_type: String,
}

/// The mathematical content of an [`AttachmentRequest`].
pub struct AttachmentSpec {
    pub url: Seq<char>,
    pub filename: Seq<char>,
    pub mime_type: Seq<char>,
}

impl View for AttachmentRequest {
    type V = AttachmentSpec;

    open spec fn view(&self) -> AttachmentSpec {
        AttachmentSpec { url: self.url@, filename: self.filename@, mime_type: self.mime_type@ }
    }
}

/// The declared attachments of a list, in order.
pub open spec fn specs_of(attachments: Seq<AttachmentRequest>) -> Seq<AttachmentSpec> {
    attachments.map_values(|a: AttachmentRequest| a@)
}

/// A mail to send: who sends it to whom, its subject, its body in markdown,
/// and the files to attach.
#[derive(Debug, PartialEq, Eq)]
pub struct EmailRequest {
    pub recipient_email: String,
    pub recipient_name: String,
    pub sender_email: String,
    pub sender_name: String,
    pub subject: String,
    /// Markdown source of the message body.
    pub body: String,
    /// Absent and empty both mean that nothing is attached.
    pub attachments: Option<Vec<AttachmentRequest>>,
}

/// The mathematical content of an [`EmailRequest`].
pub struct RequestView {
    pub recipient_email: Seq<char>,
    pub recipient_name: Seq<char>,
    pub sender_email: Seq<char>,
    pub sender_name: Seq<char>,
    pub subject: Seq<char>,
    pub body: Seq<char>,
    /// The declared attachments in order; empty where none were declared.
    pub attachments: Seq<AttachmentSpec>,
}

impl View for EmailRequest {
    type V = RequestView;

    open spec fn view(&self) -> RequestView {
        RequestView {
            recipient_email: self.recipient_email@,
            recipient_name: self.recipient_name@,
            sender_email: self.sender_email@,
            sender_name: self.sender_name@,
            subject: self.subject@,
            body: self.body@,
            attachments: match self.attachments {
                Some(list) => specs_of(list@),
                None => Seq::empty(),
            },
        }
    }
}

impl EmailRequest {
    /// How many attachments the request declares.
    pub fn attachment_count(&self) -> (count: usize)
        ensures
            count == self@.attachments.len(),
    {
        match &self.attachments {
            Some(list) => list.len(),
            None => 0,
        }
    }

    /// The declared attachment at `index`, counted from zero.
    pub fn attachment(&self, index: usize) -> (declared: &AttachmentRequest)
        requires
            index < self@.attachments.len(),
        ensures
            declared@ == self@.attachments[index as int],
    {
        match &self.attachments {
            Some(list) => &list[index],
            None => unreached(),
        }
    }
}

} // verus!
