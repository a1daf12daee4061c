//! The parts of a message body as plain values: the rendered HTML first, then
//! one part for each attachment.

use vstd::prelude::*;
use crate::media_type::{effective_media_type, resolve_media_type, MediaType};
use crate::text::crlf;

verus! {

/// A declared attachment together with the bytes that were fetched for it.
#[derive(Debug, PartialEq, Eq)]
pub struct ResolvedAttachment {
    pub filename: String,
    /// The media type as the request declared it.
    pub mime_type: String,
    pub bytes: Vec<u8>,
}

/// The mathematical content of a [`ResolvedAttachment`].
pub struct Resolved {
    pub filename: Seq<char>,
    pub mime_type: Seq<char>,
    pub bytes: Seq<u8>,
}

impl View for ResolvedAttachment {
    type V = Resolved;

    open spec fn view(&self) -> Resolved {
        Resolved { filename: self.filename@, mime_type: self.mime_type@, bytes: self.bytes@ }
    }
}

/// The contents of a list of resolved attachments, in order.
pub open spec fn resolved_of(attachments: Seq<ResolvedAttachment>) -> Seq<Resolved> {
    attachments.map_values(|a: ResolvedAttachment| a@)
}

/// One part of a message body.
#[derive(Debug, PartialEq, Eq)]
pub enum BodyPart {
    /// The message text, as an HTML fragment. In the message its line ends
    /// are carriage return and line feed.
    Html { html: String },
    /// A file, with the media type that its part carries.
    Attachment { filename: String, media_type: MediaType, bytes: Vec<u8> },
}

/// What a part of a message holds.
pub enum PartView {
    /// A `text/html` part with this text as its content.
    Html { html: Seq<char> },
    /// An attachment with this file name and content, and with this text as
    /// its media type.
    Attachment { filename: Seq<char>, media_type: Seq<char>, bytes: Seq<u8> },
}

impl View for BodyPart {
    type V = PartView;

    /// What the part holds once it stands in a message.
    open spec fn view(&self) -> PartView {
        match self {
            BodyPart::Html { html } => PartView::Html { html: crlf(html@) },
            BodyPart::Attachment { filename, media_type, bytes } => PartView::Attachment {
                filename: filename@,
                media_type: media_type@,
                bytes: bytes@,
            },
        }
    }
}

/// The contents of a list of parts, in order.
pub open spec fn parts_of(parts: Seq<BodyPart>) -> Seq<PartView> {
    parts.map_values(|p: BodyPart| p@)
}

/// The part made for one attachment: its file name and bytes as they are, its
/// media type what lettre keeps for the declared one, or
/// `application/octet-stream` where the declared one does not parse.
pub open spec fn attachment_part(attachment: Resolved) -> PartView {
    PartView::Attachment {
        filename: attachment.filename,
        media_type: effective_media_type(attachment.mime_type),
        bytes: attachment.bytes,
    }
}

/// The parts of a message with the body `html` and the given attachments: the
/// HTML part first, with mail line ends, then the attachments in their order.
pub open spec fn expected_parts(html: Seq<char>, attachments: Seq<Resolved>) -> Seq<PartView> {
    seq![PartView::Html { html: crlf(html) }] + attachments.map_values(
        |a: Resolved| attachment_part(a),
    )
}

/// Builds the list of parts for a rendered body and its attachments.
pub fn body_parts(html: &str, attachments: &Vec<ResolvedAttachment>) -> (parts: Vec<BodyPart>)
    ensures
        parts_of(parts@) == expected_parts(html@, resolved_of(attachments@)),
        parts@.len() == attachments@.len() + 1,
{
    let mut parts: Vec<BodyPart> = Vec::new();
    parts.push(BodyPart::Html { html: html.to_owned() });
    let mut i: usize = 0;
    while i < attachments.len()
        invariant
            i <= attachments.len(),
            parts@.len() == i + 1,
            parts@[0]@ == (PartView::Html { html: crlf(html@) }),
            forall|k: int|
                0 <= k < i ==> (#[trigger] parts@[k + 1])@ == attachment_part(attachments@[k]@),
        decreases attachments.len() - i,
    {
        let attachment = &attachments[i];
        let part = BodyPart::Attachment {
            filename: attachment.filename.clone(),
            media_type: resolve_media_type(attachment.mime_type.as_str()),
            bytes: attachment.bytes.clone(),
        };
        parts.push(part);
        i += 1;
    }
    proof {
        let got = parts_of(parts@);
        let want = expected_parts(html@, resolved_of(attachments@));
        assert forall|j: int| 0 <= j < got.len() implies got[j] == want[j] by {
            if j > 0 {
                assert(parts@[(j - 1) + 1]@ == attachment_part(attachments@[j - 1]@));
            }
        }
        assert(got =~= want);
    }
    parts
}

} // verus!
