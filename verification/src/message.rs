//! Assembly of the outgoing message: address headers, body parts, the
//! `multipart/mixed` container around them, and the message itself.

use vstd::prelude::*;
use crate::address::{address_header, header_text, mailbox_is_valid, parse_mailbox, stored_mailbox};
use crate::error::AssemblyError;
use crate::media_type::stored_media_type;
use crate::part::{
    body_parts, expected_parts, parts_of, resolved_of, BodyPart, PartView, Resolved,
    ResolvedAttachment,
};
use crate::text::crlf;

verus! {

/// lettre's multipart container: headers and an ordered list of parts.
#[verifier::external_type_specification]
#[verifier::external_body]
pub struct ExMultiPart(lettre::message::MultiPart);

/// lettre's message: headers, envelope and body, ready to be sent.
#[verifier::external_type_specification]
#[verifier::external_body]
pub struct ExMessage(lettre::Message);

/// The error with which lettre's message builder refuses a set of headers.
#[verifier::external_type_specification]
#[verifier::external_body]
pub struct ExBuilderError(lettre::error::Error);

/// What a multipart container holds.
pub struct MultipartView {
    /// Whether the container is of the kind `multipart/mixed`.
    pub mixed: bool,
    /// The parts, first to last.
    pub parts: Seq<PartView>,
}

/// What a message holds.
pub struct MessageView {
    /// The value of the `From` header.
    pub from: Seq<char>,
    /// The value of the `To` header.
    pub to: Seq<char>,
    /// The value of the `Subject` header.
    pub subject: Seq<char>,
    /// The multipart container that is the message's body.
    pub body: MultipartView,
}

/// What a multipart container holds: its kind, read from its `Content-Type`
/// header, and its parts in order. A part is read from its own headers (the
/// media type and the file name as they stand there) and from its content,
/// taken out of its transfer encoding.
pub uninterp spec fn multipart_view(body: lettre::message::MultiPart) -> MultipartView;

/// What a message holds: the values of its `From`, `To` and `Subject`
/// headers as they were set, before they are encoded for the wire, and the
/// multipart container that is its body, read as in [`multipart_view`].
pub uninterp spec fn message_view(message: lettre::Message) -> MessageView;

/// `MultiPart::mixed()` followed by `MultiPartBuilder::build`: a
/// `multipart/mixed` container that holds no part yet.
#[verifier::external_body]
fn empty_mixed() -> (body: lettre::message::MultiPart)
    ensures
        multipart_view(body).mixed,
        multipart_view(body).parts == Seq::<PartView>::empty(),
{
    lettre::message::MultiPart::mixed().build()
}

/// Makes a `text/html` part from `html` (`SinglePart::builder`, `header` with
/// `ContentType::TEXT_HTML`, `body`) and appends it with
/// `MultiPart::singlepart`, which pushes the part behind those already there
/// and leaves the container's headers as they are. `body` takes a string
/// with its line ends rewritten to carriage return and line feed, so that is
/// the text the part holds.
#[verifier::external_body]
fn with_html(body: lettre::message::MultiPart, html: &str) -> (extended:
    lettre::message::MultiPart)
    ensures
        multipart_view(extended).mixed == multipart_view(body).mixed,
        multipart_view(extended).parts == multipart_view(body).parts.push(
            (PartView::Html { html: crlf(html@) }),
        ),
{
    let part = lettre::message::SinglePart::builder()
        .header(lettre::message::header::ContentType::TEXT_HTML)
        .body(html.to_owned());
    body.singlepart(part)
}

/// Makes an attachment part (`Attachment::new` with the file name, `body` with
/// the bytes and the content type parsed from `source`) and appends it with
/// `MultiPart::singlepart`. `ContentType::parse` fails on a text that is no
/// media type, which the precondition rules out. The part keeps the file
/// name and the bytes as they are, and for the media type what lettre keeps
/// of `source`.
#[verifier::external_body]
fn with_attachment(
    body: lettre::message::MultiPart,
    filename: &str,
    source: &str,
    bytes: &[u8],
) -> (extended: lettre::message::MultiPart)
    requires
        stored_media_type(source@) is Some,
    ensures
        multipart_view(extended).mixed == multipart_view(body).mixed,
        multipart_view(extended).parts == multipart_view(body).parts.push(
            (PartView::Attachment {
                filename: filename@,
                media_type: stored_media_type(source@)->0,
                bytes: bytes@,
            }),
        ),
{
    let content_type = lettre::message::header::ContentType::parse(source).unwrap();
    let part = lettre::message::Attachment::new(filename.to_owned()).body(
        bytes.to_vec(),
        content_type,
    );
    body.singlepart(part)
}

/// Whether lettre's message builder makes a message out of these `From` and
/// `To` headers. Its checks read the headers' addresses and nothing else.
pub uninterp spec fn builder_accepts(from: Seq<char>, to: Seq<char>) -> bool;

/// `Message::builder()` with `from` and `to`, each parsed as a `Mailbox`,
/// `subject` and `multipart`. Parsing fails on a text that is no mailbox,
/// which the precondition rules out. Whether the builder then makes a
/// message depends on the two headers alone and goes by the name
/// [`builder_accepts`]. The builder adds the current date, so of the message
/// only this is said: its `From` and `To` headers hold what lettre writes
/// for the two mailboxes, its `Subject` header holds `subject`, and its body
/// is the container that was handed in.
#[verifier::external_body]
fn build_message(from: &str, to: &str, subject: &str, body: lettre::message::MultiPart) -> (built:
    Result<lettre::Message, lettre::error::Error>)
    requires
        stored_mailbox(from@) is Some,
        stored_mailbox(to@) is Some,
    ensures
        built.is_ok() == builder_accepts(from@, to@),
        built matches Ok(message) ==> message_view(message) == (MessageView {
            from: stored_mailbox(from@)->0,
            to: stored_mailbox(to@)->0,
            subject: subject@,
            body: multipart_view(body),
        }),
{
    lettre::Message::builder()
        .from(from.parse().unwrap())
        .to(to.parse().unwrap())
        .subject(subject)
        .multipart(body)
}

/// The `multipart/mixed` container of the given parts.
pub open spec fn mixed_of(parts: Seq<PartView>) -> MultipartView {
    MultipartView { mixed: true, parts }
}

/// Wraps a list of parts into one `multipart/mixed` container, keeping their
/// order. An empty list is refused.
pub fn wrap_parts(parts: &Vec<BodyPart>) -> (wrapped: Result<
    lettre::message::MultiPart,
    AssemblyError,
>)
    ensures
        parts@.len() == 0 ==> wrapped == Err::<lettre::message::MultiPart, AssemblyError>(
            AssemblyError::Empty,
        ),
        parts@.len() > 0 ==> (wrapped matches Ok(body) && multipart_view(body) == mixed_of(
            parts_of(parts@),
        )),
{
    if parts.len() == 0 {
        return Err(AssemblyError::Empty);
    }
    let mut body = empty_mixed();
    let mut i: usize = 0;
    while i < parts.len()
        invariant
            i <= parts.len(),
            multipart_view(body).mixed,
            multipart_view(body).parts == parts_of(parts@).take(i as int),
        decreases parts.len() - i,
    {
        body = match &parts[i] {
            BodyPart::Html { html } => with_html(body, html.as_str()),
            BodyPart::Attachment { filename, media_type, bytes } => with_attachment(
                body,
                filename.as_str(),
                media_type.source_text(),
                bytes.as_slice(),
            ),
        };
        assert(parts_of(parts@).take(i + 1) =~= parts_of(parts@).take(i as int).push(
            parts@[i as int]@,
        ));
        i += 1;
    }
    assert(parts_of(parts@).take(i as int) =~= parts_of(parts@));
    Ok(body)
}

/// A message put together: its headers and body parts as plain values, and
/// the message that lettre built from them.
#[derive(Debug)]
pub struct AssembledEmail {
    /// The value of the `From` header: the sender's mailbox as lettre
    /// writes it.
    pub from: String,
    /// The value of the `To` header: the recipient's mailbox as lettre
    /// writes it.
    pub to: String,
    pub subject: String,
    /// The body parts, first to last.
    pub parts: Vec<BodyPart>,
    /// The message to hand to the transport.
    pub message: lettre::Message,
}

impl View for AssembledEmail {
    type V = MessageView;

    /// What the plain fields say: these header values, and a
    /// `multipart/mixed` body of these parts.
    open spec fn view(&self) -> MessageView {
        MessageView {
            from: self.from@,
            to: self.to@,
            subject: self.subject@,
            body: mixed_of(parts_of(self.parts@)),
        }
    }
}

impl AssembledEmail {
    /// The message holds what the plain fields say.
    pub open spec fn wf(self) -> bool {
        message_view(self.message) == self@
    }
}

/// What becomes of the message builder's answer: a message that was built is
/// kept with its headers and parts; a refusal, which can only concern the
/// addresses, is an invalid address.
pub open spec fn sealed(
    built: Result<lettre::Message, lettre::error::Error>,
    from: String,
    to: String,
    subject: String,
    parts: Vec<BodyPart>,
) -> Result<AssembledEmail, AssemblyError> {
    match built {
        Ok(message) => Ok(AssembledEmail { from, to, subject, parts, message }),
        Err(_) => Err(AssemblyError::InvalidAddress),
    }
}

/// Turns the message builder's answer into the assembly's result.
pub fn seal(
    built: Result<lettre::Message, lettre::error::Error>,
    from: String,
    to: String,
    subject: String,
    parts: Vec<BodyPart>,
) -> (outcome: Result<AssembledEmail, AssemblyError>)
    ensures
        outcome == sealed(built, from, to, subject, parts),
{
    match built {
        Ok(message) => Ok(AssembledEmail { from, to, subject, parts, message }),
        Err(_) => Err(AssemblyError::InvalidAddress),
    }
}

/// Whether a message can be made for the address headers `from` and `to`:
/// both are mail addresses, and the message builder accepts them.
pub open spec fn deliverable(from: Seq<char>, to: Seq<char>) -> bool {
    mailbox_is_valid(from) && mailbox_is_valid(to) && builder_accepts(from, to)
}

/// The message assembled from two address headers, a subject, a rendered
/// body and resolved attachments: each mailbox as lettre writes it, the
/// subject, and a `multipart/mixed` body of the HTML part followed by the
/// attachments in their order.
pub open spec fn assembled(
    from: Seq<char>,
    to: Seq<char>,
    subject: Seq<char>,
    html: Seq<char>,
    attachments: Seq<Resolved>,
) -> MessageView {
    MessageView {
        from: stored_mailbox(from)->0,
        to: stored_mailbox(to)->0,
        subject,
        body: mixed_of(expected_parts(html, attachments)),
    }
}

/// What an assembly from two address headers, a subject, a rendered body and
/// resolved attachments comes to.
///
/// Where the headers are [`deliverable`], it is the message [`assembled`]
/// from them. Where they are not, it is [`AssemblyError::InvalidAddress`].
pub open spec fn assembles(
    outcome: Result<AssembledEmail, AssemblyError>,
    from: Seq<char>,
    to: Seq<char>,
    subject: Seq<char>,
    html: Seq<char>,
    attachments: Seq<Resolved>,
) -> bool {
    if deliverable(from, to) {
        &&& outcome matches Ok(email)
        &&& email@ == assembled(from, to, subject, html, attachments)
        &&& email.wf()
    } else {
        outcome == Err::<AssembledEmail, AssemblyError>(AssemblyError::InvalidAddress)
    }
}

/// Assembles the message for a sender, a recipient, a subject, a rendered
/// body and the attachments that were fetched.
pub fn assemble(
    sender_name: &str,
    sender_email: &str,
    recipient_name: &str,
    recipient_email: &str,
    subject: &str,
    html_body: &str,
    attachments: &Vec<ResolvedAttachment>,
) -> (outcome: Result<AssembledEmail, AssemblyError>)
    ensures
        assembles(
            outcome,
            header_text(sender_name@, sender_email@),
            header_text(recipient_name@, recipient_email@),
            subject@,
            html_body@,
            resolved_of(attachments@),
        ),
{
    let from_header = address_header(sender_name, sender_email);
    let to_header = address_header(recipient_name, recipient_email);
    let from = match parse_mailbox(from_header.as_str()) {
        Some(kept) => kept,
        None => {
            return Err(AssemblyError::InvalidAddress);
        },
    };
    let to = match parse_mailbox(to_header.as_str()) {
        Some(kept) => kept,
        None => {
            return Err(AssemblyError::InvalidAddress);
        },
    };
    let parts = body_parts(html_body, attachments);
    let body = match wrap_parts(&parts) {
        Ok(body) => body,
        Err(error) => {
            return Err(error);
        },
    };
    let built = build_message(from_header.as_str(), to_header.as_str(), subject, body);
    seal(built, from, to, subject.to_owned(), parts)
}

} // verus!
