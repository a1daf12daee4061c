//! Media types of attachments, and the fallback for one that does not parse.

use vstd::prelude::*;
use crate::text::text_of;

verus! {

/// The media type given to an attachment whose declared type does not parse.
pub const FALLBACK_MEDIA_TYPE: &'static str = "application/octet-stream";

/// The text that lettre keeps for the media type that it parses from `text`:
/// the raw value of the `Content-Type` header made of it. `None` where
/// lettre's `ContentType` parser refuses `text`.
pub uninterp spec fn stored_media_type(text: Seq<char>) -> Option<Seq<char>>;

/// Whether lettre's `ContentType` parser takes `text` as a media type.
pub open spec fn media_type_is_valid(text: Seq<char>) -> bool {
    stored_media_type(text) is Some
}

/// Parses `text` with lettre's `FromStr` for `ContentType` (the `mime` crate's
/// parser underneath), sets the result as the header of an empty `Headers`
/// and reads its raw value back with `Headers::get_raw`. Parser and header
/// read nothing but `text`. A `type/subtype` of token characters without
/// parameters is kept in lower case, so `application/octet-stream` is kept
/// as it is, which the last clause records.
#[verifier::external_body]
fn parse_media_type(text: &str) -> (stored: Option<String>)
    ensures
        text_of(stored) == stored_media_type(text@),
        text@ == FALLBACK_MEDIA_TYPE@ ==> text_of(stored) == Some(FALLBACK_MEDIA_TYPE@),
{
    match text.parse::<lettre::message::header::ContentType>() {
        Ok(content_type) => {
            let mut headers = lettre::message::header::Headers::new();
            headers.set(content_type);
            headers.get_raw("Content-Type").map(str::to_owned)
        },
        Err(_) => None,
    }
}

/// A media type that lettre accepts: the text that it is parsed from, and the
/// text that lettre keeps for it.
#[derive(Debug, PartialEq, Eq)]
pub struct MediaType {
    source: String,
    text: String,
}

impl View for MediaType {
    type V = Seq<char>;

    /// The media type as lettre keeps it and writes it into a header.
    closed spec fn view(&self) -> Seq<char> {
        self.text@
    }
}

impl MediaType {
    #[verifier::type_invariant]
    spec fn kept(self) -> bool {
        stored_media_type(self.source@) == Some(self.text@)
    }

    /// The text that the media type is parsed from.
    pub closed spec fn source(self) -> Seq<char> {
        self.source@
    }

    /// The source parses, and the media type is what lettre keeps for it.
    /// This holds of every `MediaType` that the library hands out.
    pub open spec fn wf(self) -> bool {
        stored_media_type(self.source()) == Some(self@)
    }

    /// The media type as lettre keeps it.
    pub fn as_str(&self) -> (text: &str)
        ensures
            text@ == self@,
    {
        self.text.as_str()
    }

    /// The text to hand to lettre's parser for this media type.
    pub fn source_text(&self) -> (source: &str)
        ensures
            source@ == self.source(),
            self.wf(),
    {
        proof {
            use_type_invariant(self);
        }
        self.source.as_str()
    }
}

/// The media type that a part with the declared type `declared` carries:
/// what lettre keeps for the declared type, or `application/octet-stream`
/// where the declared type does not parse.
pub open spec fn effective_media_type(declared: Seq<char>) -> Seq<char> {
    match stored_media_type(declared) {
        Some(kept) => kept,
        None => FALLBACK_MEDIA_TYPE@,
    }
}

/// The text from which the media type for a declared type is parsed: the
/// declared type, or the fallback.
pub open spec fn effective_source(declared: Seq<char>) -> Seq<char> {
    if media_type_is_valid(declared) {
        declared
    } else {
        FALLBACK_MEDIA_TYPE@
    }
}

/// Settles the media type of an attachment: the declared one where it parses,
/// `application/octet-stream` where it does not. The fallback, declared as
/// such, is itself.
pub fn resolve_media_type(declared: &str) -> (resolved: MediaType)
    ensures
        resolved@ == effective_media_type(declared@),
        resolved.source() == effective_source(declared@),
        resolved.wf(),
        declared@ == FALLBACK_MEDIA_TYPE@ ==> resolved@ == FALLBACK_MEDIA_TYPE@,
{
    match parse_media_type(declared) {
        Some(text) => MediaType { source: declared.to_owned(), text },
        None => match parse_media_type(FALLBACK_MEDIA_TYPE) {
            Some(text) => MediaType { source: FALLBACK_MEDIA_TYPE.to_owned(), text },
            None => unreached(),
        },
    }
}

} // verus!
