//! Address headers of the form `name <email>`.

use vstd::prelude::*;
use crate::text::text_of;

verus! {

/// The text that lettre writes for the mailbox that it parses from `text`:
/// the raw value of a `From` or `To` header that holds this mailbox alone.
/// `None` where lettre's mailbox parser refuses `text`.
pub uninterp spec fn stored_mailbox(text: Seq<char>) -> Option<Seq<char>>;

/// Whether lettre's mailbox parser takes `text` as one mail address, with or
/// without a display name.
pub open spec fn mailbox_is_valid(text: Seq<char>) -> bool {
    stored_mailbox(text) is Some
}

/// Parses `text` with lettre's `FromStr` for `Mailbox` and writes the mailbox
/// out again with its `Display`, which is the text that a header keeps for
/// it: the name trimmed, left out where empty, and quoted where it needs to
/// be. Parser and writer read nothing but `text`.
#[verifier::external_body]
pub(crate) fn parse_mailbox(text: &str) -> (stored: Option<String>)
    ensures
        text_of(stored) == stored_mailbox(text@),
{
    match text.parse::<lettre::message::Mailbox>() {
        Ok(mailbox) => Some(mailbox.to_string()),
        Err(_) => None,
    }
}

/// The header `name <email>` as a sequence of characters.
pub open spec fn header_text(name: Seq<char>, email: Seq<char>) -> Seq<char> {
    name + seq![' ', '<'] + email + seq!['>']
}

/// Writes the address header for a display name and an email address.
pub fn address_header(name: &str, email: &str) -> (header: String)
    ensures
        header@ == header_text(name@, email@),
{
    let mut header = name.to_owned();
    header.append(" <");
    header.append(email);
    header.append(">");
    proof {
        reveal_strlit(" <");
        reveal_strlit(">");
    }
    header
}

} // verus!
