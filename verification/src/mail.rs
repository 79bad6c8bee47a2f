//! Trusted boundary to the mail-parsing capability: raw message bytes go in,
//! the plaintext body comes out. Both whether the bytes parse and what body
//! they hold are functions of the bytes alone, so each gets a name, and the
//! engine's contracts are stated over those names for these very bytes.

use vstd::prelude::*;

verus! {

/// Whether the raw bytes parse as a mail message; a function of the bytes
/// alone.
pub uninterp spec fn mail_parses(raw: Seq<u8>) -> bool;

/// The first plaintext body of a parsed message, or None when it has no text
/// part; a function of the bytes alone.
pub uninterp spec fn mail_body_text(raw: Seq<u8>) -> Option<Seq<char>>;

/// The view of an optional owned string.
pub open spec fn opt_string_view(s: Option<String>) -> Option<Seq<char>> {
    match s {
        Some(s) => Some(s@),
        None => None,
    }
}

/// Relies on mail_parser's MessageParser::parse and Message::body_text, both
/// functions of the raw bytes alone: parse never panics and returns None
/// exactly when the bytes hold no message headers; body_text returns the
/// message's text body at the given index as plain text (converted from HTML
/// when only HTML is present), or None when the message has no such part.
#[verifier::external_body]
pub(crate) fn parse_mail_body(raw: &[u8]) -> (r: Option<Option<String>>)
    ensures
        r is Some <==> mail_parses(raw@),
        r is Some ==> opt_string_view(r->Some_0) == mail_body_text(raw@),
{
    match mail_parser::MessageParser::default().parse(raw) {
        Some(message) => Some(message.body_text(0).map(|b| b.into_owned())),
        None => None,
    }
}

} // verus!
