//! The compute half of the mail-forwarding edge worker: the JSON document it
//! posts to the inbound-mail webhook, holding the sender, the recipient, the
//! base64-encoded raw message and its size. Receiving the email and posting
//! the document stay outside the library.

use vstd::prelude::*;

use crate::numfmt::{dec_str, u64_to_string};
use crate::signature::{hex_digit, hex_digit_char};
use crate::text::string_push;

verus! {

/// What the standard base64 alphabet encodes bytes to; a function of the
/// bytes alone.
pub uninterp spec fn b64_encoded(b: Seq<u8>) -> Seq<char>;

/// Relies on base64's STANDARD engine encode: the encoded text depends on the
/// bytes alone.
#[verifier::external_body]
fn b64_encode(b: &[u8]) -> (r: String)
    ensures
        r@ == b64_encoded(b@),
{
    base64::Engine::encode(&base64::engine::general_purpose::STANDARD, b)
}

/// How one character appears inside a JSON string literal: quote and
/// backslash are escaped, control characters take their short escape or the
/// `\u00XX` form, and every other character stands as itself.
pub open spec fn json_escaped_char(c: char) -> Seq<char> {
    if c == '"' {
        seq!['\\', '"']
    } else if c == '\\' {
        seq!['\\', '\\']
    } else if c == '\n' {
        seq!['\\', 'n']
    } else if c == '\r' {
        seq!['\\', 'r']
    } else if c == '\t' {
        seq!['\\', 't']
    } else if c == '\u{8}' {
        seq!['\\', 'b']
    } else if c == '\u{c}' {
        seq!['\\', 'f']
    } else if (c as u32) < 0x20 {
        seq!['\\', 'u', '0', '0', hex_digit(c as int / 16), hex_digit(c as int % 16)]
    } else {
        seq![c]
    }
}

/// A character sequence escaped for a JSON string literal.
pub open spec fn json_escaped(s: Seq<char>) -> Seq<char>
    decreases s.len(),
{
    if s.len() == 0 {
        Seq::empty()
    } else {
        json_escaped_char(s[0]) + json_escaped(s.drop_first())
    }
}

/// A JSON string literal holding `s`.
pub open spec fn json_string(s: Seq<char>) -> Seq<char> {
    seq!['"'] + json_escaped(s) + seq!['"']
}

/// Appends `s`, escaped for a JSON string literal, to `r`.
fn json_escape_into(r: &mut String, s: &str)
    ensures
        final(r)@ == old(r)@ + json_escaped(s@),
{
    let n = s.unicode_len();
    let mut i: usize = 0;
    proof {
        assert(s@.skip(0) =~= s@);
        assert(r@ + json_escaped(s@) =~= old(r)@ + json_escaped(s@));
    }
    while i < n
        invariant
            0 <= i <= n,
            n == s@.len(),
            r@ + json_escaped(s@.skip(i as int)) =~= old(r)@ + json_escaped(s@),
        decreases n - i,
    {
        let ghost tail = s@.skip(i as int);
        proof {
            reveal_strlit("\\\"");
            reveal_strlit("\\\\");
            reveal_strlit("\\n");
            reveal_strlit("\\r");
            reveal_strlit("\\t");
            reveal_strlit("\\b");
            reveal_strlit("\\f");
            reveal_strlit("\\u00");
            assert(tail[0] == s@[i as int]);
            assert(tail.drop_first() =~= s@.skip(i + 1));
        }
        let c = s.get_char(i);
        if c == '"' {
            r.append("\\\"");
            proof {
                assert("\\\""@ =~= json_escaped_char(c));
            }
        } else if c == '\\' {
            r.append("\\\\");
            proof {
                assert("\\\\"@ =~= json_escaped_char(c));
            }
        } else if c == '\n' {
            r.append("\\n");
            proof {
                assert("\\n"@ =~= json_escaped_char(c));
            }
        } else if c == '\r' {
            r.append("\\r");
            proof {
                assert("\\r"@ =~= json_escaped_char(c));
            }
        } else if c == '\t' {
            r.append("\\t");
            proof {
                assert("\\t"@ =~= json_escaped_char(c));
            }
        } else if c == '\u{8}' {
            r.append("\\b");
            proof {
                assert("\\b"@ =~= json_escaped_char(c));
            }
        } else if c == '\u{c}' {
            r.append("\\f");
            proof {
                assert("\\f"@ =~= json_escaped_char(c));
            }
        } else if (c as u32) < 0x20 {
            let u = c as u32;
            let ghost before = r@;
            r.append("\\u00");
            string_push(r, hex_digit_char(u / 16));
            string_push(r, hex_digit_char(u % 16));
            proof {
                assert(r@ =~= before + json_escaped_char(c));
            }
        } else {
            string_push(r, c);
            proof {
                assert(seq![c] =~= json_escaped_char(c));
            }
        }
        i = i + 1;
    }
    proof {
        assert(json_escaped(s@.skip(n as int)) =~= Seq::<char>::empty());
        assert(r@ =~= old(r)@ + json_escaped(s@));
    }
}

/// The JSON document the edge worker posts for one forwarded email: sender,
/// recipient, the base64-encoded raw message, and its size in bytes.
pub open spec fn email_webhook_payload_spec(
    from: Seq<char>,
    to: Seq<char>,
    raw: Seq<u8>,
    size: nat,
) -> Seq<char> {
    "{\"from\":"@ + json_string(from) + ",\"to\":"@ + json_string(to) + ",\"raw_content\":"@
        + json_string(b64_encoded(raw)) + ",\"size\":"@ + dec_str(size) + "}"@
}

/// Builds the JSON document the edge worker posts for one forwarded email.
pub fn email_webhook_payload(from: &str, to: &str, raw: &[u8]) -> (r: String)
    ensures
        r@ == email_webhook_payload_spec(from@, to@, raw@, raw@.len()),
{
    proof {
        reveal_strlit("\"");
    }
    let mut r = String::from_str("{\"from\":");
    r.append("\"");
    json_escape_into(&mut r, from);
    r.append("\"");
    r.append(",\"to\":");
    r.append("\"");
    json_escape_into(&mut r, to);
    r.append("\"");
    r.append(",\"raw_content\":");
    r.append("\"");
    let encoded = b64_encode(raw);
    json_escape_into(&mut r, encoded.as_str());
    r.append("\"");
    r.append(",\"size\":");
    let size = u64_to_string(raw.len() as u64);
    r.append(size.as_str());
    r.append("}");
    proof {
        assert("\""@ =~= seq!['"']);
        assert(r@ =~= email_webhook_payload_spec(from@, to@, raw@, raw@.len()));
    }
    r
}

} // verus!
