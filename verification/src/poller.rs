//! The compute half of the scheduled job-board poll: the fetched payload
//! arrives wrapped in a JSONP callback, and the engine strips the wrapper
//! before the JSON is decoded. Fetching and decoding stay outside the
//! library.

use vstd::prelude::*;

use crate::text::{ends_with_spec, starts_with_spec, str_ends_with, str_starts_with};

verus! {

/// The callback wrapper that the job-board API puts around its JSON payload.
pub open spec fn jsonp_prefix() -> Seq<char> {
    "CWS.jobs.jobCallback("@
}

/// A body is a wrapped payload: the callback prefix, the payload, and a
/// closing parenthesis.
pub open spec fn jsonp_wrapped(body: Seq<char>) -> bool {
    &&& starts_with_spec(body, jsonp_prefix())
    &&& ends_with_spec(body, ")"@)
    &&& body.len() > jsonp_prefix().len()
}

/// The payload inside the callback wrapper.
pub open spec fn jsonp_payload(body: Seq<char>) -> Seq<char> {
    body.subrange(jsonp_prefix().len() as int, body.len() - 1)
}

/// Strips the JSONP callback wrapper from a fetched body: the payload between
/// the callback prefix and the closing parenthesis, or None when the body is
/// not wrapped that way.
pub fn strip_jsonp_callback(body: &str) -> (r: Option<String>)
    ensures
        r is Some <==> jsonp_wrapped(body@),
        r is Some ==> r->Some_0@ == jsonp_payload(body@),
{
    proof {
        reveal_strlit("CWS.jobs.jobCallback(");
        reveal_strlit(")");
    }
    let p = "CWS.jobs.jobCallback(";
    if !str_starts_with(body, p) || !str_ends_with(body, ")") {
        return None;
    }
    let np = p.unicode_len();
    let n = body.unicode_len();
    if n <= np {
        proof {
            assert(body@ =~= jsonp_prefix()) by {
                assert(body@.subrange(0, np as int) =~= body@);
            }
            assert(body@[n - 1] == ')') by {
                assert(")"@.len() == 1);
                assert(body@.subrange(n - 1, n as int) == ")"@);
                assert(body@.subrange(n - 1, n as int) =~= seq![body@[n - 1]]);
                assert(body@[n - 1] == ")"@[0]);
            }
            assert(false);
        }
        return None;
    }
    Some(String::from_str(body.substring_char(np, n - 1)))
}

} // verus!
