//! The compute half of the inbound-mail webhook: decode the transfer encoding
//! of the forwarded message, run the extraction engine, and render what the
//! notification layer sends. Receiving and sending stay outside the library.

use vstd::prelude::*;

use crate::extract::{handle_email_spec, ExtractError, JobAlertEmailHandler};
use crate::notify::{
    alert_subject, alert_subject_spec, notification_body_spec, render_notification_body,
};
use crate::store::ParsedJobV;

verus! {

/// Whether the standard base64 alphabet (with canonical padding) accepts a
/// text; a function of the text alone.
pub uninterp spec fn b64_accepts(s: Seq<char>) -> bool;

/// What the standard base64 alphabet decodes an accepted text to; a function
/// of the text alone.
pub uninterp spec fn b64_decoded(s: Seq<char>) -> Seq<u8>;

/// Relies on base64's STANDARD engine decode: acceptance and the decoded
/// bytes depend on the input text alone; text that is not valid padded base64
/// is refused.
#[verifier::external_body]
fn b64_decode(s: &str) -> (r: Option<Vec<u8>>)
    ensures
        r is Some <==> b64_accepts(s@),
        r is Some ==> r->Some_0@ == b64_decoded(s@),
{
    match base64::Engine::decode(&base64::engine::general_purpose::STANDARD, s) {
        Ok(v) => Some(v),
        Err(_) => None,
    }
}

/// Decodes the webhook's base64-encoded copy of the raw message bytes:
/// exactly the accepted texts decode, to exactly the decoded bytes.
pub fn decode_email_content(raw_b64: &str) -> (r: Result<Vec<u8>, ExtractError>)
    ensures
        r is Ok <==> b64_accepts(raw_b64@),
        r is Ok ==> r->Ok_0@ == b64_decoded(raw_b64@),
        r is Err ==> r->Err_0 == ExtractError::ContentDecode,
{
    match b64_decode(raw_b64) {
        Some(bytes) => Ok(bytes),
        None => Err(ExtractError::ContentDecode),
    }
}

/// What processing one webhook delivery extracts: the content-decode error
/// for text that is not base64, and otherwise whatever handling the decoded
/// message bytes returns.
pub open spec fn webhook_extraction_spec(raw_b64: Seq<char>) -> Result<
    Seq<ParsedJobV>,
    ExtractError,
> {
    if !b64_accepts(raw_b64) {
        Err(ExtractError::ContentDecode)
    } else {
        handle_email_spec(b64_decoded(raw_b64))
    }
}

/// Everything the notification layer needs for one processed webhook call.
pub struct WebhookOutcome {
    /// The subject line naming the forwarded email's origin.
    pub subject: String,
    /// The rendered notification body, one entry per extracted posting.
    pub body_html: String,
    /// The decoded raw message bytes, attached to the notification.
    pub email_bytes: Vec<u8>,
}

/// Processes one inbound-mail webhook delivery: decodes the forwarded
/// message, extracts its postings and renders the notification, all pinned to
/// this delivery's text. Failures stay local to this one message.
pub fn process_job_alert_webhook(from: &str, raw_content_b64: &str) -> (r: Result<
    WebhookOutcome,
    ExtractError,
>)
    ensures
        r is Ok <==> webhook_extraction_spec(raw_content_b64@) is Ok,
        r is Err ==> r->Err_0 == webhook_extraction_spec(raw_content_b64@)->Err_0,
        r is Ok ==> r->Ok_0.subject@ == alert_subject_spec(from@),
        r is Ok ==> r->Ok_0.email_bytes@ == b64_decoded(raw_content_b64@),
        r is Ok ==> r->Ok_0.body_html@ == notification_body_spec(
            webhook_extraction_spec(raw_content_b64@)->Ok_0,
        ),
{
    let email_bytes = match decode_email_content(raw_content_b64) {
        Ok(b) => b,
        Err(e) => {
            return Err(e);
        },
    };
    let handler = match JobAlertEmailHandler::new(email_bytes.as_slice()) {
        Ok(h) => h,
        Err(e) => {
            return Err(e);
        },
    };
    let body_html = render_notification_body(handler.results());
    let subject = alert_subject(from);
    Ok(WebhookOutcome { subject, body_html, email_bytes })
}

} // verus!
