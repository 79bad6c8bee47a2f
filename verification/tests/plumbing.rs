use job_alert_engine::extract::ExtractError;
use job_alert_engine::middleware::{check_automation_request, AutomationCheck};
use job_alert_engine::notion::{
    build_filters_for, pay_period_for, timesheet_email_subject, Date,
};
use job_alert_engine::numfmt::{u32_to_string, u32_to_string_pad2, u32_to_string_pad4};
use job_alert_engine::poller::strip_jsonp_callback;
use job_alert_engine::signature::{expected_signature, verify_payload};
use job_alert_engine::webhook::{decode_email_content, process_job_alert_webhook};
use job_alert_engine::worker::email_webhook_payload;

#[test]
fn decimal_formatting_matches_expected_digits() {
    assert_eq!(u32_to_string(0), "0");
    assert_eq!(u32_to_string(7), "7");
    assert_eq!(u32_to_string(1234), "1234");
    assert_eq!(u32_to_string_pad2(3), "03");
    assert_eq!(u32_to_string_pad2(12), "12");
    assert_eq!(u32_to_string_pad4(7), "0007");
    assert_eq!(u32_to_string_pad4(87), "0087");
    assert_eq!(u32_to_string_pad4(987), "0987");
    assert_eq!(u32_to_string_pad4(2026), "2026");
}

#[test]
fn pay_period_early_in_month_starts_in_previous_month() {
    let (start, end) = pay_period_for(Date { year: 2026, month: 3, day: 5 });
    assert_eq!(start, Date { year: 2026, month: 2, day: 24 });
    assert_eq!(end, Date { year: 2026, month: 3, day: 8 });
}

#[test]
fn pay_period_late_in_month_ends_in_next_month() {
    let (start, end) = pay_period_for(Date { year: 2026, month: 3, day: 27 });
    assert_eq!(start, Date { year: 2026, month: 3, day: 24 });
    assert_eq!(end, Date { year: 2026, month: 4, day: 8 });
}

#[test]
fn pay_period_mid_month_stays_inside_the_month() {
    let (start, end) = pay_period_for(Date { year: 2026, month: 3, day: 15 });
    assert_eq!(start, Date { year: 2026, month: 3, day: 9 });
    assert_eq!(end, Date { year: 2026, month: 3, day: 23 });
}

#[test]
fn pay_period_month_wraps_without_touching_the_year() {
    let (start, _) = pay_period_for(Date { year: 2026, month: 1, day: 2 });
    assert_eq!(start, Date { year: 2026, month: 12, day: 24 });
    let (_, end) = pay_period_for(Date { year: 2026, month: 12, day: 28 });
    assert_eq!(end, Date { year: 2026, month: 1, day: 8 });
}

#[test]
fn filter_document_is_rendered_exactly() {
    let start = Date { year: 2026, month: 2, day: 24 };
    let end = Date { year: 2026, month: 3, day: 8 };
    let expected = "{\"filter\": {\"or\": [ {\"property\": \"notes\",\"rich_text\": \
                    {\"contains\": \"\\\\ TODO\"}},{\"and\": [{\"property\": \"start and end\",\
                    \"date\": {\"on_or_after\": \"2026-02-24\"}},{\"property\": \"start and end\",\
                    \"date\": {\"on_or_before\": \"2026-03-08\"}} ]} ]}}";
    assert_eq!(build_filters_for(start, end), expected);
}

#[test]
fn current_pay_period_filter_comes_from_the_clock() {
    let (start, end) = job_alert_engine::notion::get_current_pay_period().unwrap();
    let filters = job_alert_engine::notion::build_filters();
    assert_eq!(filters, build_filters_for(start, end));
    assert!(filters.contains("\"on_or_after\""));
    assert!(filters.contains("\"on_or_before\""));
}

#[test]
fn timesheet_subject_uses_unpadded_month_and_day() {
    let start = Date { year: 2026, month: 2, day: 24 };
    let end = Date { year: 2026, month: 3, day: 8 };
    assert_eq!(timesheet_email_subject(start, end), "Timesheet 2/24 to 3/8 - Arnav Mehta");
}

#[test]
fn automation_check_has_three_distinct_verdicts() {
    assert_eq!(
        check_automation_request("NotionAutomation", "auto-1", "auto-1"),
        AutomationCheck::Accept
    );
    assert_eq!(
        check_automation_request("curl/8.0", "auto-1", "auto-1"),
        AutomationCheck::InvalidUserAgent
    );
    assert_eq!(
        check_automation_request("NotionAutomation", "auto-2", "auto-1"),
        AutomationCheck::InvalidAutomationId
    );
}

#[test]
fn signature_matches_a_known_hmac_vector() {
    // HMAC-SHA-256 with key "key" over the classic pangram.
    let sig = expected_signature(b"key", b"The quick brown fox jumps over the lazy dog");
    assert_eq!(
        sig,
        "sha256=f7bc83f430538424b13298e6aa6fb143ef4d59a14946175997479dbc2d1a3cd8"
    );
    assert!(verify_payload(
        b"The quick brown fox jumps over the lazy dog",
        "sha256=f7bc83f430538424b13298e6aa6fb143ef4d59a14946175997479dbc2d1a3cd8",
        b"key"
    ));
    assert!(!verify_payload(
        b"The quick brown fox jumps over the lazy dog",
        "sha256=0000000000000000000000000000000000000000000000000000000000000000",
        b"key"
    ));
}

#[test]
fn webhook_content_decoding_round_trips() {
    let decoded = decode_email_content("aGVsbG8gd29ybGQ=").unwrap();
    assert_eq!(decoded, b"hello world");
    assert_eq!(decode_email_content("@@not base64@@").unwrap_err(), ExtractError::ContentDecode);
}

#[test]
fn webhook_processing_renders_subject_body_and_bytes() {
    // The raw message below holds the provider marker in its body and one
    // complete posting.
    let raw = b"From: f@example.com\r\nTo: t@example.com\r\nSubject: s\r\n\r\n\
                via jobalerts-noreply@linkedin.com\n\
                *Engineer*\n<https://www.linkedin.com/comm/jobs/view/1234567890>\n";
    let encoded = {
        // Encode through the library's own payload builder to avoid a second
        // encoder in the tests.
        let payload = email_webhook_payload("f@example.com", "t@example.com", raw);
        let key = "\"raw_content\":\"";
        let at = payload.find(key).unwrap() + key.len();
        let rest = &payload[at..];
        rest[..rest.find('"').unwrap()].to_string()
    };
    let outcome = process_job_alert_webhook("f@example.com", &encoded).unwrap();
    assert_eq!(outcome.subject, "Job alert processing from f@example.com");
    assert_eq!(outcome.email_bytes, raw);
    assert!(outcome.body_html.contains("*Engineer*"));
    assert!(outcome.body_html.contains("https://www.linkedin.com/comm/jobs/view/1234567890"));
}

#[test]
fn worker_payload_is_exact_json() {
    let payload = email_webhook_payload("a@b", "c@d", b"hi");
    assert_eq!(
        payload,
        "{\"from\":\"a@b\",\"to\":\"c@d\",\"raw_content\":\"aGk=\",\"size\":2}"
    );
}

#[test]
fn worker_payload_escapes_json_strings() {
    let payload = email_webhook_payload("quote\" back\\slash", "line\nbreak\u{1}", b"");
    assert_eq!(
        payload,
        "{\"from\":\"quote\\\" back\\\\slash\",\"to\":\"line\\nbreak\\u0001\",\
         \"raw_content\":\"\",\"size\":0}"
    );
}

#[test]
fn jsonp_wrapper_is_stripped_exactly() {
    assert_eq!(
        strip_jsonp_callback("CWS.jobs.jobCallback({\"totalHits\":0})").unwrap(),
        "{\"totalHits\":0}"
    );
    assert_eq!(strip_jsonp_callback("CWS.jobs.jobCallback()").unwrap(), "");
    assert!(strip_jsonp_callback("jobCallback({})").is_none());
    assert!(strip_jsonp_callback("CWS.jobs.jobCallback({}").is_none());
    assert!(strip_jsonp_callback("CWS.jobs.jobCallback").is_none());
}
