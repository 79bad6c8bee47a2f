use job_alert_engine::classify::{classify, FragmentKind};
use job_alert_engine::notify::{alert_subject, render_notification_body};
use job_alert_engine::scanner::{is_url_line_exec, link_for_id, scan_candidates, split_lines};
use job_alert_engine::text::{str_contains, str_ends_with, str_eq, str_starts_with, trim};

#[test]
fn trim_removes_surrounding_whitespace_only() {
    assert_eq!(trim("  Remote, Canada \t\r\n"), "Remote, Canada");
    assert_eq!(trim("untouched"), "untouched");
    assert_eq!(trim(" \t "), "");
    assert_eq!(trim("inner  space kept"), "inner  space kept");
}

#[test]
fn trim_removes_unicode_whitespace_like_std() {
    let padded = "\u{a0}\u{2003}Remote, Canada\u{3000}\u{2028}";
    assert_eq!(trim(padded), padded.trim());
    assert_eq!(trim(padded), "Remote, Canada");
}

#[test]
fn prefix_suffix_and_substring_tests() {
    assert!(str_starts_with("[image: logo]", "[image:"));
    assert!(!str_starts_with("image: logo]", "[image:"));
    assert!(str_ends_with("1 mutual connection", "connection"));
    assert!(!str_ends_with("connections", "connection"));
    assert!(str_contains("abc jobalerts-noreply@linkedin.com xyz", "jobalerts-noreply@linkedin.com"));
    assert!(!str_contains("short", "longer than the text"));
    assert!(str_eq("same", "same"));
    assert!(!str_eq("same", "Same"));
}

#[test]
fn split_lines_keeps_every_line() {
    let lines = split_lines("a\nb\n\nc");
    assert_eq!(lines.len(), 4);
    assert_eq!(lines[0], "a");
    assert_eq!(lines[1], "b");
    assert_eq!(lines[2], "");
    assert_eq!(lines[3], "c");
    let lines = split_lines("tail newline\n");
    assert_eq!(lines.len(), 2);
    assert_eq!(lines[1], "");
}

#[test]
fn url_line_must_match_the_whole_template() {
    assert!(is_url_line_exec("<https://www.linkedin.com/comm/jobs/view/1234567890>"));
    assert!(is_url_line_exec("<https://www.linkedin.com/comm/jobs/view/1234567890"));
    // Right digit count, wrong template.
    assert!(!is_url_line_exec("<https://www.example.com/comm/jobs/view/1234567890>"));
    assert!(!is_url_line_exec("https://www.linkedin.com/comm/jobs/view/1234567890"));
    // Too few digits.
    assert!(!is_url_line_exec("<https://www.linkedin.com/comm/jobs/view/123456789>"));
    // Indented URL lines do not match: the template anchors the line start.
    assert!(!is_url_line_exec("  <https://www.linkedin.com/comm/jobs/view/1234567890>"));
}

#[test]
fn scanner_extracts_exactly_the_ten_template_digits() {
    let lines = split_lines(
        "   *Senior Backend Engineer*  \n<https://www.linkedin.com/comm/jobs/view/12345678901234>",
    );
    let cands = scan_candidates(&lines);
    assert_eq!(cands.len(), 1);
    assert_eq!(cands[0].text, "*Senior Backend Engineer*");
    assert_eq!(cands[0].id, "1234567890");
}

#[test]
fn scanner_skips_empty_preceding_lines() {
    let lines = split_lines("\n<https://www.linkedin.com/comm/jobs/view/1234567890>");
    let cands = scan_candidates(&lines);
    assert_eq!(cands.len(), 0);
}

#[test]
fn classifier_discards_every_noise_shape() {
    assert_eq!(classify("[image: company logo]"), None);
    assert_eq!(classify("Actively recruiting"), None);
    assert_eq!(classify("Actively recruiting right now"), None);
    assert_eq!(classify("1 mutual connection"), None);
    assert_eq!(classify(""), None);
}

#[test]
fn classifier_separates_titles_from_locations() {
    assert_eq!(classify("*Senior Backend Engineer*"), Some(FragmentKind::Title));
    assert_eq!(classify("Remote, Canada"), Some(FragmentKind::Location));
    assert_eq!(classify("*half marked"), Some(FragmentKind::Location));
    assert_eq!(classify("half marked*"), Some(FragmentKind::Location));
}

#[test]
fn link_is_the_template_with_the_id_substituted() {
    assert_eq!(link_for_id("1234567890"), "https://www.linkedin.com/comm/jobs/view/1234567890");
}

#[test]
fn notification_body_lists_title_and_link_per_posting() {
    let jobs = job_alert_engine::extract::parse_linkedin_email(
        "*Engineer*\n<https://www.linkedin.com/comm/jobs/view/1234567890>\n",
    );
    let body = render_notification_body(&jobs);
    assert_eq!(
        body,
        "<h2>Found Jobs</h2><p><strong>*Engineer*</strong>: \
         <a href=\"https://www.linkedin.com/comm/jobs/view/1234567890\">\
         https://www.linkedin.com/comm/jobs/view/1234567890</a></p>"
    );
}

#[test]
fn notification_body_reports_empty_results_without_error() {
    let jobs = Vec::new();
    assert_eq!(render_notification_body(&jobs), "No jobs found in email");
}

#[test]
fn alert_subject_names_the_origin() {
    assert_eq!(alert_subject("boss@example.com"), "Job alert processing from boss@example.com");
}
