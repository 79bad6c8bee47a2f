use job_alert_engine::extract::{
    detect_provider, extract_from_body, parse_linkedin_email, ExtractError, JobAlertEmailHandler,
};
use job_alert_engine::scanner::link_for_id;
use job_alert_engine::store::JobAlertSource;

#[test]
fn scenario_title_and_location_merge_into_one_posting() {
    let body = "*Senior Backend Engineer*\n\
                <https://www.linkedin.com/comm/jobs/view/1234567890/?trk=abc>\n\
                Remote, Canada\n\
                <https://www.linkedin.com/comm/jobs/view/1234567890/?trk=abc>\n";
    let jobs = parse_linkedin_email(body);
    assert_eq!(jobs.len(), 1);
    assert_eq!(jobs[0].job_id, "1234567890");
    assert_eq!(jobs[0].title, "*Senior Backend Engineer*");
    assert_eq!(jobs[0].location, "Remote, Canada");
    assert_eq!(jobs[0].link, "https://www.linkedin.com/comm/jobs/view/1234567890");
    assert_eq!(jobs[0].source, JobAlertSource::Linkedin);
}

#[test]
fn scenario_image_placeholder_is_discarded() {
    let body = "[image: company logo]\n\
                <https://www.linkedin.com/comm/jobs/view/1234567890>\n";
    let jobs = parse_linkedin_email(body);
    assert_eq!(jobs.len(), 0);
}

#[test]
fn scenario_location_before_title_does_not_crash() {
    let body = "Victoria, BC\n\
                <https://www.linkedin.com/comm/jobs/view/9999999999>\n";
    let jobs = parse_linkedin_email(body);
    assert_eq!(jobs.len(), 1);
    assert_eq!(jobs[0].job_id, "9999999999");
    assert_eq!(jobs[0].title, "");
    assert_eq!(jobs[0].location, "Victoria, BC");
}

#[test]
fn scenario_location_then_title_sets_both_fields() {
    let body = "Victoria, BC\n\
                <https://www.linkedin.com/comm/jobs/view/9999999999>\n\
                *Platform Engineer*\n\
                <https://www.linkedin.com/comm/jobs/view/9999999999>\n";
    let jobs = parse_linkedin_email(body);
    assert_eq!(jobs.len(), 1);
    assert_eq!(jobs[0].title, "*Platform Engineer*");
    assert_eq!(jobs[0].location, "Victoria, BC");
}

#[test]
fn empty_body_yields_empty_mapping() {
    assert_eq!(parse_linkedin_email("").len(), 0);
    assert_eq!(extract_from_body("").unwrap().len(), 0);
}

#[test]
fn scenario_no_matching_url_yields_empty_mapping() {
    let body = "jobalerts-noreply@linkedin.com\n\
                Nothing to see here.\n\
                <https://www.example.com/comm/jobs/view/1234567890>\n";
    let r = extract_from_body(body).unwrap();
    assert_eq!(r.len(), 0);
}

#[test]
fn scenario_unknown_sender_yields_empty_mapping() {
    let body = "Hello from somewhere else entirely.\n";
    assert!(detect_provider(body).is_none());
    let r = extract_from_body(body).unwrap();
    assert_eq!(r.len(), 0);
}

#[test]
fn glassdoor_provider_is_detected_but_not_implemented() {
    let body = "Glassdoor Jobs <noreply@glassdoor.com>\nSome listing\n";
    assert_eq!(detect_provider(body), Some(JobAlertSource::Glassdoor));
    assert_eq!(extract_from_body(body).unwrap_err(), ExtractError::ProviderNotImplemented);
}

#[test]
fn provider_priority_is_fixed_when_markers_cooccur() {
    let body = "jobalerts-noreply@linkedin.com and Glassdoor Jobs <noreply@glassdoor.com>\n";
    assert_eq!(detect_provider(body), Some(JobAlertSource::Linkedin));
}

#[test]
fn duplicate_fragments_do_not_change_the_record() {
    let body = "*Engineer*\n\
                <https://www.linkedin.com/comm/jobs/view/1234567890>\n\
                *Engineer*\n\
                <https://www.linkedin.com/comm/jobs/view/1234567890>\n\
                Toronto, ON\n\
                <https://www.linkedin.com/comm/jobs/view/1234567890>\n\
                Toronto, ON\n\
                <https://www.linkedin.com/comm/jobs/view/1234567890>\n";
    let jobs = parse_linkedin_email(body);
    assert_eq!(jobs.len(), 1);
    assert_eq!(jobs[0].title, "*Engineer*");
    assert_eq!(jobs[0].location, "Toronto, ON");
}

#[test]
fn first_writer_wins_per_field() {
    let body = "*First Title*\n\
                <https://www.linkedin.com/comm/jobs/view/1234567890>\n\
                *Second Title*\n\
                <https://www.linkedin.com/comm/jobs/view/1234567890>\n";
    let jobs = parse_linkedin_email(body);
    assert_eq!(jobs.len(), 1);
    assert_eq!(jobs[0].title, "*First Title*");
}

#[test]
fn postings_keep_first_seen_order() {
    let body = "*A*\n<https://www.linkedin.com/comm/jobs/view/1111111111>\n\
                *B*\n<https://www.linkedin.com/comm/jobs/view/2222222222>\n\
                *C*\n<https://www.linkedin.com/comm/jobs/view/3333333333>\n";
    let jobs = parse_linkedin_email(body);
    assert_eq!(jobs.len(), 3);
    assert_eq!(jobs[0].job_id, "1111111111");
    assert_eq!(jobs[1].job_id, "2222222222");
    assert_eq!(jobs[2].job_id, "3333333333");
}

#[test]
fn link_round_trips_from_stored_id() {
    let body = "*Engineer*\n<https://www.linkedin.com/comm/jobs/view/5556667778>\n";
    let jobs = parse_linkedin_email(body);
    assert_eq!(jobs.len(), 1);
    assert_eq!(jobs[0].link, link_for_id(&jobs[0].job_id));
}

#[test]
fn handler_extracts_postings_from_raw_email_bytes() {
    let raw = b"From: Job Alerts <forwarder@example.com>\r\n\
                To: me@example.com\r\n\
                Subject: new jobs\r\n\
                \r\n\
                via jobalerts-noreply@linkedin.com\r\n\
                *Senior Backend Engineer*\r\n\
                <https://www.linkedin.com/comm/jobs/view/1234567890/?trk=abc>\r\n\
                Remote, Canada\r\n\
                <https://www.linkedin.com/comm/jobs/view/1234567890/?trk=abc>\r\n";
    let handler = JobAlertEmailHandler::new(raw).unwrap();
    let jobs = handler.results();
    assert_eq!(jobs.len(), 1);
    assert_eq!(jobs[0].job_id, "1234567890");
    assert_eq!(jobs[0].title, "*Senior Backend Engineer*");
    assert_eq!(jobs[0].location, "Remote, Canada");
}

#[test]
fn handler_is_deterministic_over_equal_bytes() {
    let raw = b"From: f@example.com\r\nTo: t@example.com\r\nSubject: s\r\n\r\n\
                via jobalerts-noreply@linkedin.com\r\n\
                *Engineer*\r\n\
                <https://www.linkedin.com/comm/jobs/view/1234567890>\r\n";
    let first = JobAlertEmailHandler::new(raw).unwrap();
    let second = JobAlertEmailHandler::new(raw).unwrap();
    let (a, b) = (first.results(), second.results());
    assert_eq!(a.len(), b.len());
    for (x, y) in a.iter().zip(b.iter()) {
        assert_eq!(x.job_id, y.job_id);
        assert_eq!(x.title, y.title);
        assert_eq!(x.location, y.location);
        assert_eq!(x.link, y.link);
    }
}

#[test]
fn handler_refuses_bytes_that_are_no_email() {
    let raw = b"";
    match JobAlertEmailHandler::new(raw) {
        Err(ExtractError::MessageDecode) => {}
        other => panic!("expected a decode failure, got {:?}", other.map(|h| h.results().len())),
    }
}
