//! Extraction façade: detect the provider of an email, scan its body for
//! candidates, classify them and merge the fragments into the finished
//! mapping, one call per email, with no state kept between calls.

use vstd::prelude::*;

use crate::classify::{classified_spec, classify_candidates};
use crate::scanner::{scan_candidates, scan_pairs, split_lines, split_lines_spec};
use crate::store::{
    job_views, store_fold, store_wf, JobAlertSource, ParsedJob, ParsedJobV, PostingStore,
};
use crate::text::{contains_spec, str_contains};

verus! {

/// Why one email could not be processed. An unknown provider is not an error:
/// it yields an empty result.
#[derive(Clone, Copy, PartialEq, Eq, Structural, Debug)]
pub enum ExtractError {
    /// The raw message bytes could not be decoded as an email.
    MessageDecode,
    /// The webhook's transfer encoding of the message bytes was invalid.
    ContentDecode,
    /// The detected provider is registered but its parser is not implemented.
    ProviderNotImplemented,
}

/// The marker whose presence in the body identifies the primary provider.
pub open spec fn linkedin_marker() -> Seq<char> {
    "jobalerts-noreply@linkedin.com"@
}

/// The marker whose presence in the body identifies the secondary provider.
pub open spec fn glassdoor_marker() -> Seq<char> {
    "Glassdoor Jobs <noreply@glassdoor.com>"@
}

/// The provider detected in a body: the first marker that occurs, in a fixed
/// priority order, or none.
pub open spec fn detect_provider_spec(body: Seq<char>) -> Option<JobAlertSource> {
    if contains_spec(body, linkedin_marker()) {
        Some(JobAlertSource::Linkedin)
    } else if contains_spec(body, glassdoor_marker()) {
        Some(JobAlertSource::Glassdoor)
    } else {
        None
    }
}

/// Detects the provider of an email body. When markers of several providers
/// co-occur, the first in the fixed priority order wins, deterministically.
pub fn detect_provider(body: &str) -> (r: Option<JobAlertSource>)
    ensures
        r == detect_provider_spec(body@),
{
    if str_contains(body, "jobalerts-noreply@linkedin.com") {
        Some(JobAlertSource::Linkedin)
    } else if str_contains(body, "Glassdoor Jobs <noreply@glassdoor.com>") {
        Some(JobAlertSource::Glassdoor)
    } else {
        None
    }
}

/// The postings extracted from a body: its lines scanned for two-line
/// candidates, the candidates classified, and the fragments folded into the
/// store, starting from the empty store.
pub open spec fn extraction_spec(body: Seq<char>) -> Seq<ParsedJobV> {
    store_fold(Seq::empty(), classified_spec(scan_pairs(split_lines_spec(body))))
}

/// Scans, classifies and merges one email body of the primary provider.
pub fn parse_linkedin_email(body: &str) -> (jobs: Vec<ParsedJob>)
    ensures
        job_views(jobs@) == extraction_spec(body@),
{
    let lines = split_lines(body);
    let cands = scan_candidates(&lines);
    let frags = classify_candidates(&cands);
    let mut store = PostingStore::new();
    store.apply_all(&frags);
    store.into_results()
}

/// What extraction returns for a body: the extracted postings for the primary
/// provider, a distinct "not implemented" error for the declared-but-stubbed
/// secondary provider, and an empty result for an unknown provider.
pub open spec fn extract_result_spec(body: Seq<char>) -> Result<Seq<ParsedJobV>, ExtractError> {
    match detect_provider_spec(body) {
        Some(JobAlertSource::Linkedin) => Ok(extraction_spec(body)),
        Some(JobAlertSource::Glassdoor) => Err(ExtractError::ProviderNotImplemented),
        None => Ok(Seq::empty()),
    }
}

/// Extracts all postings from one email body: detect, scan, classify, merge.
pub fn extract_from_body(body: &str) -> (r: Result<Vec<ParsedJob>, ExtractError>)
    ensures
        r is Ok <==> extract_result_spec(body@) is Ok,
        r is Ok ==> job_views(r->Ok_0@) == extract_result_spec(body@)->Ok_0,
        r is Err ==> r->Err_0 == extract_result_spec(body@)->Err_0,
{
    match detect_provider(body) {
        Some(JobAlertSource::Linkedin) => Ok(parse_linkedin_email(body)),
        Some(JobAlertSource::Glassdoor) => Err(ExtractError::ProviderNotImplemented),
        None => {
            let r: Vec<ParsedJob> = Vec::new();
            proof {
                assert(job_views(r@) =~= Seq::<ParsedJobV>::empty());
            }
            Ok(r)
        },
    }
}

/// Round trip and well-formedness of every extraction: identifiers are unique
/// across the result, and each posting's link equals the literal template
/// with that posting's stored identifier substituted.
pub proof fn lemma_extraction_wf(body: Seq<char>)
    ensures
        store_wf(extraction_spec(body)),
        forall|i: int|
            0 <= i < extraction_spec(body).len() ==> (#[trigger] extraction_spec(body)[i]).link
                == crate::scanner::link_of(extraction_spec(body)[i].job_id),
{
    crate::store::lemma_fold_preserves_wf(
        Seq::empty(),
        classified_spec(scan_pairs(split_lines_spec(body))),
    );
}

/// A body none of whose lines matches the URL template extracts to the empty
/// mapping — unless it carries the stubbed secondary provider's marker, which
/// fails loudly instead of returning a mapping, so that case is left out.
pub proof fn lemma_no_url_empty_extraction(body: Seq<char>)
    requires
        forall|k: int|
            0 <= k < split_lines_spec(body).len() ==> !crate::scanner::is_url_line(
                #[trigger] split_lines_spec(body)[k],
            ),
        !contains_spec(body, glassdoor_marker()),
    ensures
        extract_result_spec(body) == Ok::<Seq<ParsedJobV>, ExtractError>(
            Seq::<ParsedJobV>::empty(),
        ),
{
    crate::scanner::lemma_scan_pairs_no_url(split_lines_spec(body));
    assert(classified_spec(Seq::<(Seq<char>, Seq<char>)>::empty()) =~= Seq::<
        crate::classify::FragmentV,
    >::empty());
}

/// What handling raw message bytes returns: the decode error when the bytes
/// hold no message, the empty mapping for a message without a text body, and
/// otherwise whatever extraction returns for that body.
pub open spec fn handle_email_spec(raw: Seq<u8>) -> Result<Seq<ParsedJobV>, ExtractError> {
    if !crate::mail::mail_parses(raw) {
        Err(ExtractError::MessageDecode)
    } else {
        match crate::mail::mail_body_text(raw) {
            Some(body) => extract_result_spec(body),
            None => Ok(Seq::empty()),
        }
    }
}

/// Handles one raw email: decodes it, detects the provider and accumulates
/// the extracted postings.
pub struct JobAlertEmailHandler {
    parsed_jobs: Vec<ParsedJob>,
}

impl View for JobAlertEmailHandler {
    type V = Seq<ParsedJobV>;

    closed spec fn view(&self) -> Seq<ParsedJobV> {
        job_views(self.parsed_jobs@)
    }
}

impl JobAlertEmailHandler {
    /// The extracted postings, in insertion order of first-seen identifier.
    pub fn results(&self) -> (r: &Vec<ParsedJob>)
        ensures
            job_views(r@) == self@,
    {
        &self.parsed_jobs
    }

    /// Decodes raw email bytes and extracts the postings of the detected
    /// provider. The result is pinned to these very bytes: it equals
    /// `handle_email_spec(email_content@)`, so equal bytes give equal results
    /// and the decode error comes exactly when the bytes hold no message.
    pub fn new(email_content: &[u8]) -> (r: Result<JobAlertEmailHandler, ExtractError>)
        ensures
            r is Ok <==> handle_email_spec(email_content@) is Ok,
            r is Ok ==> r->Ok_0@ == handle_email_spec(email_content@)->Ok_0,
            r is Err ==> r->Err_0 == handle_email_spec(email_content@)->Err_0,
            r is Ok ==> store_wf(r->Ok_0@),
    {
        let body = match crate::mail::parse_mail_body(email_content) {
            None => {
                return Err(ExtractError::MessageDecode);
            },
            Some(None) => {
                let handler = JobAlertEmailHandler { parsed_jobs: Vec::new() };
                proof {
                    assert(handler@ =~= Seq::<ParsedJobV>::empty());
                }
                return Ok(handler);
            },
            Some(Some(b)) => b,
        };
        match extract_from_body(body.as_str()) {
            Ok(jobs) => {
                let handler = JobAlertEmailHandler { parsed_jobs: jobs };
                proof {
                    lemma_extraction_wf(body@);
                    assert(store_wf(Seq::<ParsedJobV>::empty()));
                }
                Ok(handler)
            },
            Err(e) => Err(e),
        }
    }
}

} // verus!
