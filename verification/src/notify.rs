//! Rendering of the notification hand-off: the exact text handed to the
//! notification collaborator for a finished extraction, and the subject line
//! naming the email's origin.

use vstd::prelude::*;

use crate::store::{job_views, ParsedJob, ParsedJobV};

verus! {

/// The notification entry for one posting: its title and its link.
pub open spec fn job_entry_html(j: ParsedJobV) -> Seq<char> {
    "<p><strong>"@ + j.title + "</strong>: <a href=\""@ + j.link + "\">"@ + j.link + "</a></p>"@
}

/// The concatenated entries of all postings, in order.
pub open spec fn jobs_html(jobs: Seq<ParsedJobV>) -> Seq<char>
    decreases jobs.len(),
{
    if jobs.len() == 0 {
        Seq::empty()
    } else {
        job_entry_html(jobs[0]) + jobs_html(jobs.drop_first())
    }
}

/// The whole notification body: a heading and one entry per posting, or the
/// fixed no-jobs text for an empty result (an empty result is not an error).
pub open spec fn notification_body_spec(jobs: Seq<ParsedJobV>) -> Seq<char> {
    if jobs.len() == 0 {
        "No jobs found in email"@
    } else {
        "<h2>Found Jobs</h2>"@ + jobs_html(jobs)
    }
}

/// The subject line for the notification of one processed email.
pub open spec fn alert_subject_spec(from: Seq<char>) -> Seq<char> {
    "Job alert processing from "@ + from
}

/// Renders the notification body for a finished extraction.
pub fn render_notification_body(jobs: &Vec<ParsedJob>) -> (r: String)
    ensures
        r@ == notification_body_spec(job_views(jobs@)),
{
    let ghost jv = job_views(jobs@);
    let n = jobs.len();
    if n == 0 {
        return String::from_str("No jobs found in email");
    }
    let mut r = String::from_str("<h2>Found Jobs</h2>");
    let mut i: usize = 0;
    proof {
        assert(jv.skip(0) =~= jv);
    }
    while i < n
        invariant
            0 <= i <= n,
            n == jobs@.len(),
            n > 0,
            jv == job_views(jobs@),
            r@ + jobs_html(jv.skip(i as int)) =~= "<h2>Found Jobs</h2>"@ + jobs_html(jv),
        decreases n - i,
    {
        let ghost tail = jv.skip(i as int);
        proof {
            assert(tail[0] == jv[i as int]);
            assert(tail.drop_first() =~= jv.skip(i + 1));
        }
        let j = &jobs[i];
        r.append("<p><strong>");
        r.append(j.title.as_str());
        r.append("</strong>: <a href=\"");
        r.append(j.link.as_str());
        r.append("\">");
        r.append(j.link.as_str());
        r.append("</a></p>");
        proof {
            assert(r@ + jobs_html(jv.skip(i + 1)) =~= "<h2>Found Jobs</h2>"@ + jobs_html(jv));
        }
        i = i + 1;
    }
    proof {
        assert(jobs_html(jv.skip(n as int)) =~= Seq::<char>::empty());
        assert(r@ =~= "<h2>Found Jobs</h2>"@ + jobs_html(jv));
    }
    r
}

/// The subject line for the notification of one processed email.
pub fn alert_subject(from: &str) -> (r: String)
    ensures
        r@ == alert_subject_spec(from@),
{
    let mut r = String::from_str("Job alert processing from ");
    r.append(from);
    r
}

} // verus!
