//! The decision core of the automation-webhook guard: which requests pass and
//! which are refused, as a pure function of the request's user agent and the
//! automation id its payload names.

use vstd::prelude::*;

use crate::text::str_eq;

verus! {

/// The verdict on one automation-webhook request.
#[derive(Clone, Copy, PartialEq, Eq, Structural, Debug)]
pub enum AutomationCheck {
    /// The request passes to the handler.
    Accept,
    /// The request does not come from the automation agent.
    InvalidUserAgent,
    /// The payload names an automation other than the registered one.
    InvalidAutomationId,
}

/// The agent name that every automation-webhook request must carry.
pub open spec fn automation_agent() -> Seq<char> {
    "NotionAutomation"@
}

/// The verdict for a request: wrong agent first, then wrong automation id,
/// else accepted.
pub open spec fn automation_check_spec(
    user_agent: Seq<char>,
    automation_id: Seq<char>,
    expected_id: Seq<char>,
) -> AutomationCheck {
    if user_agent != automation_agent() {
        AutomationCheck::InvalidUserAgent
    } else if automation_id != expected_id {
        AutomationCheck::InvalidAutomationId
    } else {
        AutomationCheck::Accept
    }
}

/// Decides whether one automation-webhook request passes: the user agent must
/// be the automation agent and the payload's automation id must equal the
/// registered one.
pub fn check_automation_request(user_agent: &str, automation_id: &str, expected_id: &str) -> (r:
    AutomationCheck)
    ensures
        r == automation_check_spec(user_agent@, automation_id@, expected_id@),
{
    if !str_eq(user_agent, "NotionAutomation") {
        AutomationCheck::InvalidUserAgent
    } else if !str_eq(automation_id, expected_id) {
        AutomationCheck::InvalidAutomationId
    } else {
        AutomationCheck::Accept
    }
}

} // verus!
