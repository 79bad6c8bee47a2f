//! The timesheet database query: the current pay period computed from the
//! calendar date, its dates rendered in ISO order, and the filter document the
//! database query posts. Only reading the clock is trusted; everything
//! computed from the date is verified.

use vstd::prelude::*;

use chrono::Datelike;

use crate::numfmt::{
    dec_str, dec_str_pad2, dec_str_pad4, u32_to_string, u32_to_string_pad2, u32_to_string_pad4,
};

verus! {

/// A calendar date as the engine models it: plain year, month and day.
#[derive(Clone, Copy, PartialEq, Eq, Structural, Debug)]
pub struct Date {
    pub year: i32,
    pub month: u32,
    pub day: u32,
}

/// The dates this model formats: month and day in calendar range, year within
/// four digits.
pub open spec fn date_wf(d: Date) -> bool {
    0 <= d.year <= 9999 && 1 <= d.month <= 12 && 1 <= d.day <= 31
}

/// The date rendered as `YYYY-MM-DD`.
pub open spec fn date_str(d: Date) -> Seq<char> {
    dec_str_pad4(d.year as nat) + seq!['-'] + dec_str_pad2(d.month as nat) + seq!['-']
        + dec_str_pad2(d.day as nat)
}

/// Renders a date as `YYYY-MM-DD`.
pub fn date_to_string(d: Date) -> (r: String)
    requires
        date_wf(d),
    ensures
        r@ == date_str(d),
{
    proof {
        reveal_strlit("-");
    }
    let mut r = u32_to_string_pad4(d.year as u32);
    r.append("-");
    let m = u32_to_string_pad2(d.month);
    r.append(m.as_str());
    r.append("-");
    let day = u32_to_string_pad2(d.day);
    r.append(day.as_str());
    proof {
        assert(r@ =~= date_str(d));
    }
    r
}

/// The pay period that a calendar date falls in. The window runs from the
/// 9th to the 23rd: earlier days belong to the period that started on the
/// 24th of the previous month, later days to the one starting on the 24th of
/// this month; the month wraps without touching the year.
pub open spec fn pay_period_spec(today: Date) -> (Date, Date) {
    if today.day <= 9 {
        (
            Date {
                year: today.year,
                month: if today.month == 1 {
                    12
                } else {
                    (today.month - 1) as u32
                },
                day: 24,
            },
            Date { year: today.year, month: today.month, day: 8 },
        )
    } else if today.day >= 23 {
        (
            Date { year: today.year, month: today.month, day: 24 },
            Date {
                year: today.year,
                month: if today.month == 12 {
                    1
                } else {
                    (today.month + 1) as u32
                },
                day: 8,
            },
        )
    } else {
        (
            Date { year: today.year, month: today.month, day: 9 },
            Date { year: today.year, month: today.month, day: 23 },
        )
    }
}

/// Computes the pay period that a date falls in.
pub fn pay_period_for(today: Date) -> (r: (Date, Date))
    requires
        date_wf(today),
    ensures
        r == pay_period_spec(today),
        date_wf(r.0),
        date_wf(r.1),
{
    if today.day <= 9 {
        let m = if today.month == 1 {
            12
        } else {
            today.month - 1
        };
        (
            Date { year: today.year, month: m, day: 24 },
            Date { year: today.year, month: today.month, day: 8 },
        )
    } else if today.day >= 23 {
        let m = if today.month == 12 {
            1
        } else {
            today.month + 1
        };
        (
            Date { year: today.year, month: today.month, day: 24 },
            Date { year: today.year, month: m, day: 8 },
        )
    } else {
        (
            Date { year: today.year, month: today.month, day: 9 },
            Date { year: today.year, month: today.month, day: 23 },
        )
    }
}

/// Relies on std's SystemTime::now and duration_since, and on chrono's
/// TimeZone::timestamp_opt for Local, date_naive and the Datelike accessors:
/// the current local calendar date, or None for a clock before the epoch or
/// outside chrono's range (every branch taken here is non-panicking). Whatever
/// instant the clock returns, the month ranges over 1 to 12 and the day over
/// 1 to 31.
#[verifier::external_body]
fn today_ymd() -> (r: Option<(i32, u32, u32)>)
    ensures
        r is Some ==> 1 <= r->Some_0.1 <= 12,
        r is Some ==> 1 <= r->Some_0.2 <= 31,
{
    let since_epoch = match std::time::SystemTime::now().duration_since(std::time::UNIX_EPOCH) {
        Ok(d) => d,
        Err(_) => return None,
    };
    let secs = match i64::try_from(since_epoch.as_secs()) {
        Ok(s) => s,
        Err(_) => return None,
    };
    let now = match chrono::TimeZone::timestamp_opt(&chrono::Local, secs, 0).single() {
        Some(t) => t,
        None => return None,
    };
    let today = now.date_naive();
    Some((today.year(), today.month(), today.day()))
}

/// The pay period that today falls in, or None for a clock that reads before
/// the epoch or outside the years this model formats (never the case for a
/// real clock).
pub fn get_current_pay_period() -> (r: Option<(Date, Date)>)
    ensures
        r is Some ==> ({
            let p = r->Some_0;
            exists|t: Date|
                #[trigger] date_wf(t) && p == pay_period_spec(t) && date_wf(p.0) && date_wf(p.1)
        }),
{
    let (y, m, d) = match today_ymd() {
        Some(ymd) => ymd,
        None => {
            return None;
        },
    };
    if 0 <= y && y <= 9999 {
        let today = Date { year: y, month: m, day: d };
        let r = pay_period_for(today);
        proof {
            assert(date_wf(today) && r == pay_period_spec(today));
        }
        Some(r)
    } else {
        None
    }
}

/// The filter document posted to the timesheet database query, for one pay
/// period: entries still marked to do, or dated within the period.
pub open spec fn filter_json_spec(start: Date, end: Date) -> Seq<char> {
    "{\"filter\": {\"or\": [ {\"property\": \"notes\",\"rich_text\": {\"contains\": \"\\\\ TODO\"}},{\"and\": [{\"property\": \"start and end\",\"date\": {\"on_or_after\": \""@
        + date_str(start)
        + "\"}},{\"property\": \"start and end\",\"date\": {\"on_or_before\": \""@ + date_str(end)
        + "\"}} ]} ]}}"@
}

/// Builds the filter document for one pay period.
pub fn build_filters_for(start: Date, end: Date) -> (r: String)
    requires
        date_wf(start),
        date_wf(end),
    ensures
        r@ == filter_json_spec(start, end),
{
    let mut r = String::from_str(
        "{\"filter\": {\"or\": [ {\"property\": \"notes\",\"rich_text\": {\"contains\": \"\\\\ TODO\"}},{\"and\": [{\"property\": \"start and end\",\"date\": {\"on_or_after\": \"",
    );
    let s = date_to_string(start);
    r.append(s.as_str());
    r.append("\"}},{\"property\": \"start and end\",\"date\": {\"on_or_before\": \"");
    let e = date_to_string(end);
    r.append(e.as_str());
    r.append("\"}} ]} ]}}");
    r
}

/// Builds the filter document for the current pay period: the query posted by
/// the scheduled timesheet fetch. The empty string stands for a clock reading
/// before the epoch or outside the years the model formats, which no real
/// clock reaches.
pub fn build_filters() -> (r: String)
    ensures
        (exists|t: Date|
            #[trigger] date_wf(t) && r@ == filter_json_spec(
                pay_period_spec(t).0,
                pay_period_spec(t).1,
            )) || r@ == Seq::<char>::empty(),
{
    match get_current_pay_period() {
        Some((start, end)) => build_filters_for(start, end),
        None => String::new(),
    }
}

/// The subject line of the timesheet email for one pay period.
pub open spec fn timesheet_subject_spec(start: Date, end: Date) -> Seq<char> {
    "Timesheet "@ + dec_str(start.month as nat) + "/"@ + dec_str(start.day as nat) + " to "@
        + dec_str(end.month as nat) + "/"@ + dec_str(end.day as nat) + " - Arnav Mehta"@
}

/// Builds the subject line of the timesheet email for one pay period.
pub fn timesheet_email_subject(start: Date, end: Date) -> (r: String)
    requires
        date_wf(start),
        date_wf(end),
    ensures
        r@ == timesheet_subject_spec(start, end),
{
    let mut r = String::from_str("Timesheet ");
    let sm = u32_to_string(start.month);
    r.append(sm.as_str());
    r.append("/");
    let sd = u32_to_string(start.day);
    r.append(sd.as_str());
    r.append(" to ");
    let em = u32_to_string(end.month);
    r.append(em.as_str());
    r.append("/");
    let ed = u32_to_string(end.day);
    r.append(ed.as_str());
    r.append(" - Arnav Mehta");
    r
}

/// The source of an automation webhook event.
pub struct AutomationSource {
    pub source_type: String,
    pub automation_id: String,
    pub action_id: String,
    pub event_id: Option<String>,
    pub user_id: Option<String>,
    pub attempt: Option<i32>,
}

/// A date property of a database page.
pub struct DateProperty {
    pub id: String,
    pub property_type: String,
    pub date: DateValue,
}

/// The value of a date property: a start, an optional end and time zone.
pub struct DateValue {
    pub start: String,
    pub end: Option<String>,
    pub time_zone: Option<String>,
}

/// A select property of a database page.
pub struct SelectProperty {
    pub id: String,
    pub property_type: String,
    pub select: SelectValue,
}

/// The chosen option of a select property.
pub struct SelectValue {
    pub id: String,
    pub name: String,
    pub color: String,
}

/// The custom fields a job record may carry.
pub struct CustomFields {
    pub req_custom_field_3: Option<CustomField>,
}

/// One labelled custom field value.
pub struct CustomField {
    pub label: String,
    pub value: String,
}

} // verus!
