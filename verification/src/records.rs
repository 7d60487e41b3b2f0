use vstd::prelude::*;

use crate::timestamp::{reads_back, rfc3339_text, shows_utc, Timestamp};

verus! {

/// A Reminders list as the Reminders database describes it.
#[derive(Debug, Clone, PartialEq, Eq)]
pub struct ReminderList {
    pub list_identifier: String,
    pub title: String,
    /// Whether reminders can be added, edited or removed in this list.
    pub allows_content_modifications: bool,
    pub source_title: Option<String>,
}

/// A reminder (a task) as the Reminders database holds it.
#[derive(Debug, Clone, PartialEq, Eq)]
pub struct Reminder {
    /// Stable identifier; `None` for a reminder not yet saved.
    pub identifier: Option<String>,
    pub title: String,
    pub notes: Option<String>,
    /// Identifier of the list that holds the reminder.
    pub list_identifier: Option<String>,
    pub due_date: Option<Timestamp>,
    pub completion_date: Option<Timestamp>,
    pub is_completed: bool,
    /// 0 = none, 1 = high, 5 = medium, 9 = low.
    pub priority: u8,
    pub url: Option<String>,
}

/// A calendar as the Calendar database describes it.
#[derive(Debug, Clone, PartialEq, Eq)]
pub struct Calendar {
    pub calendar_identifier: String,
    pub title: String,
    /// Whether events can be added, edited or removed in this calendar.
    pub allows_content_modifications: bool,
    pub source_title: Option<String>,
}

/// A calendar event as the Calendar database holds it.
#[derive(Debug, Clone, PartialEq, Eq)]
pub struct CalendarEvent {
    /// Stable identifier; `None` for an event not yet saved.
    pub identifier: Option<String>,
    pub title: String,
    pub notes: Option<String>,
    /// Identifier of the calendar that holds the event.
    pub calendar_identifier: Option<String>,
    pub start_date: Option<Timestamp>,
    pub end_date: Option<Timestamp>,
    pub is_all_day: bool,
    pub location: Option<String>,
}

/// The text of an optional string.
pub open spec fn opt_view(s: Option<String>) -> Option<Seq<char>> {
    match s {
        Some(x) => Some(x@),
        None => None,
    }
}

/// The RFC 3339 text of an optional instant.
pub open spec fn date_text(d: Option<Timestamp>) -> Option<Seq<char>> {
    match d {
        Some(t) => Some(rfc3339_text(t.spec_secs(), t.spec_nanos())),
        None => None,
    }
}

/// A copy of an optional string.
pub fn copy_opt(s: &Option<String>) -> (r: Option<String>)
    ensures
        r == *s,
{
    match s {
        Some(x) => Some(x.clone()),
        None => None,
    }
}

/// The RFC 3339 text of an optional instant.
pub fn format_opt(d: &Option<Timestamp>) -> (r: Option<String>)
    ensures
        opt_view(r) == date_text(*d),
        reads_back(r, *d),
        shows_utc(r, *d),
{
    match d {
        Some(t) => Some(t.to_rfc3339()),
        None => None,
    }
}

} // verus!
