use vstd::prelude::*;

use crate::error::{eventkit_err, is_internal, ToolError};
use crate::timestamp::{reads_back, shows_utc};
use crate::records::{
    copy_opt, date_text, format_opt, opt_view, Calendar, CalendarEvent, Reminder, ReminderList,
};

verus! {

/// A Reminders list as a tool reports it.
#[derive(Debug, Clone, PartialEq, Eq)]
pub struct ReminderListJson {
    pub id: String,
    pub title: String,
    pub allows_modifications: bool,
    pub source: Option<String>,
}

/// A reminder as a tool reports it.
#[derive(Debug, Clone, PartialEq, Eq)]
pub struct ReminderJson {
    pub id: Option<String>,
    pub title: String,
    pub notes: Option<String>,
    pub list_id: Option<String>,
    /// RFC 3339 text of the due date.
    pub due_date: Option<String>,
    pub is_completed: bool,
    /// 0 = none, 1 = high, 5 = medium, 9 = low
    pub priority: u8,
}

/// A calendar as a tool reports it.
#[derive(Debug, Clone, PartialEq, Eq)]
pub struct CalendarJson {
    pub id: String,
    pub title: String,
    pub allows_modifications: bool,
    pub source: Option<String>,
}

/// A calendar event as a tool reports it.
#[derive(Debug, Clone, PartialEq, Eq)]
pub struct CalendarEventJson {
    pub id: Option<String>,
    pub title: String,
    pub notes: Option<String>,
    pub calendar_id: Option<String>,
    /// RFC 3339 text of the start.
    pub start_date: Option<String>,
    /// RFC 3339 text of the end.
    pub end_date: Option<String>,
    pub is_all_day: bool,
    pub location: Option<String>,
}

/// `j` reports the list `l`.
pub open spec fn reports_list(j: ReminderListJson, l: ReminderList) -> bool {
    &&& j.id == l.list_identifier
    &&& j.title == l.title
    &&& j.allows_modifications == l.allows_content_modifications
    &&& j.source == l.source_title
}

/// `j` reports the reminder `r`: every field is copied, the due date as
/// RFC 3339 text that, in the years 0 to 9999, shows the instant in UTC and
/// reads back as the same instant.
pub open spec fn reports_reminder(j: ReminderJson, r: Reminder) -> bool {
    &&& j.id == r.identifier
    &&& j.title == r.title
    &&& j.notes == r.notes
    &&& j.list_id == r.list_identifier
    &&& opt_view(j.due_date) == date_text(r.due_date)
    &&& reads_back(j.due_date, r.due_date)
    &&& shows_utc(j.due_date, r.due_date)
    &&& j.is_completed == r.is_completed
    &&& j.priority == r.priority
}

/// `j` reports the calendar `c`.
pub open spec fn reports_calendar(j: CalendarJson, c: Calendar) -> bool {
    &&& j.id == c.calendar_identifier
    &&& j.title == c.title
    &&& j.allows_modifications == c.allows_content_modifications
    &&& j.source == c.source_title
}

/// `j` reports the event `e`: every field is copied, the dates as RFC 3339
/// text that, in the years 0 to 9999, shows the instants in UTC and reads
/// back as the same instants.
pub open spec fn reports_event(j: CalendarEventJson, e: CalendarEvent) -> bool {
    &&& j.id == e.identifier
    &&& j.title == e.title
    &&& j.notes == e.notes
    &&& j.calendar_id == e.calendar_identifier
    &&& opt_view(j.start_date) == date_text(e.start_date)
    &&& opt_view(j.end_date) == date_text(e.end_date)
    &&& reads_back(j.start_date, e.start_date)
    &&& reads_back(j.end_date, e.end_date)
    &&& shows_utc(j.start_date, e.start_date)
    &&& shows_utc(j.end_date, e.end_date)
    &&& j.is_all_day == e.is_all_day
    &&& j.location == e.location
}

/// The report of a Reminders list.
pub fn reminder_list_to_json(l: &ReminderList) -> (j: ReminderListJson)
    ensures
        reports_list(j, *l),
{
    ReminderListJson {
        id: l.list_identifier.clone(),
        title: l.title.clone(),
        allows_modifications: l.allows_content_modifications,
        source: copy_opt(&l.source_title),
    }
}

/// The report of a reminder.
pub fn reminder_to_json(r: &Reminder) -> (j: ReminderJson)
    ensures
        reports_reminder(j, *r),
{
    ReminderJson {
        id: copy_opt(&r.identifier),
        title: r.title.clone(),
        notes: copy_opt(&r.notes),
        list_id: copy_opt(&r.list_identifier),
        due_date: format_opt(&r.due_date),
        is_completed: r.is_completed,
        priority: r.priority,
    }
}

/// The report of a calendar.
pub fn calendar_to_json(c: &Calendar) -> (j: CalendarJson)
    ensures
        reports_calendar(j, *c),
{
    CalendarJson {
        id: c.calendar_identifier.clone(),
        title: c.title.clone(),
        allows_modifications: c.allows_content_modifications,
        source: copy_opt(&c.source_title),
    }
}

/// The report of a calendar event.
pub fn event_to_json(e: &CalendarEvent) -> (j: CalendarEventJson)
    ensures
        reports_event(j, *e),
{
    CalendarEventJson {
        id: copy_opt(&e.identifier),
        title: e.title.clone(),
        notes: copy_opt(&e.notes),
        calendar_id: copy_opt(&e.calendar_identifier),
        start_date: format_opt(&e.start_date),
        end_date: format_opt(&e.end_date),
        is_all_day: e.is_all_day,
        location: copy_opt(&e.location),
    }
}

/// The reports of the lists, in order.
pub fn reminder_lists_to_json(ls: &Vec<ReminderList>) -> (out: Vec<ReminderListJson>)
    ensures
        out.len() == ls.len(),
        forall|i: int| 0 <= i < ls.len() ==> reports_list(#[trigger] out[i], ls[i]),
{
    let mut out: Vec<ReminderListJson> = Vec::new();
    for i in 0..ls.len()
        invariant
            out.len() == i,
            forall|k: int| 0 <= k < i ==> reports_list(#[trigger] out[k], ls[k]),
    {
        out.push(reminder_list_to_json(&ls[i]));
    }
    out
}

/// The reports of the reminders, in order.
pub fn reminders_to_json(rs: &Vec<Reminder>) -> (out: Vec<ReminderJson>)
    ensures
        out.len() == rs.len(),
        forall|i: int| 0 <= i < rs.len() ==> reports_reminder(#[trigger] out[i], rs[i]),
{
    let mut out: Vec<ReminderJson> = Vec::new();
    for i in 0..rs.len()
        invariant
            out.len() == i,
            forall|k: int| 0 <= k < i ==> reports_reminder(#[trigger] out[k], rs[k]),
    {
        out.push(reminder_to_json(&rs[i]));
    }
    out
}

/// The reports of the calendars, in order.
pub fn calendars_to_json(cs: &Vec<Calendar>) -> (out: Vec<CalendarJson>)
    ensures
        out.len() == cs.len(),
        forall|i: int| 0 <= i < cs.len() ==> reports_calendar(#[trigger] out[i], cs[i]),
{
    let mut out: Vec<CalendarJson> = Vec::new();
    for i in 0..cs.len()
        invariant
            out.len() == i,
            forall|k: int| 0 <= k < i ==> reports_calendar(#[trigger] out[k], cs[k]),
    {
        out.push(calendar_to_json(&cs[i]));
    }
    out
}

/// The reports of the events, in order.
pub fn events_to_json(es: &Vec<CalendarEvent>) -> (out: Vec<CalendarEventJson>)
    ensures
        out.len() == es.len(),
        forall|i: int| 0 <= i < es.len() ==> reports_event(#[trigger] out[i], es[i]),
{
    let mut out: Vec<CalendarEventJson> = Vec::new();
    for i in 0..es.len()
        invariant
            out.len() == i,
            forall|k: int| 0 <= k < i ==> reports_event(#[trigger] out[k], es[k]),
    {
        out.push(event_to_json(&es[i]));
    }
    out
}

/// The reply to `create_reminder` and `create_event`: the identifier the
/// database gave the new item.
pub fn created_reply(saved: Result<String, String>) -> (r: Result<String, ToolError>)
    ensures
        saved matches Err(m) ==> (r matches Err(e) && is_internal(e, m@)),
        saved matches Ok(id) ==> r == Ok::<String, ToolError>(id),
{
    match saved {
        Ok(id) => Ok(id),
        Err(m) => Err(eventkit_err(m)),
    }
}

} // verus!
