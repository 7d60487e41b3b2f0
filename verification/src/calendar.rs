use vstd::prelude::*;

use crate::error::{
    concat2, concat3, eventkit_err, invalid_params, is_internal, is_invalid_params, ToolError,
};
use crate::params::{CreateEventParams, EventIdParams, ListEventsParams, UpdateEventParams};
use crate::records::{Calendar, CalendarEvent};
use crate::reply::{
    calendars_to_json, event_to_json, events_to_json, reports_calendar, reports_event,
    CalendarEventJson, CalendarJson,
};
use crate::timestamp::{checks_range, parse_datetime, parses_to, rejects_date, rfc3339_parse, Timestamp};

verus! {

/// `text`, when given, is a date that chrono parses.
pub open spec fn date_accepted(text: Option<String>) -> bool {
    text matches Some(s) ==> rfc3339_parse(s@) is Ok
}

/// `new` is `old` with the fields that `p` supplies replaced and every other
/// field kept.
pub open spec fn updated_event(old: CalendarEvent, p: UpdateEventParams, new: CalendarEvent) -> bool {
    &&& new.identifier == old.identifier
    &&& new.title == (match p.title {
        Some(t) => t,
        None => old.title,
    })
    &&& new.notes == (match p.notes {
        Some(n) => Some(n),
        None => old.notes,
    })
    &&& new.calendar_identifier == old.calendar_identifier
    &&& (match p.start {
        Some(s) => new.start_date matches Some(t) && parses_to(s@, t),
        None => new.start_date == old.start_date,
    })
    &&& (match p.end {
        Some(s) => new.end_date matches Some(t) && parses_to(s@, t),
        None => new.end_date == old.end_date,
    })
    &&& new.is_all_day == old.is_all_day
    &&& new.location == (match p.location {
        Some(l) => Some(l),
        None => old.location,
    })
}

/// The range and calendars of a `list_events` call, ready for the database.
#[derive(Debug, Clone, PartialEq, Eq)]
pub struct EventQuery {
    pub start: Timestamp,
    pub end: Timestamp,
    /// The calendars to search (`None` for all calendars).
    pub calendar_ids: Option<Vec<String>>,
}

/// The calendars to search for a calendar filter: none given means all of
/// them, one given means that one alone.
pub fn calendar_filter(calendar_id: Option<String>) -> (ids: Option<Vec<String>>)
    ensures
        calendar_id is None ==> ids is None,
        calendar_id matches Some(id) ==> ids matches Some(v) && v@ == seq![id],
{
    match calendar_id {
        Some(id) => {
            let mut v: Vec<String> = Vec::new();
            v.push(id);
            Some(v)
        },
        None => None,
    }
}

/// The reply to `list_calendars`, given what the database returned.
pub fn list_calendars_reply(fetched: Result<Vec<Calendar>, String>) -> (r: Result<
    Vec<CalendarJson>,
    ToolError,
>)
    ensures
        fetched matches Err(m) ==> r matches Err(e) && is_internal(e, m@),
        fetched matches Ok(cs) ==> r matches Ok(out) && out.len() == cs.len() && forall|i: int|
            0 <= i < cs.len() ==> reports_calendar(#[trigger] out[i], cs[i]),
{
    match fetched {
        Ok(cs) => Ok(calendars_to_json(&cs)),
        Err(m) => Err(eventkit_err(m)),
    }
}

/// The database query of `list_events`: both ends of the range parsed as
/// RFC 3339 (the start first), and the calendar filter.
pub fn list_events_query(params: ListEventsParams) -> (r: Result<EventQuery, ToolError>)
    ensures
        checks_range(r, params.start@, params.end@),
        r matches Ok(q) ==> {
            &&& parses_to(params.start@, q.start)
            &&& parses_to(params.end@, q.end)
            &&& params.calendar_id is None ==> q.calendar_ids is None
            &&& params.calendar_id matches Some(id) ==> (q.calendar_ids matches Some(v) && v@
                == seq![id])
        },
{
    let start = match parse_datetime(params.start.as_str(), "start") {
        Ok(t) => t,
        Err(e) => return Err(e),
    };
    let end = match parse_datetime(params.end.as_str(), "end") {
        Ok(t) => t,
        Err(e) => return Err(e),
    };
    Ok(EventQuery { start, end, calendar_ids: calendar_filter(params.calendar_id) })
}

/// The reply to `list_events`, given what the database returned.
pub fn list_events_reply(fetched: Result<Vec<CalendarEvent>, String>) -> (r: Result<
    Vec<CalendarEventJson>,
    ToolError,
>)
    ensures
        fetched matches Err(m) ==> r matches Err(e) && is_internal(e, m@),
        fetched matches Ok(es) ==> r matches Ok(out) && out.len() == es.len() && forall|i: int|
            0 <= i < es.len() ==> reports_event(#[trigger] out[i], es[i]),
{
    match fetched {
        Ok(es) => Ok(events_to_json(&es)),
        Err(m) => Err(eventkit_err(m)),
    }
}

/// The error for an event identifier the database does not know.
pub fn event_not_found(id: &str) -> (e: ToolError)
    ensures
        is_invalid_params(e, "event not found: "@ + id@),
{
    invalid_params(concat2("event not found: ", id))
}

/// The reply to `get_event`, given what the database returned for the id.
pub fn get_event_reply(params: &EventIdParams, fetched: Result<Option<CalendarEvent>, String>) -> (r:
    Result<CalendarEventJson, ToolError>)
    ensures
        fetched matches Err(m) ==> r matches Err(e) && is_internal(e, m@),
        fetched matches Ok(None) ==> r matches Err(e) && is_invalid_params(
            e,
            "event not found: "@ + params.id@,
        ),
        fetched matches Ok(Some(ev)) ==> r matches Ok(j) && reports_event(j, ev),
{
    match fetched {
        Ok(Some(ev)) => Ok(event_to_json(&ev)),
        Ok(None) => Err(event_not_found(params.id.as_str())),
        Err(m) => Err(eventkit_err(m)),
    }
}

/// The event that `create_event` saves: a new event with the given fields,
/// both dates parsed as RFC 3339 (the start first), not all-day unless asked.
pub fn create_event_draft(params: CreateEventParams) -> (r: Result<CalendarEvent, ToolError>)
    ensures
        checks_range(r, params.start@, params.end@),
        r matches Ok(ev) ==> {
            &&& ev.identifier is None
            &&& ev.title == params.title
            &&& ev.notes == params.notes
            &&& ev.calendar_identifier == params.calendar_id
            &&& ev.start_date matches Some(t) && parses_to(params.start@, t)
            &&& ev.end_date matches Some(t) && parses_to(params.end@, t)
            &&& ev.location == params.location
            &&& ev.is_all_day == (match params.is_all_day {
                Some(b) => b,
                None => false,
            })
        },
{
    let start = match parse_datetime(params.start.as_str(), "start") {
        Ok(t) => t,
        Err(e) => return Err(e),
    };
    let end = match parse_datetime(params.end.as_str(), "end") {
        Ok(t) => t,
        Err(e) => return Err(e),
    };
    let is_all_day = match params.is_all_day {
        Some(b) => b,
        None => false,
    };
    Ok(
        CalendarEvent {
            identifier: None,
            title: params.title,
            notes: params.notes,
            calendar_identifier: params.calendar_id,
            start_date: Some(start),
            end_date: Some(end),
            is_all_day,
            location: params.location,
        },
    )
}

/// The event that `update_event` saves, given what the database returned
/// for the event's id: the stored event with the supplied fields replaced.
/// A failed fetch, an unknown id, or a supplied date that does not parse
/// (the start checked before the end) is reported instead.
pub fn update_event_draft(params: UpdateEventParams, fetched: Result<Option<CalendarEvent>, String>) -> (r:
    Result<CalendarEvent, ToolError>)
    ensures
        fetched matches Err(m) ==> r matches Err(e) && is_internal(e, m@),
        fetched matches Ok(None) ==> r matches Err(e) && is_invalid_params(
            e,
            "event not found: "@ + params.id@,
        ),
        fetched matches Ok(Some(old)) ==> {
            &&& r is Ok <==> (date_accepted(params.start) && date_accepted(params.end))
            &&& params.start matches Some(s) ==> (rfc3339_parse(s@) is Err ==> (r matches Err(e)
                && rejects_date(e, "start"@, s@)))
            &&& date_accepted(params.start) ==> (params.end matches Some(s) ==> (rfc3339_parse(
                s@,
            ) is Err ==> (r matches Err(e) && rejects_date(e, "end"@, s@))))
            &&& r matches Ok(new) ==> updated_event(old, params, new)
        },
{
    let mut event = match fetched {
        Ok(Some(ev)) => ev,
        Ok(None) => return Err(event_not_found(params.id.as_str())),
        Err(m) => return Err(eventkit_err(m)),
    };
    let UpdateEventParams { id: _, title, start, end, notes, location } = params;
    if let Some(t) = title {
        event.title = t;
    }
    if let Some(s) = start {
        match parse_datetime(s.as_str(), "start") {
            Ok(t) => event.start_date = Some(t),
            Err(e) => return Err(e),
        }
    }
    if let Some(s) = end {
        match parse_datetime(s.as_str(), "end") {
            Ok(t) => event.end_date = Some(t),
            Err(e) => return Err(e),
        }
    }
    if let Some(n) = notes {
        event.notes = Some(n);
    }
    if let Some(l) = location {
        event.location = Some(l);
    }
    Ok(event)
}

/// The reply to `update_event`, given the outcome of saving the event.
pub fn update_event_reply(id: &str, saved: Result<String, String>) -> (r: Result<String, ToolError>)
    ensures
        saved matches Err(m) ==> r matches Err(e) && is_internal(e, m@),
        saved is Ok ==> (r matches Ok(text) && text@ == "event "@ + id@ + " updated"@),
{
    match saved {
        Ok(_) => Ok(concat3("event ", id, " updated")),
        Err(m) => Err(eventkit_err(m)),
    }
}

/// The reply to `delete_event`, given the outcome of removing the event.
pub fn delete_event_reply(params: &EventIdParams, removed: Result<(), String>) -> (r: Result<
    String,
    ToolError,
>)
    ensures
        removed matches Err(m) ==> r matches Err(e) && is_internal(e, m@),
        removed is Ok ==> (r matches Ok(text) && text@ == "event "@ + params.id@ + " deleted"@),
{
    match removed {
        Ok(()) => Ok(concat3("event ", params.id.as_str(), " deleted")),
        Err(m) => Err(eventkit_err(m)),
    }
}

} // verus!
