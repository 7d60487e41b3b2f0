use vstd::prelude::*;

use crate::error::{concat2, concat3, eventkit_err, invalid_params, is_internal, is_invalid_params, ToolError};
use crate::params::{CreateReminderParams, ListRemindersParams, ReminderIdParams};
use crate::records::{Reminder, ReminderList};
use crate::reply::{
    reminder_lists_to_json, reminder_to_json, reminders_to_json, reports_list, reports_reminder,
    ReminderJson, ReminderListJson,
};
use crate::timestamp::{parse_datetime, parses_to, rejects_date, rfc3339_parse};

verus! {

/// The reply to `list_reminder_lists`, given what the database returned.
pub fn list_reminder_lists_reply(fetched: Result<Vec<ReminderList>, String>) -> (r: Result<
    Vec<ReminderListJson>,
    ToolError,
>)
    ensures
        fetched matches Err(m) ==> (r matches Err(e) && is_internal(e, m@)),
        fetched matches Ok(ls) ==> (r matches Ok(out) && out.len() == ls.len() && forall|i: int|
            0 <= i < ls.len() ==> reports_list(#[trigger] out[i], ls[i])),
{
    match fetched {
        Ok(ls) => Ok(reminder_lists_to_json(&ls)),
        Err(m) => Err(eventkit_err(m)),
    }
}

/// The lists to search for `list_reminders`: none given means all lists,
/// one given means that list alone.
pub fn list_reminders_filter(params: ListRemindersParams) -> (ids: Option<Vec<String>>)
    ensures
        params.list_id is None ==> ids is None,
        params.list_id matches Some(id) ==> (ids matches Some(v) && v@ == seq![id]),
{
    match params.list_id {
        Some(id) => {
            let mut v: Vec<String> = Vec::new();
            v.push(id);
            Some(v)
        },
        None => None,
    }
}

/// The reply to `list_reminders`, given the incomplete reminders the
/// database returned.
pub fn list_reminders_reply(fetched: Result<Vec<Reminder>, String>) -> (r: Result<
    Vec<ReminderJson>,
    ToolError,
>)
    ensures
        fetched matches Err(m) ==> (r matches Err(e) && is_internal(e, m@)),
        fetched matches Ok(rs) ==> (r matches Ok(out) && out.len() == rs.len() && forall|i: int|
            0 <= i < rs.len() ==> reports_reminder(#[trigger] out[i], rs[i])),
{
    match fetched {
        Ok(rs) => Ok(reminders_to_json(&rs)),
        Err(m) => Err(eventkit_err(m)),
    }
}

/// The error for a reminder identifier the database does not know.
pub fn reminder_not_found(id: &str) -> (e: ToolError)
    ensures
        is_invalid_params(e, "reminder not found: "@ + id@),
{
    invalid_params(concat2("reminder not found: ", id))
}

/// The reply to `get_reminder`, given what the database returned for the id.
pub fn get_reminder_reply(params: &ReminderIdParams, fetched: Result<Option<Reminder>, String>) -> (r:
    Result<ReminderJson, ToolError>)
    ensures
        fetched matches Err(m) ==> (r matches Err(e) && is_internal(e, m@)),
        fetched matches Ok(None) ==> (r matches Err(e) && is_invalid_params(
            e,
            "reminder not found: "@ + params.id@,
        )),
        fetched matches Ok(Some(rem)) ==> (r matches Ok(j) && reports_reminder(j, rem)),
{
    match fetched {
        Ok(Some(rem)) => Ok(reminder_to_json(&rem)),
        Ok(None) => Err(reminder_not_found(params.id.as_str())),
        Err(m) => Err(eventkit_err(m)),
    }
}

/// The reminder that `create_reminder` saves: a new, incomplete reminder
/// with the given fields, the due date parsed as RFC 3339, priority 0
/// unless one is given.
pub fn create_reminder_draft(params: CreateReminderParams) -> (r: Result<Reminder, ToolError>)
    ensures
        params.due_date is None ==> r is Ok,
        params.due_date matches Some(s) ==> (r is Ok <==> rfc3339_parse(s@) is Ok),
        params.due_date matches Some(s) ==> (r matches Err(e) ==> rejects_date(e, "due_date"@, s@)),
        r matches Ok(rem) ==> {
            &&& rem.identifier is None
            &&& rem.title == params.title
            &&& rem.notes == params.notes
            &&& rem.list_identifier == params.list_id
            &&& params.due_date is None ==> rem.due_date is None
            &&& params.due_date matches Some(s) ==> (rem.due_date matches Some(t) && parses_to(s@, t))
            &&& rem.completion_date is None
            &&& !rem.is_completed
            &&& rem.priority == (match params.priority {
                Some(p) => p,
                None => 0,
            })
            &&& rem.url is None
        },
{
    let due_date = match params.due_date {
        Some(s) => match parse_datetime(s.as_str(), "due_date") {
            Ok(t) => Some(t),
            Err(e) => return Err(e),
        },
        None => None,
    };
    let priority: u8 = match params.priority {
        Some(p) => p,
        None => 0,
    };
    Ok(
        Reminder {
            identifier: None,
            title: params.title,
            notes: params.notes,
            list_identifier: params.list_id,
            due_date,
            completion_date: None,
            is_completed: false,
            priority,
            url: None,
        },
    )
}

/// The reply to `complete_reminder`, given the outcome of completing it.
pub fn complete_reminder_reply(params: &ReminderIdParams, outcome: Result<(), String>) -> (r:
    Result<String, ToolError>)
    ensures
        outcome matches Err(m) ==> (r matches Err(e) && is_internal(e, m@)),
        outcome is Ok ==> (r matches Ok(text) && text@ == "reminder "@ + params.id@
            + " marked as completed"@),
{
    match outcome {
        Ok(()) => Ok(concat3("reminder ", params.id.as_str(), " marked as completed")),
        Err(m) => Err(eventkit_err(m)),
    }
}

/// The reply to `delete_reminder`, given the outcome of removing it.
pub fn delete_reminder_reply(params: &ReminderIdParams, removed: Result<(), String>) -> (r: Result<
    String,
    ToolError,
>)
    ensures
        removed matches Err(m) ==> (r matches Err(e) && is_internal(e, m@)),
        removed is Ok ==> (r matches Ok(text) && text@ == "reminder "@ + params.id@ + " deleted"@),
{
    match removed {
        Ok(()) => Ok(concat3("reminder ", params.id.as_str(), " deleted")),
        Err(m) => Err(eventkit_err(m)),
    }
}

} // verus!
