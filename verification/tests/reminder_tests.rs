use eventkit_mcp_server::error::{eventkit_err, ErrorKind, ToolError};
use eventkit_mcp_server::params::{CreateReminderParams, ListRemindersParams, ReminderIdParams};
use eventkit_mcp_server::records::{Reminder, ReminderList};
use eventkit_mcp_server::reminders::{
    complete_reminder_reply, create_reminder_draft, delete_reminder_reply,
    get_reminder_reply, list_reminder_lists_reply, list_reminders_filter, list_reminders_reply,
    reminder_not_found,
};
use eventkit_mcp_server::reply::{created_reply, reminder_to_json};
use eventkit_mcp_server::timestamp::Timestamp;

fn sample_reminder() -> Reminder {
    Reminder {
        identifier: Some("r-1".to_string()),
        title: "Buy oat milk".to_string(),
        notes: Some("From the co-op".to_string()),
        list_identifier: Some("list-1".to_string()),
        due_date: Some(Timestamp::from_parts(1_782_896_400, 0).unwrap()),
        completion_date: None,
        is_completed: false,
        priority: 5,
        url: None,
    }
}

fn id(s: &str) -> ReminderIdParams {
    ReminderIdParams { id: s.to_string() }
}

#[test]
fn eventkit_err_is_internal() {
    let e = eventkit_err("authorization denied".to_string());
    assert_eq!(
        e,
        ToolError { kind: ErrorKind::Internal, message: "authorization denied".to_string() }
    );
}

#[test]
fn reminder_to_json_copies_fields() {
    let j = reminder_to_json(&sample_reminder());
    assert_eq!(j.id.as_deref(), Some("r-1"));
    assert_eq!(j.title, "Buy oat milk");
    assert_eq!(j.notes.as_deref(), Some("From the co-op"));
    assert_eq!(j.list_id.as_deref(), Some("list-1"));
    assert_eq!(j.due_date.as_deref(), Some("2026-07-01T09:00:00+00:00"));
    assert!(!j.is_completed);
    assert_eq!(j.priority, 5);
}

#[test]
fn reminder_to_json_without_due_date() {
    let mut r = sample_reminder();
    r.due_date = None;
    r.identifier = None;
    r.is_completed = true;
    let j = reminder_to_json(&r);
    assert_eq!(j.due_date, None);
    assert_eq!(j.id, None);
    assert!(j.is_completed);
}

#[test]
fn list_reminder_lists_reply_reports_every_list() {
    let lists = vec![
        ReminderList {
            list_identifier: "a".to_string(),
            title: "Home".to_string(),
            allows_content_modifications: true,
            source_title: Some("iCloud".to_string()),
        },
        ReminderList {
            list_identifier: "b".to_string(),
            title: "Work".to_string(),
            allows_content_modifications: false,
            source_title: None,
        },
    ];
    let out = list_reminder_lists_reply(Ok(lists)).unwrap();
    assert_eq!(out.len(), 2);
    assert_eq!(out[0].id, "a");
    assert_eq!(out[0].title, "Home");
    assert!(out[0].allows_modifications);
    assert_eq!(out[0].source.as_deref(), Some("iCloud"));
    assert_eq!(out[1].id, "b");
    assert!(!out[1].allows_modifications);
    assert_eq!(out[1].source, None);
}

#[test]
fn list_reminder_lists_reply_reports_store_failure() {
    let e = list_reminder_lists_reply(Err("authorization denied".to_string())).unwrap_err();
    assert_eq!(e.kind, ErrorKind::Internal);
    assert_eq!(e.message, "authorization denied");
}

#[test]
fn list_reminders_filter_one_list() {
    let ids = list_reminders_filter(ListRemindersParams { list_id: Some("list-1".to_string()) });
    assert_eq!(ids, Some(vec!["list-1".to_string()]));
}

#[test]
fn list_reminders_filter_all_lists() {
    assert_eq!(list_reminders_filter(ListRemindersParams { list_id: None }), None);
}

#[test]
fn list_reminders_reply_keeps_order() {
    let mut second = sample_reminder();
    second.identifier = Some("r-2".to_string());
    second.title = "Walk".to_string();
    let out = list_reminders_reply(Ok(vec![sample_reminder(), second])).unwrap();
    assert_eq!(out.len(), 2);
    assert_eq!(out[0].id.as_deref(), Some("r-1"));
    assert_eq!(out[1].id.as_deref(), Some("r-2"));
    assert_eq!(out[1].title, "Walk");
}

#[test]
fn list_reminders_reply_empty() {
    assert_eq!(list_reminders_reply(Ok(vec![])).unwrap().len(), 0);
}

#[test]
fn list_reminders_reply_store_failure() {
    let e = list_reminders_reply(Err("EventKit framework error: x".to_string())).unwrap_err();
    assert_eq!(e.kind, ErrorKind::Internal);
    assert_eq!(e.message, "EventKit framework error: x");
}

#[test]
fn get_reminder_reply_found() {
    let j = get_reminder_reply(&id("r-1"), Ok(Some(sample_reminder()))).unwrap();
    assert_eq!(j, reminder_to_json(&sample_reminder()));
}

#[test]
fn get_reminder_reply_not_found() {
    let e = get_reminder_reply(&id("missing"), Ok(None)).unwrap_err();
    assert_eq!(e.kind, ErrorKind::InvalidParams);
    assert_eq!(e.message, "reminder not found: missing");
    assert_eq!(e, reminder_not_found("missing"));
}

#[test]
fn get_reminder_reply_store_failure() {
    let e = get_reminder_reply(&id("r-1"), Err("mutex poisoned".to_string())).unwrap_err();
    assert_eq!(e.kind, ErrorKind::Internal);
    assert_eq!(e.message, "mutex poisoned");
}

fn create_params() -> CreateReminderParams {
    CreateReminderParams {
        title: "Buy oat milk".to_string(),
        notes: Some("From the co-op".to_string()),
        list_id: None,
        due_date: Some("2026-07-01T09:00:00Z".to_string()),
        priority: Some(0),
    }
}

#[test]
fn create_reminder_draft_readme_example() {
    let r = create_reminder_draft(create_params()).unwrap();
    assert_eq!(r.identifier, None);
    assert_eq!(r.title, "Buy oat milk");
    assert_eq!(r.notes.as_deref(), Some("From the co-op"));
    assert_eq!(r.list_identifier, None);
    assert_eq!(r.due_date.unwrap().secs(), 1_782_896_400);
    assert_eq!(r.completion_date, None);
    assert!(!r.is_completed);
    assert_eq!(r.priority, 0);
    assert_eq!(r.url, None);
}

#[test]
fn create_reminder_draft_default_priority_is_none() {
    let mut p = create_params();
    p.priority = None;
    p.due_date = None;
    p.list_id = Some("list-1".to_string());
    let r = create_reminder_draft(p).unwrap();
    assert_eq!(r.priority, 0);
    assert_eq!(r.due_date, None);
    assert_eq!(r.list_identifier.as_deref(), Some("list-1"));
}

#[test]
fn create_reminder_draft_keeps_priority() {
    let mut p = create_params();
    p.priority = Some(9);
    assert_eq!(create_reminder_draft(p).unwrap().priority, 9);
}

#[test]
fn create_reminder_draft_rejects_bad_due_date() {
    let mut p = create_params();
    p.due_date = Some("next week".to_string());
    let e = create_reminder_draft(p).unwrap_err();
    assert_eq!(e.kind, ErrorKind::InvalidParams);
    let chrono_err = chrono::DateTime::parse_from_rfc3339("next week").unwrap_err();
    assert_eq!(e.message, format!("invalid due_date: {chrono_err}"));
}

#[test]
fn created_reply_passes_identifier() {
    assert_eq!(created_reply(Ok("new-id".to_string())).unwrap(), "new-id");
}

#[test]
fn created_reply_store_failure() {
    let e = created_reply(Err("save failed: disk".to_string())).unwrap_err();
    assert_eq!(e.kind, ErrorKind::Internal);
    assert_eq!(e.message, "save failed: disk");
}

#[test]
fn complete_reminder_reply_message() {
    assert_eq!(
        complete_reminder_reply(&id("r-1"), Ok(())).unwrap(),
        "reminder r-1 marked as completed"
    );
}

#[test]
fn complete_reminder_reply_store_failure() {
    let e = complete_reminder_reply(&id("r-1"), Err("reminder not found: r-1".to_string()))
        .unwrap_err();
    assert_eq!(e.kind, ErrorKind::Internal);
    assert_eq!(e.message, "reminder not found: r-1");
}

#[test]
fn delete_reminder_reply_message() {
    assert_eq!(delete_reminder_reply(&id("r-9"), Ok(())).unwrap(), "reminder r-9 deleted");
}

#[test]
fn delete_reminder_reply_store_failure() {
    let e = delete_reminder_reply(&id("r-9"), Err("remove failed: x".to_string())).unwrap_err();
    assert_eq!(e.kind, ErrorKind::Internal);
    assert_eq!(e.message, "remove failed: x");
}

#[test]
fn reported_due_date_reads_back() {
    let r = sample_reminder();
    let j = reminder_to_json(&r);
    let parsed = eventkit_mcp_server::timestamp::parse_datetime(&j.due_date.unwrap(), "due_date");
    assert_eq!(parsed, Ok(r.due_date.unwrap()));
}
