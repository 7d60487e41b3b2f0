use eventkit_mcp_server::calendar::{
    calendar_filter, create_event_draft, delete_event_reply, event_not_found, get_event_reply,
    list_calendars_reply, list_events_query, list_events_reply, update_event_draft,
    update_event_reply,
};
use eventkit_mcp_server::error::ErrorKind;
use eventkit_mcp_server::params::{
    CreateEventParams, EventIdParams, ListEventsParams, UpdateEventParams,
};
use eventkit_mcp_server::records::{Calendar, CalendarEvent};
use eventkit_mcp_server::reply::event_to_json;
use eventkit_mcp_server::timestamp::{parse_datetime, Timestamp};

fn at(text: &str) -> Timestamp {
    parse_datetime(text, "t").unwrap()
}

fn stored_event() -> CalendarEvent {
    CalendarEvent {
        identifier: Some("e-1".to_string()),
        title: "Team sync".to_string(),
        notes: Some("Quarterly review".to_string()),
        calendar_identifier: Some("cal-1".to_string()),
        start_date: Some(at("2026-07-01T09:00:00Z")),
        end_date: Some(at("2026-07-01T10:00:00Z")),
        is_all_day: false,
        location: Some("Conf room A".to_string()),
    }
}

fn no_changes(id: &str) -> UpdateEventParams {
    UpdateEventParams {
        id: id.to_string(),
        title: None,
        start: None,
        end: None,
        notes: None,
        location: None,
    }
}

#[test]
fn list_calendars_reply_reports_every_calendar() {
    let cals = vec![Calendar {
        calendar_identifier: "cal-1".to_string(),
        title: "Work".to_string(),
        allows_content_modifications: true,
        source_title: Some("iCloud".to_string()),
    }];
    let out = list_calendars_reply(Ok(cals)).unwrap();
    assert_eq!(out.len(), 1);
    assert_eq!(out[0].id, "cal-1");
    assert_eq!(out[0].title, "Work");
    assert!(out[0].allows_modifications);
    assert_eq!(out[0].source.as_deref(), Some("iCloud"));
}

#[test]
fn list_calendars_reply_store_failure() {
    let e = list_calendars_reply(Err("authorization denied".to_string())).unwrap_err();
    assert_eq!(e.kind, ErrorKind::Internal);
    assert_eq!(e.message, "authorization denied");
}

#[test]
fn calendar_filter_cases() {
    assert_eq!(calendar_filter(None), None);
    assert_eq!(calendar_filter(Some("c".to_string())), Some(vec!["c".to_string()]));
}

#[test]
fn list_events_query_readme_example() {
    let q = list_events_query(ListEventsParams {
        start: "2026-06-01T00:00:00Z".to_string(),
        end: "2026-06-30T23:59:59Z".to_string(),
        calendar_id: Some("cal-1".to_string()),
    })
    .unwrap();
    assert_eq!(q.start, at("2026-06-01T00:00:00Z"));
    assert_eq!(q.end, at("2026-06-30T23:59:59Z"));
    assert_eq!(q.calendar_ids, Some(vec!["cal-1".to_string()]));
}

#[test]
fn list_events_query_reports_start_first() {
    let e = list_events_query(ListEventsParams {
        start: "bad".to_string(),
        end: "worse".to_string(),
        calendar_id: None,
    })
    .unwrap_err();
    assert_eq!(e.kind, ErrorKind::InvalidParams);
    assert!(e.message.starts_with("invalid start: "));
}

#[test]
fn list_events_query_reports_end() {
    let e = list_events_query(ListEventsParams {
        start: "2026-06-01T00:00:00Z".to_string(),
        end: "worse".to_string(),
        calendar_id: None,
    })
    .unwrap_err();
    let chrono_err = chrono::DateTime::parse_from_rfc3339("worse").unwrap_err();
    assert_eq!(e.message, format!("invalid end: {chrono_err}"));
}

#[test]
fn list_events_reply_reports_events() {
    let out = list_events_reply(Ok(vec![stored_event()])).unwrap();
    assert_eq!(out.len(), 1);
    assert_eq!(out[0].id.as_deref(), Some("e-1"));
    assert_eq!(out[0].start_date.as_deref(), Some("2026-07-01T09:00:00+00:00"));
    assert_eq!(out[0].end_date.as_deref(), Some("2026-07-01T10:00:00+00:00"));
    assert_eq!(out[0].calendar_id.as_deref(), Some("cal-1"));
    assert_eq!(out[0].location.as_deref(), Some("Conf room A"));
}

#[test]
fn list_events_reply_store_failure() {
    let e = list_events_reply(Err("calendar not found: c".to_string())).unwrap_err();
    assert_eq!(e.kind, ErrorKind::Internal);
}

#[test]
fn event_to_json_without_dates() {
    let mut ev = stored_event();
    ev.start_date = None;
    ev.end_date = None;
    ev.is_all_day = true;
    let j = event_to_json(&ev);
    assert_eq!(j.start_date, None);
    assert_eq!(j.end_date, None);
    assert!(j.is_all_day);
    assert_eq!(j.title, "Team sync");
    assert_eq!(j.notes.as_deref(), Some("Quarterly review"));
}

#[test]
fn get_event_reply_cases() {
    let p = EventIdParams { id: "e-1".to_string() };
    assert_eq!(get_event_reply(&p, Ok(Some(stored_event()))).unwrap(), event_to_json(&stored_event()));
    let e = get_event_reply(&p, Ok(None)).unwrap_err();
    assert_eq!(e.kind, ErrorKind::InvalidParams);
    assert_eq!(e.message, "event not found: e-1");
    assert_eq!(e, event_not_found("e-1"));
    let e = get_event_reply(&p, Err("boom".to_string())).unwrap_err();
    assert_eq!(e.kind, ErrorKind::Internal);
    assert_eq!(e.message, "boom");
}

fn create_params() -> CreateEventParams {
    CreateEventParams {
        title: "Team sync".to_string(),
        start: "2026-07-01T09:00:00Z".to_string(),
        end: "2026-07-01T10:00:00Z".to_string(),
        notes: Some("Quarterly review".to_string()),
        calendar_id: Some("cal-1".to_string()),
        location: Some("Conf room A".to_string()),
        is_all_day: Some(false),
    }
}

#[test]
fn create_event_draft_readme_example() {
    let ev = create_event_draft(create_params()).unwrap();
    let mut expected = stored_event();
    expected.identifier = None;
    assert_eq!(ev, expected);
}

#[test]
fn create_event_draft_not_all_day_by_default() {
    let mut p = create_params();
    p.is_all_day = None;
    assert!(!create_event_draft(p).unwrap().is_all_day);
    let mut p = create_params();
    p.is_all_day = Some(true);
    assert!(create_event_draft(p).unwrap().is_all_day);
}

#[test]
fn create_event_draft_rejects_dates_start_first() {
    let mut p = create_params();
    p.start = "x".to_string();
    p.end = "y".to_string();
    let e = create_event_draft(p).unwrap_err();
    assert!(e.message.starts_with("invalid start: "));
    let mut p = create_params();
    p.end = "y".to_string();
    let e = create_event_draft(p).unwrap_err();
    assert_eq!(e.kind, ErrorKind::InvalidParams);
    assert!(e.message.starts_with("invalid end: "));
}

#[test]
fn update_event_draft_readme_example() {
    let p = UpdateEventParams {
        id: "e-1".to_string(),
        title: Some("Updated title".to_string()),
        start: Some("2026-07-01T10:00:00Z".to_string()),
        end: Some("2026-07-01T11:00:00Z".to_string()),
        notes: Some("New notes".to_string()),
        location: Some("Conf room B".to_string()),
    };
    let ev = update_event_draft(p, Ok(Some(stored_event()))).unwrap();
    assert_eq!(ev.identifier.as_deref(), Some("e-1"));
    assert_eq!(ev.title, "Updated title");
    assert_eq!(ev.start_date, Some(at("2026-07-01T10:00:00Z")));
    assert_eq!(ev.end_date, Some(at("2026-07-01T11:00:00Z")));
    assert_eq!(ev.notes.as_deref(), Some("New notes"));
    assert_eq!(ev.location.as_deref(), Some("Conf room B"));
    assert_eq!(ev.calendar_identifier.as_deref(), Some("cal-1"));
    assert!(!ev.is_all_day);
}

#[test]
fn update_event_draft_changes_only_supplied_fields() {
    let mut p = no_changes("e-1");
    p.location = Some("Conf room B".to_string());
    let ev = update_event_draft(p, Ok(Some(stored_event()))).unwrap();
    let mut expected = stored_event();
    expected.location = Some("Conf room B".to_string());
    assert_eq!(ev, expected);
}

#[test]
fn update_event_draft_empty_update_keeps_event() {
    let ev = update_event_draft(no_changes("e-1"), Ok(Some(stored_event()))).unwrap();
    assert_eq!(ev, stored_event());
}

#[test]
fn update_event_draft_is_idempotent() {
    let mut p = no_changes("e-1");
    p.title = Some("Moved".to_string());
    p.start = Some("2026-07-02T09:00:00+01:00".to_string());
    let once = update_event_draft(p.clone(), Ok(Some(stored_event()))).unwrap();
    let twice = update_event_draft(p, Ok(Some(once.clone()))).unwrap();
    assert_eq!(once, twice);
}

#[test]
fn update_event_draft_not_found() {
    let e = update_event_draft(no_changes("e-404"), Ok(None)).unwrap_err();
    assert_eq!(e.kind, ErrorKind::InvalidParams);
    assert_eq!(e.message, "event not found: e-404");
}

#[test]
fn update_event_draft_fetch_failure() {
    let e = update_event_draft(no_changes("e-1"), Err("authorization denied".to_string()))
        .unwrap_err();
    assert_eq!(e.kind, ErrorKind::Internal);
    assert_eq!(e.message, "authorization denied");
}

#[test]
fn update_event_draft_bad_start_reported_before_end() {
    let mut p = no_changes("e-1");
    p.start = Some("soon".to_string());
    p.end = Some("later".to_string());
    let e = update_event_draft(p, Ok(Some(stored_event()))).unwrap_err();
    let chrono_err = chrono::DateTime::parse_from_rfc3339("soon").unwrap_err();
    assert_eq!(e.kind, ErrorKind::InvalidParams);
    assert_eq!(e.message, format!("invalid start: {chrono_err}"));
}

#[test]
fn update_event_draft_bad_end() {
    let mut p = no_changes("e-1");
    p.end = Some("later".to_string());
    let e = update_event_draft(p, Ok(Some(stored_event()))).unwrap_err();
    assert!(e.message.starts_with("invalid end: "));
}

#[test]
fn update_event_reply_cases() {
    assert_eq!(update_event_reply("e-1", Ok("e-1".to_string())).unwrap(), "event e-1 updated");
    let e = update_event_reply("e-1", Err("save failed: x".to_string())).unwrap_err();
    assert_eq!(e.kind, ErrorKind::Internal);
    assert_eq!(e.message, "save failed: x");
}

#[test]
fn delete_event_reply_cases() {
    let p = EventIdParams { id: "e-7".to_string() };
    assert_eq!(delete_event_reply(&p, Ok(())).unwrap(), "event e-7 deleted");
    let e = delete_event_reply(&p, Err("remove failed: y".to_string())).unwrap_err();
    assert_eq!(e.kind, ErrorKind::Internal);
    assert_eq!(e.message, "remove failed: y");
}

#[test]
fn reported_event_dates_read_back() {
    let e = stored_event();
    let j = event_to_json(&e);
    assert_eq!(parse_datetime(&j.start_date.unwrap(), "start"), Ok(e.start_date.unwrap()));
    assert_eq!(parse_datetime(&j.end_date.unwrap(), "end"), Ok(e.end_date.unwrap()));
}
