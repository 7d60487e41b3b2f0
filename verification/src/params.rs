use vstd::prelude::*;

verus! {

/// Arguments of `list_reminders`.
#[derive(Debug, Clone, PartialEq, Eq)]
pub struct ListRemindersParams {
    /// Identifier of the Reminder list to filter by (`None` for all lists).
    pub list_id: Option<String>,
}

/// Arguments of `get_reminder`, `complete_reminder` and `delete_reminder`.
#[derive(Debug, Clone, PartialEq, Eq)]
pub struct ReminderIdParams {
    /// Stable reminder identifier.
    pub id: String,
}

/// Arguments of `create_reminder`.
#[derive(Debug, Clone, PartialEq, Eq)]
pub struct CreateReminderParams {
    pub title: String,
    pub notes: Option<String>,
    /// Identifier of the Reminder list (`None` for the default list).
    pub list_id: Option<String>,
    /// Due date in RFC 3339 format.
    pub due_date: Option<String>,
    /// 0 = none (the default), 1 = high, 5 = medium, 9 = low.
    pub priority: Option<u8>,
}

/// Arguments of `list_events`.
#[derive(Debug, Clone, PartialEq, Eq)]
pub struct ListEventsParams {
    /// Start of the date range in RFC 3339 format.
    pub start: String,
    /// End of the date range in RFC 3339 format.
    pub end: String,
    /// Identifier of the Calendar to filter by (`None` for all calendars).
    pub calendar_id: Option<String>,
}

/// Arguments of `get_event` and `delete_event`.
#[derive(Debug, Clone, PartialEq, Eq)]
pub struct EventIdParams {
    /// Stable event identifier.
    pub id: String,
}

/// Arguments of `create_event`.
#[derive(Debug, Clone, PartialEq, Eq)]
pub struct CreateEventParams {
    pub title: String,
    /// Start in RFC 3339 format.
    pub start: String,
    /// End in RFC 3339 format.
    pub end: String,
    pub notes: Option<String>,
    /// Identifier of the Calendar (`None` for the default calendar).
    pub calendar_id: Option<String>,
    pub location: Option<String>,
    /// Whether this is an all-day event (default: false).
    pub is_all_day: Option<bool>,
}

/// Arguments of `update_event`: every field but `id` is optional, and only
/// the fields supplied are changed.
#[derive(Debug, Clone, PartialEq, Eq)]
pub struct UpdateEventParams {
    pub id: String,
    pub title: Option<String>,
    /// New start in RFC 3339 format.
    pub start: Option<String>,
    /// New end in RFC 3339 format.
    pub end: Option<String>,
    pub notes: Option<String>,
    pub location: Option<String>,
}

} // verus!
