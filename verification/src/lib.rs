//! Verified core of an MCP server that exposes macOS Reminders and Calendar
//! events: request validation, date handling, the update-merge rule for
//! events, and the shapes and texts of every tool reply.
pub mod civil;
pub mod rfc3339;
pub mod timestamp;
pub mod error;
pub mod records;
pub mod reply;
pub mod params;
pub mod calendar;
pub mod reminders;
pub mod laws;
