# eventkit-mcp-server

An MCP server that exposes macOS Reminders and Calendar events through
Apple's EventKit, split into a verified library and a thin program.

- `src/` — the library, verified with Verus:
  - `timestamp.rs`: UTC instants, RFC 3339 parsing and formatting through chrono;
  - `error.rs`: the tool error (invalid parameters or a database failure);
  - `records.rs`: reminders, lists, calendars and events as the databases hold them;
  - `reply.rs`: what the tools report for each record;
  - `params.rs`: the tools' arguments;
  - `reminders.rs`, `calendar.rs`: each tool's decisions before and after its
    database call, including the update rule for events;
  - `laws.rs`: properties of the event update, and that reported dates read back as the stored instants.
- `app/` — the program: MCP plumbing (rmcp over stdio), the EventKit calls,
  serde shapes and JSON output.
- `tests/` — tests of the library against the real chrono.
