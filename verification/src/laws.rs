use vstd::prelude::*;

use crate::calendar::updated_event;
use crate::params::UpdateEventParams;
use crate::error::ToolError;
use crate::records::{CalendarEvent, Reminder};
use crate::reply::{reports_event, reports_reminder, CalendarEventJson, ReminderJson};
use crate::civil::{days_from_civil, lemma_days_count_on, month_len};
use crate::rfc3339::{
    denoted_nanos, denoted_secs, offset_len, offset_seconds, offset_start, rfc3339_layout,
    text_day, text_hour, text_minute, text_month, text_second, text_year, utc_text_of,
};
use crate::timestamp::{four_digit_year, parsed_date, parses_to, rfc3339_text, Timestamp};

verus! {

/// An update that supplies no field leaves the event exactly as it was.
pub proof fn law_empty_update_keeps_event(old: CalendarEvent, p: UpdateEventParams, new: CalendarEvent)
    requires
        p.title is None,
        p.start is None,
        p.end is None,
        p.notes is None,
        p.location is None,
        updated_event(old, p, new),
    ensures
        new == old,
{
}

/// Applying the same update a second time changes nothing more: the update
/// is idempotent.
pub proof fn law_update_idempotent(
    old: CalendarEvent,
    p: UpdateEventParams,
    once: CalendarEvent,
    twice: CalendarEvent,
)
    requires
        updated_event(old, p, once),
        updated_event(once, p, twice),
    ensures
        twice == once,
{
    if p.start is Some {
        once.start_date.unwrap().lemma_same_parts(twice.start_date.unwrap());
    }
    if p.end is Some {
        once.end_date.unwrap().lemma_same_parts(twice.end_date.unwrap());
    }
}

/// What `Timestamp::to_rfc3339` writes for an instant of the years 0 to
/// 9999, read with `parse_datetime` under any parameter name, is that same
/// instant: formatting and parsing are inverse there. `written` is the text
/// as `to_rfc3339`'s contract describes it, and `r` the result as
/// `parse_datetime`'s contract describes it.
pub proof fn law_written_date_reads_back(
    t: Timestamp,
    written: Seq<char>,
    field: Seq<char>,
    r: Result<Timestamp, ToolError>,
)
    requires
        four_digit_year(t.spec_secs() as int),
        written == rfc3339_text(t.spec_secs(), t.spec_nanos()),
        four_digit_year(t.spec_secs() as int) ==> parses_to(written, t),
        parsed_date(r, field, written),
    ensures
        r == Ok::<Timestamp, ToolError>(t),
{
    r.unwrap().lemma_same_parts(t);
}

/// The start and end that an event's report shows, read with
/// `parse_datetime`, are exactly the stored instants (for the years 0 to
/// 9999).
pub proof fn law_reported_event_dates_read_back(
    e: CalendarEvent,
    j: CalendarEventJson,
    field: Seq<char>,
    start: Result<Timestamp, ToolError>,
    end: Result<Timestamp, ToolError>,
)
    requires
        reports_event(j, e),
        e.start_date matches Some(d) ==> four_digit_year(d.spec_secs() as int),
        e.end_date matches Some(d) ==> four_digit_year(d.spec_secs() as int),
        j.start_date matches Some(s) ==> parsed_date(start, field, s@),
        j.end_date matches Some(s) ==> parsed_date(end, field, s@),
    ensures
        e.start_date matches Some(d) ==> start == Ok::<Timestamp, ToolError>(d),
        e.end_date matches Some(d) ==> end == Ok::<Timestamp, ToolError>(d),
{
    if e.start_date is Some {
        start.unwrap().lemma_same_parts(e.start_date.unwrap());
    }
    if e.end_date is Some {
        end.unwrap().lemma_same_parts(e.end_date.unwrap());
    }
}

/// The due date that a reminder's report shows, read with `parse_datetime`,
/// is exactly the stored instant (for the years 0 to 9999).
pub proof fn law_reported_due_date_reads_back(
    rem: Reminder,
    j: ReminderJson,
    field: Seq<char>,
    due: Result<Timestamp, ToolError>,
)
    requires
        reports_reminder(j, rem),
        rem.due_date matches Some(d) ==> four_digit_year(d.spec_secs() as int),
        j.due_date matches Some(s) ==> parsed_date(due, field, s@),
    ensures
        rem.due_date matches Some(d) ==> due == Ok::<Timestamp, ToolError>(d),
{
    if rem.due_date is Some {
        due.unwrap().lemma_same_parts(rem.due_date.unwrap());
    }
}

/// The day count behind every date is the Gregorian calendar: 1970-01-01
/// is day 0 and each date is one day after the one before it, across month
/// and year ends alike.
pub proof fn law_days_count_calendar(y: int, m: int, d: int)
    ensures
        days_from_civil(1970, 1, 1) == 0,
        1 <= d < month_len(y, m) ==> days_from_civil(y, m, d + 1) == days_from_civil(y, m, d) + 1,
        1 <= m < 12 ==> days_from_civil(y, m + 1, 1) == days_from_civil(y, m, month_len(y, m))
            + 1,
        days_from_civil(y + 1, 1, 1) == days_from_civil(y, 12, 31) + 1,
{
    lemma_days_count_on(y, m, d);
}

/// `r` is what `parse_datetime` returns for `text`, as its contract says.
pub open spec fn parse_datetime_result(
    r: Result<Timestamp, ToolError>,
    field: Seq<char>,
    text: Seq<char>,
) -> bool {
    &&& parsed_date(r, field, text)
    &&& rfc3339_layout(text) ==> (r matches Ok(t) && t.spec_secs() == denoted_secs(text)
        && t.spec_nanos() == denoted_nanos(text))
}

/// A date-time in UTC (`Z`) is read as its calendar date and clock time:
/// the Unix seconds are the days since 1970-01-01 times 86400 plus the
/// seconds of the day, and the fraction gives the nanoseconds.
pub proof fn law_utc_text_is_its_calendar_time(
    text: Seq<char>,
    field: Seq<char>,
    r: Result<Timestamp, ToolError>,
)
    requires
        rfc3339_layout(text),
        offset_len(text) == 1,
        text_second(text) < 60,
        parse_datetime_result(r, field, text),
    ensures
        r matches Ok(t) && t.spec_secs() == days_from_civil(
            text_year(text),
            text_month(text),
            text_day(text),
        ) * 86400 + text_hour(text) * 3600 + text_minute(text) * 60 + text_second(text)
            && t.spec_nanos() < 1_000_000_000,
{
    lemma_padded_fraction_below_second(text);
}

proof fn lemma_padded_fraction_below_second(text: Seq<char>)
    requires
        rfc3339_layout(text),
    ensures
        0 <= crate::rfc3339::decimal_value(crate::rfc3339::padded_fraction(text)) < 1_000_000_000,
{
    crate::rfc3339::lemma_padded_fraction_bounds(text);
}

/// The offset is subtracted: the parsed instant plus the offset east of UTC
/// is the wall-clock time the text shows, for east and west offsets alike,
/// so `...T09:00:00-04:00` is 13:00 UTC and `...T19:00:00+10:00` is 09:00
/// UTC.
pub proof fn law_parsed_instant_plus_offset_is_wall_clock(
    text: Seq<char>,
    field: Seq<char>,
    r: Result<Timestamp, ToolError>,
)
    requires
        rfc3339_layout(text),
        parse_datetime_result(r, field, text),
    ensures
        r matches Ok(t) && t.spec_secs() + offset_seconds(text) == days_from_civil(
            text_year(text),
            text_month(text),
            text_day(text),
        ) * 86400 + text_hour(text) * 3600 + text_minute(text) * 60 + (if text_second(text) == 60 {
            59
        } else {
            text_second(text)
        }),
        offset_len(text) == 6 ==> offset_seconds(text) == (if text[offset_start(text)] == '-'
            || text[offset_start(text)] == '\u{2212}' {
            -1int
        } else {
            1int
        }) * (crate::rfc3339::two_digits(text, offset_start(text) + 1) * 3600
            + crate::rfc3339::two_digits(text, offset_start(text) + 4) * 60),
{
}

/// The same wall-clock time written with two offsets names instants that
/// differ by exactly the difference of the offsets: a later offset east is
/// an earlier instant.
pub proof fn law_offsets_shift_instants(
    a: Seq<char>,
    b: Seq<char>,
    field: Seq<char>,
    ra: Result<Timestamp, ToolError>,
    rb: Result<Timestamp, ToolError>,
)
    requires
        rfc3339_layout(a),
        rfc3339_layout(b),
        forall|k: int| 0 <= k < 19 ==> a[k] == b[k],
        parse_datetime_result(ra, field, a),
        parse_datetime_result(rb, field, b),
    ensures
        ra matches Ok(ta) && rb matches Ok(tb) && ta.spec_secs() - tb.spec_secs() == offset_seconds(
            b,
        ) - offset_seconds(a),
{
    assert(crate::rfc3339::two_digits(a, 0) == crate::rfc3339::two_digits(b, 0));
    assert(crate::rfc3339::two_digits(a, 2) == crate::rfc3339::two_digits(b, 2));
    assert(text_month(a) == text_month(b));
    assert(text_day(a) == text_day(b));
    assert(text_hour(a) == text_hour(b));
    assert(text_minute(a) == text_minute(b));
    assert(text_second(a) == text_second(b));
}

/// The text `Timestamp::to_rfc3339` writes for an instant of the years 0 to
/// 9999 shows that instant in UTC: offset `+00:00`, and a calendar date and
/// clock time whose day count times 86400 plus seconds of the day is the
/// instant's Unix seconds.
pub proof fn law_written_text_shows_instant(t: Timestamp, written: Seq<char>)
    requires
        four_digit_year(t.spec_secs() as int),
        utc_text_of(written, t.spec_secs() as int, t.spec_nanos() as int),
    ensures
        rfc3339_layout(written),
        offset_len(written) == 6 && offset_seconds(written) == 0,
        days_from_civil(text_year(written), text_month(written), text_day(written)) * 86400
            + text_hour(written) * 3600 + text_minute(written) * 60 + (if text_second(written)
            == 60 {
            59
        } else {
            text_second(written)
        }) == t.spec_secs(),
        text_second(written) == 60 <==> t.spec_nanos() >= 1_000_000_000,
{
    lemma_padded_fraction_below_second(written);
}

/// Formatting and parsing are inverse for the years 0 to 9999, as shown by
/// the verified reader and writer alone: `parse_datetime` applied to what
/// `to_rfc3339` writes gives the same instant back.
pub proof fn law_written_text_parses_back(
    t: Timestamp,
    written: Seq<char>,
    field: Seq<char>,
    r: Result<Timestamp, ToolError>,
)
    requires
        four_digit_year(t.spec_secs() as int),
        utc_text_of(written, t.spec_secs() as int, t.spec_nanos() as int),
        parse_datetime_result(r, field, written),
    ensures
        r == Ok::<Timestamp, ToolError>(t),
{
    r.unwrap().lemma_same_parts(t);
}

} // verus!
