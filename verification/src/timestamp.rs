use vstd::prelude::*;

use crate::error::{concat3, invalid_params, is_invalid_params, ToolError};
use crate::rfc3339::{
    denoted_nanos, denoted_secs, is_utc_text, read_rfc3339, rfc3339_layout, utc_text_of,
    write_utc_text,
};

verus! {

/// Seconds from the Unix epoch of the first instant chrono can represent
/// (January 1 of year -262143, 00:00:00 UTC).
pub const MIN_SECS: i64 = -8334601228800i64;

/// Seconds from the Unix epoch of the last whole second chrono can represent
/// (December 31 of year 262142, 23:59:59 UTC).
pub const MAX_SECS: i64 = 8210266876799i64;

/// Seconds from the Unix epoch of 0000-01-01T00:00:00Z, the first instant
/// whose year RFC 3339 writes with four digits.
pub const FOUR_DIGIT_YEARS_START: i64 = -62167219200i64;

/// Seconds from the Unix epoch of 9999-12-31T23:59:59Z, the last whole
/// second whose year RFC 3339 writes with four digits.
pub const FOUR_DIGIT_YEARS_END: i64 = 253402300799i64;

/// The instant lies in the years 0 to 9999, the years RFC 3339 can write.
pub open spec fn four_digit_year(secs: int) -> bool {
    FOUR_DIGIT_YEARS_START <= secs <= FOUR_DIGIT_YEARS_END
}

/// An instant is a valid UTC date-time: its seconds lie in the representable
/// range, and its sub-second part is below one second, or below two seconds
/// when the instant is a leap second (the 59th second of a minute).
pub open spec fn valid_instant(secs: int, nanos: int) -> bool {
    &&& MIN_SECS <= secs <= MAX_SECS
    &&& 0 <= nanos < 2_000_000_000
    &&& (nanos >= 1_000_000_000 ==> secs % 60 == 59)
}

/// A UTC instant, held as seconds since the Unix epoch and nanoseconds
/// since the start of that second.
#[derive(Debug, Clone, Copy, PartialEq, Eq)]
pub struct Timestamp {
    secs: i64,
    nanos: u32,
}

impl Timestamp {
    #[verifier::type_invariant]
    spec fn wf(self) -> bool {
        valid_instant(self.secs as int, self.nanos as int)
    }

    pub closed spec fn spec_secs(self) -> i64 {
        self.secs
    }

    pub closed spec fn spec_nanos(self) -> u32 {
        self.nanos
    }

    /// Two timestamps with the same parts are the same instant.
    pub proof fn lemma_same_parts(self, other: Timestamp)
        requires
            self.spec_secs() == other.spec_secs(),
            self.spec_nanos() == other.spec_nanos(),
        ensures
            self == other,
    {
    }

    /// Builds the instant with the given parts, or `None` when they do not
    /// name a valid UTC date-time.
    pub fn from_parts(secs: i64, nanos: u32) -> (r: Option<Timestamp>)
        ensures
            r is Some <==> valid_instant(secs as int, nanos as int),
            r matches Some(t) ==> t.spec_secs() == secs && t.spec_nanos() == nanos,
    {
        if MIN_SECS <= secs && secs <= MAX_SECS && nanos < 2_000_000_000 && (nanos < 1_000_000_000
            || secs % 60 == 59 || secs % 60 == -1) {
            Some(Timestamp { secs, nanos })
        } else {
            None
        }
    }

    pub fn secs(&self) -> (r: i64)
        ensures
            r == self.spec_secs(),
            valid_instant(self.spec_secs() as int, self.spec_nanos() as int),
    {
        proof {
            use_type_invariant(self);
        }
        self.secs
    }

    pub fn nanos(&self) -> (r: u32)
        ensures
            r == self.spec_nanos(),
    {
        self.nanos
    }
}

/// What `chrono::DateTime::parse_from_rfc3339` makes of a text: the Unix
/// seconds and subsecond nanoseconds of the instant it denotes, taken in UTC,
/// or the text of the parse error it reports.
pub uninterp spec fn rfc3339_parse(text: Seq<char>) -> Result<(i64, u32), Seq<char>>;

/// The text that chrono's `DateTime::<Utc>::to_rfc3339` writes for the UTC
/// instant with the given Unix seconds and subsecond nanoseconds.
pub uninterp spec fn rfc3339_text(secs: i64, nanos: u32) -> Seq<char>;

/// Calls `chrono::DateTime::parse_from_rfc3339` and converts a success to
/// UTC. Trusted: the result (parts, or the error's `Display` text) is what
/// `rfc3339_parse` names for the text; an instant chrono parses is a valid
/// `DateTime<Utc>`, so its parts satisfy `valid_instant`; chrono accepts
/// exactly the texts in the layout `rfc3339_layout` describes (four-digit
/// year, `T`, `t` or space, fraction digits of which the first nine count,
/// `Z`, `z` or `+HH:MM`/`-HH:MM` with HH up to 23 and `-` or U+2212 for
/// minus, all fields in range); and it reads such a text as the instant of
/// its wall-clock time
/// minus its offset, with a second of 60 read as second 59 plus one second
/// of nanoseconds (chrono's `format::parse::parse_rfc3339`).
#[verifier::external_body]
fn parse_rfc3339(text: &str) -> (r: Result<(i64, u32), String>)
    ensures
        r is Ok ==> rfc3339_parse(text@) == Ok::<(i64, u32), Seq<char>>(r->Ok_0),
        r is Ok ==> valid_instant(r->Ok_0.0 as int, r->Ok_0.1 as int),
        r is Err ==> rfc3339_parse(text@) == Err::<(i64, u32), Seq<char>>(r->Err_0@),
        rfc3339_layout(text@) ==> r is Ok,
        r is Ok ==> rfc3339_layout(text@),
        rfc3339_layout(text@) && r is Ok ==> r->Ok_0.0 == denoted_secs(text@),
        rfc3339_layout(text@) && r is Ok ==> r->Ok_0.1 == denoted_nanos(text@),
{
    match chrono::DateTime::parse_from_rfc3339(text) {
        Ok(dt) => {
            let utc = dt.with_timezone(&chrono::Utc);
            Ok((utc.timestamp(), utc.timestamp_subsec_nanos()))
        },
        Err(e) => Err(e.to_string()),
    }
}

/// The successful parse of a text that denotes the instant with the given
/// parts.
pub open spec fn parsed_instant(secs: i64, nanos: u32) -> Result<(i64, u32), Seq<char>> {
    Ok((secs, nanos))
}

/// Calls chrono's `DateTime::<Utc>::to_rfc3339` on the instant with the given
/// parts, built by `DateTime::from_timestamp`, which returns `Some` for every
/// valid instant. Trusted: the text is what `rfc3339_text` names, and for an
/// instant in the years 0 to 9999 (written as four digits, with the offset
/// `+00:00`, a leap second as second 60, and every nonzero subsecond digit)
/// `DateTime::parse_from_rfc3339` reads it back as the same instant. Years
/// outside that range are written with a sign, which the parser refuses.
#[verifier::external_body]
fn format_rfc3339(secs: i64, nanos: u32) -> (r: String)
    requires
        valid_instant(secs as int, nanos as int),
    ensures
        r@ == rfc3339_text(secs, nanos),
        four_digit_year(secs as int) ==> rfc3339_parse(r@) == parsed_instant(secs, nanos),
        four_digit_year(secs as int) ==> utc_text_of(r@, secs as int, nanos as int),
{
    chrono::DateTime::from_timestamp(secs, nanos).unwrap().to_rfc3339()
}

/// `text`, when there is one, is a date text that parses back to the
/// instant `d` whenever `d` is an instant of the years 0 to 9999.
pub open spec fn reads_back(text: Option<String>, d: Option<Timestamp>) -> bool {
    d matches Some(t) ==> (four_digit_year(t.spec_secs() as int) ==> (text matches Some(s)
        && parses_to(s@, t)))
}

/// `text`, when there is one, is the UTC text of the instant `d` in the form
/// `utc_text_of` describes, whenever `d` is an instant of the years 0 to
/// 9999.
pub open spec fn shows_utc(text: Option<String>, d: Option<Timestamp>) -> bool {
    d matches Some(t) ==> (four_digit_year(t.spec_secs() as int) ==> (text matches Some(s)
        && utc_text_of(s@, t.spec_secs() as int, t.spec_nanos() as int)))
}

/// `t` is the instant that `text` denotes.
pub open spec fn parses_to(text: Seq<char>, t: Timestamp) -> bool {
    rfc3339_parse(text) == Ok::<(i64, u32), Seq<char>>((t.spec_secs(), t.spec_nanos()))
}

/// `e` rejects the date `text` given for the parameter `field`: its message
/// is `invalid <field>: <parse error>`.
pub open spec fn rejects_date(e: ToolError, field: Seq<char>, text: Seq<char>) -> bool {
    rfc3339_parse(text) matches Err(m) && is_invalid_params(e, "invalid "@ + field + ": "@ + m)
}

/// What `parse_datetime` returns for the text `text` of the parameter `field`.
pub open spec fn parsed_date(r: Result<Timestamp, ToolError>, field: Seq<char>, text: Seq<char>) -> bool {
    &&& r is Ok <==> rfc3339_parse(text) is Ok
    &&& r matches Ok(t) ==> parses_to(text, t)
    &&& r matches Err(e) ==> rejects_date(e, field, text)
}

/// `r` is what a tool that parses the dates `start` and `end`, in that
/// order, returns as far as those dates decide it: success needs both, and
/// the first that does not parse is the one reported.
pub open spec fn checks_range<T>(r: Result<T, ToolError>, start: Seq<char>, end: Seq<char>) -> bool {
    &&& r is Ok <==> (rfc3339_parse(start) is Ok && rfc3339_parse(end) is Ok)
    &&& rfc3339_parse(start) is Err ==> (r matches Err(e) && rejects_date(e, "start"@, start))
    &&& (rfc3339_parse(start) is Ok && rfc3339_parse(end) is Err) ==> (r matches Err(e)
        && rejects_date(e, "end"@, end))
}

impl Timestamp {
    /// The RFC 3339 text of this instant, as chrono writes it.
    /// For an instant in the years 0 to 9999 the text parses back to the
    /// same instant.
    pub fn to_rfc3339(&self) -> (r: String)
        ensures
            r@ == rfc3339_text(self.spec_secs(), self.spec_nanos()),
            four_digit_year(self.spec_secs() as int) ==> parses_to(r@, *self),
            four_digit_year(self.spec_secs() as int) ==> utc_text_of(
                r@,
                self.spec_secs() as int,
                self.spec_nanos() as int,
            ),
    {
        proof {
            use_type_invariant(self);
        }
        let text = format_rfc3339(self.secs, self.nanos);
        if FOUR_DIGIT_YEARS_START <= self.secs && self.secs <= FOUR_DIGIT_YEARS_END {
            if is_utc_text(text.as_str(), self.secs, self.nanos) {
                text
            } else {
                match write_utc_text(self.secs, self.nanos) {
                    Some(written) => written,
                    None => text,
                }
            }
        } else {
            text
        }
    }
}

/// Turns what chrono made of the date text of the parameter `field` into an
/// instant, or into the error that rejects the parameter.
pub fn date_from_parse(parsed: Result<(i64, u32), String>, field: &str) -> (r: Result<
    Timestamp,
    ToolError,
>)
    requires
        parsed matches Ok(p) ==> valid_instant(p.0 as int, p.1 as int),
    ensures
        parsed matches Ok(p) ==> r matches Ok(t) && t.spec_secs() == p.0 && t.spec_nanos() == p.1,
        parsed matches Err(m) ==> r matches Err(e) && is_invalid_params(
            e,
            "invalid "@ + field@ + ": "@ + m@,
        ),
{
    match parsed {
        Ok((secs, nanos)) => Ok(Timestamp::from_parts(secs, nanos).unwrap()),
        Err(m) => {
            let mut text = concat3("invalid ", field, ": ");
            text.append(m.as_str());
            Err(invalid_params(text))
        },
    }
}

/// Parses the RFC 3339 date-time `s` given for the parameter `field`, as a
/// UTC instant; a malformed text is rejected as invalid parameters with the
/// message `invalid <field>: <parse error>`.
///
/// Exactly the texts in the layout `rfc3339_layout` describes are accepted,
/// each as the instant of its wall-clock time minus its offset.
pub fn parse_datetime(s: &str, field: &str) -> (r: Result<Timestamp, ToolError>)
    ensures
        parsed_date(r, field@, s@),
        r is Ok <==> rfc3339_layout(s@),
        rfc3339_layout(s@) ==> (r matches Ok(t) && t.spec_secs() == denoted_secs(s@)
            && t.spec_nanos() == denoted_nanos(s@)),
{
    let parsed = parse_rfc3339(s);
    if let Some(q) = read_rfc3339(s) {
        if let Some(t) = Timestamp::from_parts(q.0, q.1) {
            return Ok(t);
        }
    }
    match parsed {
        Err(m) => date_from_parse(Err(m), field),
        // Not taken: chrono accepts only texts in the layout, and those the
        // reader has read above.
        Ok(_) => Err(invalid_params(concat3("invalid ", field, ": "))),
    }
}

} // verus!
