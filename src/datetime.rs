use vstd::prelude::*;

verus! {

/// Nanoseconds in one second.
pub const NANOS_PER_SEC: u32 = 1_000_000_000;

/// Seconds in one day; a UTC offset lies strictly within one day either way.
pub const SECS_PER_DAY: i32 = 86_400;

/// An absolute point in time without a UTC offset: whole seconds since
/// 1970-01-01T00:00:00Z (rounded towards negative infinity) and the
/// nanoseconds past that second.
#[derive(Clone, Copy, Debug, PartialEq, Eq, Structural)]
pub struct Instant {
    pub seconds: i64,
    pub nanos: u32,
}

impl Instant {
    pub open spec fn wf(&self) -> bool {
        self.nanos < NANOS_PER_SEC
    }

    /// The point in time as nanoseconds since the epoch.
    pub open spec fn abs_nanos(&self) -> int {
        self.seconds * NANOS_PER_SEC as int + self.nanos as int
    }

    /// The instant `seconds` and `nanos` past the epoch, where `nanos` is
    /// below one second.
    pub fn new(seconds: i64, nanos: u32) -> (r: Option<Instant>)
        ensures
            r matches Some(t) ==> t == (Instant { seconds, nanos }),
            r is Some <==> (Instant { seconds, nanos }).wf(),
    {
        if nanos < NANOS_PER_SEC {
            Some(Instant { seconds, nanos })
        } else {
            None
        }
    }
}

/// An absolute point in time together with the UTC offset it was written in.
///
/// `seconds` and `nanos` locate the point in time exactly as for [`Instant`];
/// `nanos` may reach past one second to express a leap second.
/// `offset` is local time minus UTC, in seconds.
#[derive(Clone, Copy, Debug, PartialEq, Eq, Structural)]
pub struct OffsetDatetime {
    pub seconds: i64,
    pub nanos: u32,
    pub offset: i32,
}

impl OffsetDatetime {
    pub open spec fn wf(&self) -> bool {
        &&& self.nanos < 2 * NANOS_PER_SEC
        &&& self.nanos >= NANOS_PER_SEC ==> self.seconds < i64::MAX
        &&& -SECS_PER_DAY < self.offset < SECS_PER_DAY
    }

    /// The point in time as nanoseconds since the epoch; the offset plays no part.
    pub open spec fn abs_nanos(&self) -> int {
        self.seconds * NANOS_PER_SEC as int + self.nanos as int
    }

    /// The datetime of the given fields, where they are well formed.
    pub fn new(seconds: i64, nanos: u32, offset: i32) -> (r: Option<OffsetDatetime>)
        ensures
            r matches Some(x) ==> x == (OffsetDatetime { seconds, nanos, offset }),
            r is Some <==> (OffsetDatetime { seconds, nanos, offset }).wf(),
    {
        if nanos < 2 * NANOS_PER_SEC && (nanos < NANOS_PER_SEC || seconds < i64::MAX)
            && -SECS_PER_DAY < offset && offset < SECS_PER_DAY {
            Some(OffsetDatetime { seconds, nanos, offset })
        } else {
            None
        }
    }

    /// Whether `self` and `other` denote the same point in time, whatever
    /// their offsets.
    pub fn same_instant(&self, other: &OffsetDatetime) -> (r: bool)
        ensures
            r == (self.abs_nanos() == other.abs_nanos()),
    {
        nanos_since_epoch(self.seconds, self.nanos) == nanos_since_epoch(other.seconds, other.nanos)
    }
}

/// `seconds` whole seconds and `nanos` nanoseconds, counted in nanoseconds.
pub fn nanos_since_epoch(seconds: i64, nanos: u32) -> (r: i128)
    ensures
        r == seconds * NANOS_PER_SEC as int + nanos as int,
{
    let s = seconds as i128;
    assert(-0x8000_0000_0000_0000_0000_0000 <= s * 1_000_000_000 <= 0x7000_0000_0000_0000_0000_0000) by (nonlinear_arith)
        requires
            -0x8000_0000_0000_0000 <= s < 0x8000_0000_0000_0000,
    ;
    s * 1_000_000_000 + nanos as i128
}

/// The instant that `x` denotes, with a leap second carried into the next second.
pub open spec fn instant_of(x: OffsetDatetime) -> Instant {
    if x.nanos >= NANOS_PER_SEC {
        Instant { seconds: (x.seconds + 1) as i64, nanos: (x.nanos - NANOS_PER_SEC) as u32 }
    } else {
        Instant { seconds: x.seconds, nanos: x.nanos }
    }
}

/// The instant `t` read as a UTC datetime.
pub open spec fn utc_of(t: Instant) -> OffsetDatetime {
    OffsetDatetime { seconds: t.seconds, nanos: t.nanos, offset: 0 }
}

/// Drops the offset of `x`, keeping the point in time it denotes.
pub fn to_instant(x: &OffsetDatetime) -> (r: Instant)
    requires
        x.wf(),
    ensures
        r == instant_of(*x),
        r.wf(),
        r.abs_nanos() == x.abs_nanos(),
{
    if x.nanos >= NANOS_PER_SEC {
        Instant { seconds: x.seconds + 1, nanos: x.nanos - NANOS_PER_SEC }
    } else {
        Instant { seconds: x.seconds, nanos: x.nanos }
    }
}

/// Reads `t` as a datetime in UTC.
pub fn to_offset_datetime_utc(t: &Instant) -> (r: OffsetDatetime)
    requires
        t.wf(),
    ensures
        r == utc_of(*t),
        r.wf(),
        r.offset == 0,
        r.abs_nanos() == t.abs_nanos(),
{
    OffsetDatetime { seconds: t.seconds, nanos: t.nanos, offset: 0 }
}


/// The text layouts a datetime can be read from.
#[derive(Clone, Copy, Debug, PartialEq, Eq, Structural)]
pub enum ParsePattern {
    /// Two-digit year, month, day, hour, minute, second and a numeric offset:
    /// `961219163957+0000`.
    Compact,
    /// The internet date-time profile, with or without fractional seconds:
    /// `2018-01-26T18:30:09.453Z`.
    Internet,
}

/// The text layouts a datetime can be written in.
///
/// Sub-second precision is part of each layout: `ClockTime` drops the
/// fraction of the second (truncating, never rounding), while the other two
/// write as many fractional digits as the value needs.
#[derive(Clone, Copy, Debug, PartialEq, Eq, Structural)]
pub enum FormatPattern {
    /// `MM/DD/YYYY HH:MM:SS`, whole seconds only.
    ClockTime,
    /// The internet date-time profile with a `+HH:MM` offset.
    Iso8601,
    /// `YYYY-MM-DDTHH:MM:SS.fff+HH:MM`, the fraction written only when nonzero.
    IsoFractional,
}

pub open spec fn parse_pattern_spec(p: ParsePattern) -> Seq<char> {
    match p {
        ParsePattern::Compact => "%y%m%d%H%M%S%z"@,
        ParsePattern::Internet => "%+"@,
    }
}

pub open spec fn format_pattern_spec(p: FormatPattern) -> Seq<char> {
    match p {
        FormatPattern::ClockTime => "%m/%d/%Y %T"@,
        FormatPattern::Iso8601 => "%+"@,
        FormatPattern::IsoFractional => "%Y-%m-%dT%H:%M:%S%.f%:z"@,
    }
}

/// The strftime-style description of `p`.
pub fn parse_pattern_text(p: ParsePattern) -> (r: &'static str)
    ensures
        r@ == parse_pattern_spec(p),
{
    match p {
        ParsePattern::Compact => "%y%m%d%H%M%S%z",
        ParsePattern::Internet => "%+",
    }
}

/// The strftime-style description of `p`.
pub fn format_pattern_text(p: FormatPattern) -> (r: &'static str)
    ensures
        r@ == format_pattern_spec(p),
{
    match p {
        FormatPattern::ClockTime => "%m/%d/%Y %T",
        FormatPattern::Iso8601 => "%+",
        FormatPattern::IsoFractional => "%Y-%m-%dT%H:%M:%S%.f%:z",
    }
}

/// What went wrong while reading or writing a datetime.
#[derive(Clone, Debug, PartialEq, Eq)]
pub enum DateTimeError {
    /// `text` does not match `pattern`.
    Parse { text: String, pattern: String },
    /// The value lies outside the range of dates that can be written out.
    OutOfRange,
}

#[verifier::external_type_specification]
#[verifier::external_body]
pub struct ExChronoParseError(chrono::format::ParseError);

/// Seconds since the epoch, nanoseconds past that second and the offset in
/// seconds of the datetime that `text` spells in the strftime layout `fmt`,
/// or `None` where `text` does not match.
pub uninterp spec fn parsed_fields(text: Seq<char>, fmt: Seq<char>) -> Option<(int, int, int)>;

/// Relies on `chrono::DateTime::parse_from_str`: its result depends on the two
/// strings alone; `timestamp_subsec_nanos` stays under two seconds and exceeds
/// one only within a leap second, which a `NaiveTime` holds only at second 59
/// (the layouts of [`ParsePattern`] read offsets in whole minutes, so the UTC
/// timestamp ends in :59 too); and a `FixedOffset` lies strictly within one day.
#[verifier::external_body]
fn chrono_parse(text: &str, fmt: &str) -> (r: Result<(i64, u32, i32), chrono::format::ParseError>)
    requires
        exists|p: ParsePattern| fmt@ == parse_pattern_spec(p),
    ensures
        match r {
            Ok(f) => {
                &&& parsed_fields(text@, fmt@) == Some((f.0 as int, f.1 as int, f.2 as int))
                &&& f.1 < 2 * NANOS_PER_SEC
                &&& f.1 >= NANOS_PER_SEC ==> f.0 % 60 == 59
                &&& -SECS_PER_DAY < f.2 < SECS_PER_DAY
            },
            Err(_) => parsed_fields(text@, fmt@) is None,
        },
{
    let dt = chrono::DateTime::parse_from_str(text, fmt)?;
    Ok((dt.timestamp(), dt.timestamp_subsec_nanos(), dt.offset().local_minus_utc()))
}

/// The datetime that the fields read by [`parsed_fields`] describe.
pub open spec fn datetime_of_fields(f: (int, int, int)) -> OffsetDatetime {
    OffsetDatetime { seconds: f.0 as i64, nanos: f.1 as u32, offset: f.2 as i32 }
}

/// Reads `text` in the layout `pattern`.
///
/// Succeeds exactly when the text matches the layout, with the datetime it
/// spells; otherwise the error names the text and the layout.
pub fn parse_offset_datetime(text: &str, pattern: ParsePattern) -> (r: Result<OffsetDatetime, DateTimeError>)
    ensures
        match parsed_fields(text@, parse_pattern_spec(pattern)) {
            Some(f) => r == Ok::<OffsetDatetime, DateTimeError>(datetime_of_fields(f)) && datetime_of_fields(f).wf(),
            None => r matches Err(DateTimeError::Parse { text: t, pattern: p })
                && t@ == text@ && p@ == parse_pattern_spec(pattern),
        },
{
    let fmt = parse_pattern_text(pattern);
    match chrono_parse(text, fmt) {
        Ok(f) => {
            assert(i64::MAX % 60 == 7);
            match OffsetDatetime::new(f.0, f.1, f.2) {
                Some(x) => Ok(x),
                None => Err(DateTimeError::OutOfRange),
            }
        },
        Err(_) => Err(DateTimeError::Parse { text: String::from_str(text), pattern: String::from_str(fmt) }),
    }
}


/// The text that a UTC datetime of `seconds` and `nanos`, shown at `offset`,
/// gives under the strftime layout `fmt`, or `None` where no such datetime
/// can be built.
pub uninterp spec fn formatted_text(seconds: int, nanos: int, offset: int, fmt: Seq<char>) -> Option<Seq<char>>;

/// Relies on `chrono::DateTime::from_timestamp`, `chrono::FixedOffset::east_opt`
/// and `chrono::DateTime::format`: the text depends on the four arguments alone,
/// and `None` comes where the first two refuse their arguments. Every layout of
/// [`FormatPattern`] is a valid strftime description, so writing it out cannot fail.
#[verifier::external_body]
fn chrono_format(seconds: i64, nanos: u32, offset: i32, fmt: &str) -> (r: Option<String>)
    requires
        exists|p: FormatPattern| fmt@ == format_pattern_spec(p),
    ensures
        match r {
            Some(t) => formatted_text(seconds as int, nanos as int, offset as int, fmt@) == Some(t@),
            None => formatted_text(seconds as int, nanos as int, offset as int, fmt@) is None,
        },
{
    let utc = chrono::DateTime::from_timestamp(seconds, nanos)?;
    let zone = chrono::FixedOffset::east_opt(offset)?;
    Some(utc.with_timezone(&zone).format(fmt).to_string())
}

/// Writes `x` in the layout `pattern`, showing its own offset.
pub fn format_offset_datetime(x: &OffsetDatetime, pattern: FormatPattern) -> (r: Result<String, DateTimeError>)
    ensures
        match formatted_text(x.seconds as int, x.nanos as int, x.offset as int, format_pattern_spec(pattern)) {
            Some(t) => r matches Ok(s) && s@ == t,
            None => r == Err::<String, DateTimeError>(DateTimeError::OutOfRange),
        },
{
    match chrono_format(x.seconds, x.nanos, x.offset, format_pattern_text(pattern)) {
        Some(s) => Ok(s),
        None => Err(DateTimeError::OutOfRange),
    }
}

/// Writes `t` in the layout `pattern`, as a UTC datetime.
pub fn format_instant(t: &Instant, pattern: FormatPattern) -> (r: Result<String, DateTimeError>)
    requires
        t.wf(),
    ensures
        match formatted_text(t.seconds as int, t.nanos as int, 0, format_pattern_spec(pattern)) {
            Some(s) => r matches Ok(u) && u@ == s,
            None => r == Err::<String, DateTimeError>(DateTimeError::OutOfRange),
        },
{
    format_offset_datetime(&to_offset_datetime_utc(t), pattern)
}

/// Reads `text` in the layout `pattern`, then takes the datetime through an
/// instant and back to UTC. Gives the datetime as read and the one that came
/// back, or the reading's error.
pub fn parse_round_trip(text: &str, pattern: ParsePattern) -> (r: Result<(OffsetDatetime, OffsetDatetime), DateTimeError>)
    ensures
        match parsed_fields(text@, parse_pattern_spec(pattern)) {
            Some(f) => r == Ok::<(OffsetDatetime, OffsetDatetime), DateTimeError>(
                (datetime_of_fields(f), utc_of(instant_of(datetime_of_fields(f))))),
            None => r matches Err(DateTimeError::Parse { text: t, pattern: p })
                && t@ == text@ && p@ == parse_pattern_spec(pattern),
        },
        r matches Ok((x, y)) ==> x.wf() && y.wf() && y.offset == 0 && y.abs_nanos() == x.abs_nanos(),
{
    let x = parse_offset_datetime(text, pattern)?;
    let back = to_offset_datetime_utc(&to_instant(&x));
    Ok((x, back))
}

/// `x` shown in UTC: the same point in time with a zero offset.
pub open spec fn normalized_utc(x: OffsetDatetime) -> OffsetDatetime {
    OffsetDatetime { offset: 0, ..x }
}

/// Dropping the offset of a datetime and reading the result back as UTC keeps
/// the point in time, and gives a zero offset.
pub proof fn lemma_instant_round_trip(x: OffsetDatetime)
    requires
        x.wf(),
    ensures
        utc_of(instant_of(x)).abs_nanos() == x.abs_nanos(),
        utc_of(instant_of(x)).offset == 0,
        utc_of(instant_of(x)).wf(),
{
}

/// Outside a leap second, the round trip through an instant gives exactly `x`
/// shown in UTC, so both are written as the same text in every layout.
pub proof fn lemma_round_trip_same_text(x: OffsetDatetime, p: FormatPattern)
    requires
        x.wf(),
        x.nanos < NANOS_PER_SEC,
    ensures
        utc_of(instant_of(x)) == normalized_utc(x),
        formatted_text(instant_of(x).seconds as int, instant_of(x).nanos as int, 0, format_pattern_spec(p))
            == formatted_text(x.seconds as int, x.nanos as int, normalized_utc(x).offset as int, format_pattern_spec(p)),
{
}

} // verus!
