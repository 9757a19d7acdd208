//! Points in time as plain numbers, and the calls into `chrono` that read and
//! print them.

use vstd::prelude::*;

verus! {

/// Seconds since the Unix epoch of the earliest instant `chrono` can hold
/// (midnight UTC, 1 January of the year -262143).
pub const MIN_SECS: i64 = -8_334_601_228_800;

/// Seconds since the Unix epoch of the last second `chrono` can hold
/// (23:59:59 UTC, 31 December of the year 262142).
pub const MAX_SECS: i64 = 8_210_266_876_799;

/// Seconds since the Unix epoch of midnight, 1 January of the year 0.
pub const YEAR_0_SECS: i64 = -62_167_219_200;

/// Seconds since the Unix epoch of 23:59:59, 31 December of the year 9999.
pub const YEAR_9999_SECS: i64 = 253_402_300_799;

/// Whether three numbers describe a point in time with an offset from UTC:
/// the second lies in the supported range, the nanosecond part is below one
/// second (or below two in the last second of a minute, which stands for a
/// leap second), and the offset is less than a day either way.
pub open spec fn valid_parts(secs: int, nanos: int, offset: int) -> bool {
    &&& MIN_SECS <= secs <= MAX_SECS
    &&& 0 <= nanos < 2_000_000_000
    &&& nanos >= 1_000_000_000 ==> secs % 60 == 59
    &&& -86_400 < offset < 86_400
}

/// Whether `chrono` prints and reads back a valid point in time without loss
/// in RFC 3339: its year, as shown at its offset, has four digits, and the
/// offset is a whole number of minutes.
pub open spec fn rfc3339_exact(secs: int, nanos: int, offset: int) -> bool {
    &&& valid_parts(secs, nanos, offset)
    &&& YEAR_0_SECS <= secs + offset <= YEAR_9999_SECS
    &&& offset % 60 == 0
}

/// A text holds neither a tab nor a line break.
pub open spec fn single_field(text: Seq<char>) -> bool {
    forall|i: int| 0 <= i < text.len() ==> text[i] != '\t' && text[i] != '\n' && text[i] != '\r'
}

/// What `chrono::DateTime::parse_from_rfc3339` makes of a text: nothing, or
/// the second, nanosecond and offset of the time it read.
pub uninterp spec fn rfc3339_parse(text: Seq<char>) -> Option<(i64, u32, i32)>;

/// The text that `chrono::DateTime::to_rfc3339` prints for a point in time.
pub uninterp spec fn rfc3339_text(secs: i64, nanos: u32, offset: i32) -> Seq<char>;

/// The text that `chrono::DateTime::format` prints for a point in time under
/// a format.
pub uninterp spec fn formatted_text(secs: i64, nanos: u32, offset: i32, format: Seq<char>) -> Seq<
    char,
>;

/// The format in which the one-shot commands show a time: month, day, hour
/// and minute.
pub const DATE_TIME_FORMAT: &'static str = "%m-%d %H:%M";

/// Calls `chrono::DateTime::parse_from_rfc3339` and hands back the numbers of
/// the time it read. Trusted: the result is the named one; a time that was
/// read is valid, has a four-digit year at its offset, and an offset of whole
/// minutes, as the grammar that `chrono` reads allows no other.
#[verifier::external_body]
fn parse_parts(s: &str) -> (r: Option<(i64, u32, i32)>)
    ensures
        r == rfc3339_parse(s@),
        r matches Some(p) ==> rfc3339_exact(p.0 as int, p.1 as int, p.2 as int),
{
    match chrono::DateTime::parse_from_rfc3339(s) {
        Ok(t) => Some((t.timestamp(), t.timestamp_subsec_nanos(), t.offset().local_minus_utc())),
        Err(_) => None,
    }
}

/// Converts a point in time to the machine's time zone, as
/// `From<DateTime<FixedOffset>> for DateTime<Local>` does, and hands back the
/// offset of that zone at that instant. Trusted: the offset is less than a
/// day either way. Which offset it is depends on the machine.
#[verifier::external_body]
fn local_offset(secs: i64, nanos: u32, offset: i32) -> (r: i32)
    requires
        valid_parts(secs as int, nanos as int, offset as int),
    ensures
        -86_400 < r < 86_400,
{
    let utc = chrono::DateTime::from_timestamp(secs, nanos).unwrap();
    let fixed = utc.with_timezone(&chrono::FixedOffset::east_opt(offset).unwrap());
    let local = chrono::DateTime::<chrono::Local>::from(fixed);
    local.offset().local_minus_utc()
}

/// Calls `chrono::DateTime::to_rfc3339` on a point in time. Trusted: the
/// result is the named text; it is made of digits, signs, colons, a point
/// and the letter `T`, so it holds no tab and no line break; and where the
/// year has four digits and the offset whole minutes,
/// `parse_from_rfc3339` reads the same numbers back from it.
#[verifier::external_body]
fn rfc3339_string(secs: i64, nanos: u32, offset: i32) -> (r: String)
    requires
        valid_parts(secs as int, nanos as int, offset as int),
    ensures
        r@ == rfc3339_text(secs, nanos, offset),
        single_field(r@),
        rfc3339_exact(secs as int, nanos as int, offset as int) ==> rfc3339_parse(r@) == Some(
            (secs, nanos, offset),
        ),
{
    let utc = chrono::DateTime::from_timestamp(secs, nanos).unwrap();
    let fixed = utc.with_timezone(&chrono::FixedOffset::east_opt(offset).unwrap());
    fixed.to_rfc3339()
}

/// Calls `chrono::DateTime::format` with the format of the one-shot commands
/// and prints the result. Trusted: the result is the named text.
#[verifier::external_body]
fn formatted_string(secs: i64, nanos: u32, offset: i32, format: &str) -> (r: String)
    requires
        valid_parts(secs as int, nanos as int, offset as int),
        format@ == DATE_TIME_FORMAT@,
    ensures
        r@ == formatted_text(secs, nanos, offset, format@),
{
    let utc = chrono::DateTime::from_timestamp(secs, nanos).unwrap();
    let fixed = utc.with_timezone(&chrono::FixedOffset::east_opt(offset).unwrap());
    fixed.format(format).to_string()
}

/// Calls `chrono::Local::now` and hands back the numbers of the time it
/// read. Trusted: they are valid, and no leap second is read from the clock.
/// Which time it is depends on the clock and on the machine's time zone.
#[verifier::external_body]
fn clock_parts() -> (r: (i64, u32, i32))
    ensures
        valid_parts(r.0 as int, r.1 as int, r.2 as int),
        r.1 < 1_000_000_000,
{
    let t = chrono::Local::now();
    (t.timestamp(), t.timestamp_subsec_nanos(), t.offset().local_minus_utc())
}

/// An instant (seconds and nanoseconds since the Unix epoch, in UTC) together
/// with the offset from UTC, in seconds, of the zone it is shown in.
#[derive(Clone, Copy, Debug, PartialEq, Eq)]
pub struct Timestamp {
    secs: i64,
    nanos: u32,
    offset: i32,
}

impl Timestamp {
    pub closed spec fn spec_secs(self) -> int {
        self.secs as int
    }

    pub closed spec fn spec_nanos(self) -> int {
        self.nanos as int
    }

    pub closed spec fn spec_offset(self) -> int {
        self.offset as int
    }

    /// The three numbers are those of a point in time (see [`valid_parts`]).
    /// Every timestamp that a program holds is such a one.
    pub open spec fn wf(self) -> bool {
        valid_parts(self.spec_secs(), self.spec_nanos(), self.spec_offset())
    }

    #[verifier::type_invariant]
    pub open spec fn inv(self) -> bool {
        self.wf()
    }

    /// Two timestamps name the same instant, whatever their offsets.
    pub open spec fn same_instant(self, other: Timestamp) -> bool {
        self.spec_secs() == other.spec_secs() && self.spec_nanos() == other.spec_nanos()
    }

    /// The timestamp made of the three numbers, if they describe one.
    pub fn new(secs: i64, nanos: u32, offset: i32) -> (r: Option<Timestamp>)
        ensures
            r is Some <==> valid_parts(secs as int, nanos as int, offset as int),
            r matches Some(t) ==> t.spec_secs() == secs && t.spec_nanos() == nanos
                && t.spec_offset() == offset && t.wf(),
    {
        if secs < MIN_SECS || secs > MAX_SECS || nanos >= 2_000_000_000 || offset <= -86_400
            || offset >= 86_400 {
            return None;
        }
        if nanos >= 1_000_000_000 {
            let since_min: i64 = secs - MIN_SECS;
            assert(MIN_SECS % 60 == 0);
            if since_min % 60 != 59 {
                return None;
            }
        }
        Some(Timestamp { secs, nanos, offset })
    }

    /// What reading a text as an RFC 3339 time gives, up to the offset: the
    /// time that `chrono` read, if it read one.
    pub open spec fn parses_to(text: Seq<char>, r: Option<Timestamp>) -> bool {
        match rfc3339_parse(text) {
            None => r is None,
            Some(p) => r matches Some(t) && t.wf() && t.spec_secs() == p.0 && t.spec_nanos() == p.1
                && t.spec_offset() == p.2,
        }
    }

    /// Reads an RFC 3339 time such as `1996-12-19T16:39:57-08:00`, with the
    /// offset that the text gives.
    pub fn parse_rfc3339(s: &str) -> (r: Option<Timestamp>)
        ensures
            Timestamp::parses_to(s@, r),
            r matches Some(t) ==> t.exact(),
    {
        match parse_parts(s) {
            Some(p) => Some(Timestamp { secs: p.0, nanos: p.1, offset: p.2 }),
            None => None,
        }
    }

    /// The same instant, shown at the offset of the machine's time zone.
    pub fn to_local(&self) -> (r: Timestamp)
        ensures
            r.wf(),
            r.same_instant(*self),
    {
        proof {
            use_type_invariant(self);
        }
        let offset = local_offset(self.secs, self.nanos, self.offset);
        Timestamp { secs: self.secs, nanos: self.nanos, offset }
    }

    /// The current time in the machine's time zone.
    pub fn now() -> (r: Timestamp)
        ensures
            r.wf(),
            r.spec_nanos() < 1_000_000_000,
    {
        let p = clock_parts();
        Timestamp { secs: p.0, nanos: p.1, offset: p.2 }
    }

    /// The RFC 3339 text of this time.
    pub open spec fn rfc3339(self) -> Seq<char> {
        rfc3339_text(self.spec_secs() as i64, self.spec_nanos() as u32, self.spec_offset() as i32)
    }

    /// The short text of this time that the one-shot commands show.
    pub open spec fn short_text(self) -> Seq<char> {
        formatted_text(
            self.spec_secs() as i64,
            self.spec_nanos() as u32,
            self.spec_offset() as i32,
            DATE_TIME_FORMAT@,
        )
    }

    /// The year shown has four digits and the offset is in whole minutes:
    /// the RFC 3339 text of such a time reads back as the same time.
    pub open spec fn exact(self) -> bool {
        rfc3339_exact(self.spec_secs(), self.spec_nanos(), self.spec_offset())
    }

    /// Prints this time in RFC 3339, such as `1996-12-19T16:39:57-08:00`.
    pub fn to_rfc3339(&self) -> (r: String)
        ensures
            r@ == self.rfc3339(),
            single_field(r@),
            self.exact() ==> Timestamp::parses_to(r@, Some(*self)),
    {
        proof {
            use_type_invariant(self);
        }
        rfc3339_string(self.secs, self.nanos, self.offset)
    }

    /// Prints month, day, hour and minute of this time, such as `12-19 16:39`.
    pub fn format_short(&self) -> (r: String)
        ensures
            r@ == self.short_text(),
    {
        proof {
            use_type_invariant(self);
        }
        formatted_string(self.secs, self.nanos, self.offset, DATE_TIME_FORMAT)
    }

    pub fn secs(&self) -> (r: i64)
        ensures
            r == self.spec_secs(),
            self.wf(),
    {
        proof {
            use_type_invariant(self);
        }
        self.secs
    }

    pub fn nanos(&self) -> (r: u32)
        ensures
            r == self.spec_nanos(),
    {
        self.nanos
    }

    pub fn offset(&self) -> (r: i32)
        ensures
            r == self.spec_offset(),
    {
        self.offset
    }
}

} // verus!
