//! Instants in UTC, kept as whole seconds and nanoseconds since the Unix epoch,
//! and their textual forms as `chrono` writes and reads them.

use vstd::prelude::*;

verus! {

/// First second of year 0000 (0000-01-01T00:00:00Z).
pub const MIN_UNIX_SECS: i64 = -62_167_219_200;

/// Last second of year 9999 (9999-12-31T23:59:59Z).
pub const MAX_UNIX_SECS: i64 = 253_402_300_799;

/// Nanoseconds in one second.
pub const NANOS_PER_SEC: u32 = 1_000_000_000;

/// An instant this library handles: a year of four digits, no leap-second
/// nanoseconds. Every such instant is one `chrono` represents and writes in
/// RFC 2822 without panicking.
pub open spec fn valid_instant(secs: int, nanos: int) -> bool {
    &&& MIN_UNIX_SECS <= secs <= MAX_UNIX_SECS
    &&& 0 <= nanos < NANOS_PER_SEC
}

/// An instant as a count of nanoseconds since the Unix epoch.
pub open spec fn instant_nanos(secs: int, nanos: int) -> int {
    secs * 1_000_000_000 + nanos
}

/// What `chrono` writes for an instant with `DateTime::<Utc>::to_rfc3339`.
pub uninterp spec fn rfc3339_text(secs: i64, nanos: u32) -> Seq<char>;

/// What `chrono` writes for an instant with `DateTime::<Utc>::to_rfc2822`.
pub uninterp spec fn rfc2822_text(secs: i64, nanos: u32) -> Seq<char>;

/// What `chrono` writes for an instant with `DateTime::<Utc>::format(fmt)`.
pub uninterp spec fn strftime_text(secs: i64, nanos: u32, fmt: Seq<char>) -> Seq<char>;

/// What `chrono` reads from a text with `DateTime::<Utc>::from_str`, as
/// `(timestamp, timestamp_subsec_nanos)`, or `None` when it rejects the text.
pub uninterp spec fn parsed_datetime(text: Seq<char>) -> Option<(i64, u32)>;

/// The machine's clock, `std::time::SystemTime`. Opaque here: it is only
/// handed on to [`since_unix_epoch`].
#[verifier::external_type_specification]
#[verifier::external_body]
pub struct ExSystemTime(std::time::SystemTime);

/// `std::time::SystemTime::now`. Nothing is claimed of the value: it is the
/// machine's clock.
#[verifier::external_body]
fn system_now() -> (res: std::time::SystemTime) {
    std::time::SystemTime::now()
}

/// `SystemTime::duration_since(UNIX_EPOCH)`, the `Duration` given back as
/// `(as_secs, subsec_nanos)`, or `None` when `t` is before the epoch (the
/// `Err` case). Claimed: the nanoseconds are below one second, as
/// `Duration::subsec_nanos` documents.
#[verifier::external_body]
fn since_unix_epoch(t: &std::time::SystemTime) -> (res: Option<(u64, u32)>)
    ensures
        res matches Some(d) ==> d.1 < NANOS_PER_SEC,
{
    match t.duration_since(std::time::UNIX_EPOCH) {
        Ok(d) => Some((d.as_secs(), d.subsec_nanos())),
        Err(_) => None,
    }
}

/// `chrono::DateTime::<Utc>::to_rfc3339` of the instant; the claim is only
/// that the text is the one named by `rfc3339_text`.
#[verifier::external_body]
fn chrono_rfc3339(secs: i64, nanos: u32) -> (res: String)
    requires
        valid_instant(secs as int, nanos as int),
    ensures
        res@ == rfc3339_text(secs, nanos),
{
    chrono::DateTime::from_timestamp(secs, nanos).unwrap_or_default().to_rfc3339()
}

/// `chrono::DateTime::<Utc>::to_rfc2822` of the instant. `chrono` panics only
/// on negative or five-digit years, which `valid_instant` leaves out.
#[verifier::external_body]
fn chrono_rfc2822(secs: i64, nanos: u32) -> (res: String)
    requires
        valid_instant(secs as int, nanos as int),
    ensures
        res@ == rfc2822_text(secs, nanos),
{
    chrono::DateTime::from_timestamp(secs, nanos).unwrap_or_default().to_rfc2822()
}

/// `chrono::DateTime::<Utc>::format(fmt)`, written out. Writing panics on a
/// malformed pattern, so only the two patterns this library uses are admitted.
#[verifier::external_body]
fn chrono_format(secs: i64, nanos: u32, fmt: &str) -> (res: String)
    requires
        valid_instant(secs as int, nanos as int),
        fmt@ == FILE_STAMP_FORMAT@ || fmt@ == LONG_DATE_FORMAT@,
    ensures
        res@ == strftime_text(secs, nanos, fmt@),
{
    format!("{}", chrono::DateTime::from_timestamp(secs, nanos).unwrap_or_default().format(fmt))
}

/// `DateTime::<Utc>::from_str` on `text`, as `(timestamp,
/// timestamp_subsec_nanos)`; the claim is only that the outcome is the one
/// named by `parsed_datetime`.
#[verifier::external_body]
fn chrono_parse(text: &str) -> (res: Option<(i64, u32)>)
    ensures
        res == parsed_datetime(text@),
{
    match text.parse::<chrono::DateTime<chrono::Utc>>() {
        Ok(d) => Some((d.timestamp(), d.timestamp_subsec_nanos())),
        Err(_) => None,
    }
}

/// The strftime pattern of report file names, e.g. `2026-09-02_06-52-27`.
pub const FILE_STAMP_FORMAT: &'static str = "%Y-%m-%d_%H-%M-%S";

/// The strftime pattern of the date on the HTML report, e.g. `2 September 2026`.
pub const LONG_DATE_FORMAT: &'static str = "%-d %B %Y";

/// An instant in UTC with a four-digit year.
#[derive(Debug)]
pub struct Timestamp {
    secs: i64,
    nanos: u32,
}

impl View for Timestamp {
    type V = (i64, u32);

    closed spec fn view(&self) -> (i64, u32) {
        (self.secs, self.nanos)
    }
}

impl Timestamp {
    #[verifier::type_invariant]
    closed spec fn inv(self) -> bool {
        valid_instant(self.secs as int, self.nanos as int)
    }

    /// The instant `secs` seconds and `nanos` nanoseconds after the Unix epoch,
    /// when it is one this library handles.
    pub fn from_unix(secs: i64, nanos: u32) -> (res: Option<Timestamp>)
        ensures
            res is Some <==> valid_instant(secs as int, nanos as int),
            res matches Some(t) ==> t@ == (secs, nanos),
    {
        if MIN_UNIX_SECS <= secs && secs <= MAX_UNIX_SECS && nanos < NANOS_PER_SEC {
            Some(Timestamp { secs, nanos })
        } else {
            None
        }
    }

    /// The current time, or `None` when the clock reads before 1970 or after
    /// year 9999.
    pub fn now() -> (res: Option<Timestamp>)
        ensures
            res matches Some(t) ==> valid_instant(t@.0 as int, t@.1 as int) && t@.0 >= 0,
    {
        let clock = system_now();
        match since_unix_epoch(&clock) {
            Some((secs, nanos)) => {
                if secs <= MAX_UNIX_SECS as u64 {
                    Self::from_unix(secs as i64, nanos)
                } else {
                    None
                }
            },
            None => None,
        }
    }

    /// Reads an RFC 3339 timestamp, as `DateTime::<Utc>::from_str` does;
    /// `None` when it does not parse or falls outside what this library
    /// handles.
    pub fn parse(text: &str) -> (res: Option<Timestamp>)
        ensures
            res matches Some(t) ==> parsed_datetime(text@) == Some(t@) && valid_instant(t@.0 as int, t@.1 as int),
            res is None ==> match parsed_datetime(text@) {
                None => true,
                Some((s, n)) => !valid_instant(s as int, n as int),
            },
    {
        match chrono_parse(text) {
            Some((secs, nanos)) => Self::from_unix(secs, nanos),
            None => None,
        }
    }

    /// Brings to light that this instant is one the library handles.
    pub fn witness_valid(&self)
        ensures
            valid_instant(self@.0 as int, self@.1 as int),
    {
        proof {
            use_type_invariant(self);
        }
    }

    /// Whole seconds since the Unix epoch.
    pub fn unix_seconds(&self) -> (res: i64)
        ensures
            res == self@.0,
    {
        self.secs
    }

    /// Nanoseconds past the second.
    pub fn subsec_nanos(&self) -> (res: u32)
        ensures
            res == self@.1,
    {
        self.nanos
    }

    /// A copy of this instant.
    pub fn copy(&self) -> (res: Timestamp)
        ensures
            res@ == self@,
    {
        proof {
            use_type_invariant(self);
        }
        Timestamp { secs: self.secs, nanos: self.nanos }
    }

    /// The RFC 3339 form, e.g. `2026-09-02T06:52:27.464906407+00:00`.
    pub fn to_rfc3339(&self) -> (res: String)
        ensures
            res@ == rfc3339_text(self@.0, self@.1),
    {
        proof {
            use_type_invariant(self);
        }
        chrono_rfc3339(self.secs, self.nanos)
    }

    /// The RFC 2822 form, e.g. `Wed, 2 Sep 2026 06:52:27 +0000`.
    pub fn to_rfc2822(&self) -> (res: String)
        ensures
            res@ == rfc2822_text(self@.0, self@.1),
    {
        proof {
            use_type_invariant(self);
        }
        chrono_rfc2822(self.secs, self.nanos)
    }

    /// The stamp that names report files, `%Y-%m-%d_%H-%M-%S`.
    pub fn file_stamp(&self) -> (res: String)
        ensures
            res@ == strftime_text(self@.0, self@.1, FILE_STAMP_FORMAT@),
    {
        proof {
            use_type_invariant(self);
        }
        chrono_format(self.secs, self.nanos, FILE_STAMP_FORMAT)
    }

    /// The date as the HTML report shows it, `%-d %B %Y`.
    pub fn long_date(&self) -> (res: String)
        ensures
            res@ == strftime_text(self@.0, self@.1, LONG_DATE_FORMAT@),
    {
        proof {
            use_type_invariant(self);
        }
        chrono_format(self.secs, self.nanos, LONG_DATE_FORMAT)
    }

    /// The instant `d_secs` seconds and `d_nanos` nanoseconds earlier, or
    /// `None` when that falls before year 0000.
    pub fn minus(&self, d_secs: u64, d_nanos: u32) -> (res: Option<Timestamp>)
        requires
            d_nanos < NANOS_PER_SEC,
        ensures
            ({
                let total = instant_nanos(self@.0 as int, self@.1 as int) - instant_nanos(d_secs as int, d_nanos as int);
                &&& res is Some <==> valid_instant(total / 1_000_000_000, total % 1_000_000_000)
                &&& res matches Some(t) ==> instant_nanos(t@.0 as int, t@.1 as int) == total
            }),
    {
        proof {
            use_type_invariant(self);
        }
        let ghost total = instant_nanos(self.secs as int, self.nanos as int) - instant_nanos(d_secs as int, d_nanos as int);
        // Shift by year 0000 so the arithmetic stays non-negative.
        let base: i128 = (self.secs as i128 - MIN_UNIX_SECS as i128) * 1_000_000_000 + self.nanos as i128;
        let delta: i128 = d_secs as i128 * 1_000_000_000 + d_nanos as i128;
        assert(base - delta == total - MIN_UNIX_SECS * 1_000_000_000) by (nonlinear_arith)
            requires
                base == (self.secs - MIN_UNIX_SECS) * 1_000_000_000 + self.nanos,
                delta == instant_nanos(d_secs as int, d_nanos as int),
                total == instant_nanos(self.secs as int, self.nanos as int) - delta,
        ;
        if base < delta {
            assert(total < MIN_UNIX_SECS * 1_000_000_000);
            assert(total / 1_000_000_000 < MIN_UNIX_SECS) by (nonlinear_arith)
                requires total < MIN_UNIX_SECS * 1_000_000_000;
            return None;
        }
        let shifted: u128 = (base - delta) as u128;
        let q: u128 = shifted / 1_000_000_000;
        let r: u128 = shifted % 1_000_000_000;
        assert(total / 1_000_000_000 == q + MIN_UNIX_SECS && total % 1_000_000_000 == r) by (nonlinear_arith)
            requires
                shifted == total - MIN_UNIX_SECS * 1_000_000_000,
                q == shifted / 1_000_000_000,
                r == shifted % 1_000_000_000,
                shifted >= 0,
        ;
        if q > (MAX_UNIX_SECS as i128 - MIN_UNIX_SECS as i128) as u128 {
            return None;
        }
        let secs: i64 = (q as i128 + MIN_UNIX_SECS as i128) as i64;
        let nanos: u32 = r as u32;
        assert(instant_nanos(secs as int, nanos as int) == total) by (nonlinear_arith)
            requires
                shifted == total - MIN_UNIX_SECS * 1_000_000_000,
                q == shifted / 1_000_000_000,
                r == shifted % 1_000_000_000,
                secs == q + MIN_UNIX_SECS,
                nanos == r,
                shifted >= 0,
        ;
        Some(Timestamp { secs, nanos })
    }
}

} // verus!
