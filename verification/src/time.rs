//! Instants on the wire: RFC 3339 texts in UTC, read and written by
//! `humantime`.

use std::time::{Duration, UNIX_EPOCH};
use vstd::prelude::*;

verus! {

/// The first second that no longer has a four-digit year.
pub const YEAR_10000: u64 = 253_402_300_800;

/// An instant, counted from 1970-01-01T00:00:00Z.
#[derive(Clone, Copy, Debug, PartialEq, Eq, Structural)]
pub struct Timestamp {
    /// Whole seconds since the epoch.
    pub secs: u64,
    /// Nanoseconds into that second.
    pub nanos: u32,
}

/// The character of a decimal digit.
pub open spec fn digit_char(d: int) -> char {
    (48 + d) as u8 as char
}

/// Whether `c` is one of `'0'` to `'9'`.
pub open spec fn is_digit(c: char) -> bool {
    '0' <= c <= '9'
}

/// `dddd-dd-ddTdd:dd:dd.dddZ`: date, time of day and exactly three digits
/// of a second's fraction.
pub open spec fn is_rfc3339_millis(text: Seq<char>) -> bool {
    &&& text.len() == 24
    &&& text[4] == '-' && text[7] == '-' && text[10] == 'T'
    &&& text[13] == ':' && text[16] == ':' && text[19] == '.' && text[23] == 'Z'
    &&& forall|i: int|
        0 <= i < 23 && i != 4 && i != 7 && i != 10 && i != 13 && i != 16 && i != 19
            ==> is_digit(#[trigger] text[i])
}

/// What `humantime::format_rfc3339_millis` writes for the instant `secs`
/// seconds and `nanos` nanoseconds after the epoch.
pub uninterp spec fn rfc3339_millis(secs: u64, nanos: u32) -> Seq<char>;

/// The instant that `humantime::parse_rfc3339_weak` reads from a text, as
/// seconds and nanoseconds since the epoch; `None` where it reports an error.
pub uninterp spec fn rfc3339_instant(text: Seq<char>) -> Option<(u64, u32)>;

/// Calls `humantime::format_rfc3339_millis` and renders the result. Trusted:
/// the text is `rfc3339_millis` of the instant; it has the layout
/// `dddd-dd-ddTdd:dd:dd.dddZ`, and its three fraction digits are those of the
/// whole milliseconds in `nanos`. The bounds keep the rendering from failing.
#[verifier::external_body]
fn format_millis(secs: u64, nanos: u32) -> (text: String)
    requires
        secs < YEAR_10000,
        nanos < 1_000_000_000,
    ensures
        text@ == rfc3339_millis(secs, nanos),
        is_rfc3339_millis(text@),
        text@[20] == digit_char((nanos / 100_000_000) as int),
        text@[21] == digit_char((nanos / 10_000_000 % 10) as int),
        text@[22] == digit_char((nanos / 1_000_000 % 10) as int),
{
    humantime::format_rfc3339_millis(UNIX_EPOCH + Duration::new(secs, nanos)).to_string()
}

/// Calls `humantime::parse_rfc3339_weak`. Trusted: the result is
/// `rfc3339_instant` of the text, and every instant it reads lies before the
/// year 10000, with less than a second's worth of nanoseconds.
#[verifier::external_body]
fn parse_weak(text: &str) -> (r: Option<(u64, u32)>)
    ensures
        r == rfc3339_instant(text@),
        r matches Some((secs, nanos)) ==> secs < YEAR_10000 && nanos < 1_000_000_000,
{
    let time = humantime::parse_rfc3339_weak(text).ok()?;
    let since = time.duration_since(UNIX_EPOCH).ok()?;
    Some((since.as_secs(), since.subsec_nanos()))
}

impl Timestamp {
    /// An instant that has an RFC 3339 text: before the year 10000, and with
    /// less than a second's worth of nanoseconds.
    pub open spec fn wf(&self) -> bool {
        self.secs < YEAR_10000 && self.nanos < 1_000_000_000
    }

    /// The instant that a text stands for, where it stands for one.
    pub open spec fn spec_parse(text: Seq<char>) -> Option<Timestamp> {
        match rfc3339_instant(text) {
            Some((secs, nanos)) => Some(Timestamp { secs, nanos }),
            None => None,
        }
    }

    /// The instant `secs` seconds and `nanos` nanoseconds after the epoch,
    /// if it has an RFC 3339 text.
    pub fn new(secs: u64, nanos: u32) -> (r: Option<Timestamp>)
        ensures
            r == (if secs < YEAR_10000 && nanos < 1_000_000_000 {
                Some(Timestamp { secs, nanos })
            } else {
                None
            }),
    {
        if secs < YEAR_10000 && nanos < 1_000_000_000 {
            Some(Timestamp { secs, nanos })
        } else {
            None
        }
    }

    /// Whether the instant has an RFC 3339 text.
    pub fn is_valid(&self) -> (ok: bool)
        ensures
            ok == self.wf(),
    {
        self.secs < YEAR_10000 && self.nanos < 1_000_000_000
    }

    /// Reads an instant from a text such as `2018-02-14T00:28:07.133Z`; date
    /// and time may also be parted by a blank, and the `Z` may be missing.
    pub fn parse(text: &str) -> (r: Option<Timestamp>)
        ensures
            r == Timestamp::spec_parse(text@),
            r matches Some(t) ==> t.wf(),
    {
        match parse_weak(text) {
            Some((secs, nanos)) => Some(Timestamp { secs, nanos }),
            None => None,
        }
    }

    /// Writes the instant with exactly three digits of a second's fraction,
    /// as in `2018-02-14T00:28:07.133Z`.
    pub fn to_rfc3339_millis(&self) -> (text: String)
        requires
            self.wf(),
        ensures
            text@ == rfc3339_millis(self.secs, self.nanos),
            is_rfc3339_millis(text@),
            text@[20] == digit_char((self.nanos / 100_000_000) as int),
            text@[21] == digit_char((self.nanos / 10_000_000 % 10) as int),
            text@[22] == digit_char((self.nanos / 1_000_000 % 10) as int),
    {
        format_millis(self.secs, self.nanos)
    }
}

} // verus!
