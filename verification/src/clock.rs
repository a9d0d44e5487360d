//! Wall-clock readings of Unix timestamps: the time of day and the date
//! that a fixture is shown with.

use chrono::{Datelike, TimeZone, Timelike};
use vstd::prelude::*;
use crate::text::{
    chars_of, digit_char, digit_value, digits_value, parse_bounded, parse_number, parse_unsigned,
    push_decimal,
};

verus! {

/// The zone in which times are shown.
#[derive(Debug, PartialEq, Eq, Structural, Clone, Copy)]
pub enum Zone {
    /// The zone of the machine, whatever it is when asked.
    Local,
    /// A fixed number of seconds east of Greenwich.
    Fixed(i32),
}

/// Central Standard Time: six hours west of Greenwich.
pub const CENTRAL_STANDARD: i32 = -21600;

/// A reading of the calendar and the clock.
#[derive(Debug, PartialEq, Eq, Structural, Clone, Copy)]
pub struct Civil {
    pub year: i32,
    pub month: u32,
    pub day: u32,
    pub hour: u32,
    pub minute: u32,
}

impl Civil {
    /// The ranges that a reading keeps to.
    pub open spec fn wf(self) -> bool {
        &&& 1 <= self.month <= 12
        &&& 1 <= self.day <= 31
        &&& self.hour < 24
        &&& self.minute < 60
    }
}

/// What the proleptic Gregorian calendar and a clock set `utc_offset`
/// seconds east of Greenwich read at a Unix timestamp. `None` where the
/// offset is a day or more, or the date is beyond the calendar's range.
pub uninterp spec fn civil_at(unix_timestamp: int, utc_offset: int) -> Option<Civil>;

/// `chrono`'s `FixedOffset::east_opt`, then `timestamp_opt` with no
/// nanoseconds, then the `year`, `month`, `day`, `hour` and `minute` of the
/// single result. The reading is a function of the two numbers; its
/// fields keep to the ranges that `Datelike` and `Timelike` document.
#[verifier::external_body]
fn civil_reading(unix_timestamp: i64, utc_offset: i32) -> (r: Option<Civil>)
    ensures
        r == civil_at(unix_timestamp as int, utc_offset as int),
        r matches Some(c) ==> c.wf(),
{
    match chrono::FixedOffset::east_opt(utc_offset)?.timestamp_opt(unix_timestamp, 0) {
        chrono::LocalResult::Single(t) => Some(
            Civil {
                year: t.year(),
                month: t.month(),
                day: t.day(),
                hour: t.hour(),
                minute: t.minute(),
            },
        ),
        _ => None,
    }
}

/// `chrono`'s `Local.timestamp_opt` with no nanoseconds, then the offset of
/// the single result, in seconds east of Greenwich. The answer depends on
/// the machine's zone; it is always less than a day.
#[verifier::external_body]
fn local_offset(unix_timestamp: i64) -> (r: Option<i32>)
    ensures
        r matches Some(offset) ==> -86400 < offset < 86400,
{
    match chrono::Local.timestamp_opt(unix_timestamp, 0) {
        chrono::LocalResult::Single(t) => Some(t.offset().local_minus_utc()),
        _ => None,
    }
}

/// Whether `offset` may be the offset of `zone` at some moment.
pub open spec fn zone_admits(zone: Zone, offset: int) -> bool {
    match zone {
        Zone::Local => -86400 < offset < 86400,
        Zone::Fixed(seconds) => offset == seconds,
    }
}

/// The offset of `zone` at a moment. A fixed zone always has one; for the
/// local zone the machine decides.
pub fn offset_at(zone: Zone, unix_timestamp: i64) -> (r: Option<i32>)
    ensures
        zone is Fixed ==> r is Some,
        r matches Some(offset) ==> zone_admits(zone, offset as int),
{
    match zone {
        Zone::Local => local_offset(unix_timestamp),
        Zone::Fixed(seconds) => Some(seconds),
    }
}

/// The reading of `zone` at a moment, given the offset that the zone then
/// has.
pub fn reading_at(unix_timestamp: i64, zone: Zone) -> (r: Option<Civil>)
    ensures
        zone matches Zone::Fixed(seconds) ==> r == civil_at(
            unix_timestamp as int,
            seconds as int,
        ),
        r matches Some(c) ==> c.wf() && exists|offset: int|
            zone_admits(zone, offset) && #[trigger] civil_at(unix_timestamp as int, offset)
                == Some(c),
{
    match offset_at(zone, unix_timestamp) {
        Some(offset) => civil_reading(unix_timestamp, offset),
        None => None,
    }
}

/// A number under a hundred in two digits.
pub open spec fn two_digits(n: nat) -> Seq<char> {
    seq![digit_char((n / 10) as int), digit_char((n % 10) as int)]
}

/// The time of day as `HH:MM`.
pub open spec fn clock_text(hour: nat, minute: nat) -> Seq<char> {
    two_digits(hour) + seq![':'] + two_digits(minute)
}

/// The date as `MM-DD`.
pub open spec fn month_day_text(month: nat, day: nat) -> Seq<char> {
    two_digits(month) + seq!['-'] + two_digits(day)
}

fn push_two_digits(out: &mut String, n: u32)
    requires
        n < 100,
    ensures
        final(out)@ == old(out)@ + two_digits(n as nat),
{
    push_decimal(out, (n / 10) as u64);
    push_decimal(out, (n % 10) as u64);
    assert(out@ =~= old(out)@ + two_digits(n as nat));
}

/// Writes a time of day as `HH:MM`.
pub fn format_clock(hour: u32, minute: u32) -> (s: String)
    requires
        hour < 24,
        minute < 60,
    ensures
        s@ == clock_text(hour as nat, minute as nat),
{
    let mut s = String::new();
    push_two_digits(&mut s, hour);
    s.push(':');
    push_two_digits(&mut s, minute);
    assert(s@ =~= clock_text(hour as nat, minute as nat));
    s
}

/// Writes a date as `MM-DD`.
pub fn format_month_day(month: u32, day: u32) -> (s: String)
    requires
        month < 100,
        day < 100,
    ensures
        s@ == month_day_text(month as nat, day as nat),
{
    let mut s = String::new();
    push_two_digits(&mut s, month);
    s.push('-');
    push_two_digits(&mut s, day);
    assert(s@ =~= month_day_text(month as nat, day as nat));
    s
}

/// The time of day in `zone` at a Unix timestamp, as `HH:MM`; `None` where
/// the calendar does not reach the moment.
pub fn unix_to_cst(unix_timestamp: i64, zone: Zone) -> (r: Option<String>)
    ensures
        zone matches Zone::Fixed(seconds) ==> (match civil_at(
            unix_timestamp as int,
            seconds as int,
        ) {
            Some(c) => r matches Some(s) && s@ == clock_text(c.hour as nat, c.minute as nat),
            None => r is None,
        }),
        r matches Some(s) ==> exists|hour: nat, minute: nat|
            hour < 24 && minute < 60 && s@ == #[trigger] clock_text(hour, minute),
{
    match reading_at(unix_timestamp, zone) {
        Some(c) => Some(format_clock(c.hour, c.minute)),
        None => None,
    }
}

/// The date in `zone` at a Unix timestamp, as `MM-DD`; `None` where the
/// calendar does not reach the moment.
pub fn unix_to_date(unix_timestamp: i64, zone: Zone) -> (r: Option<String>)
    ensures
        zone matches Zone::Fixed(seconds) ==> (match civil_at(
            unix_timestamp as int,
            seconds as int,
        ) {
            Some(c) => r matches Some(s) && s@ == month_day_text(c.month as nat, c.day as nat),
            None => r is None,
        }),
        r matches Some(s) ==> exists|month: nat, day: nat|
            1 <= month <= 12 && 1 <= day <= 31 && s@ == #[trigger] month_day_text(month, day),
{
    match reading_at(unix_timestamp, zone) {
        Some(c) => Some(format_month_day(c.month, c.day)),
        None => None,
    }
}

/// The hour that a time of day written as `HH:MM` begins with: its first
/// two characters, read as a number.
pub open spec fn hour_in(clock: Seq<char>) -> Option<nat> {
    if clock.len() < 2 {
        None
    } else {
        parse_bounded(clock.subrange(0, 2), 10, 99)
    }
}

/// Reads the hour that a time of day begins with.
pub fn clock_hour(clock: &str) -> (r: Option<u32>)
    ensures
        match r {
            Some(hour) => hour_in(clock@) == Some(hour as nat),
            None => hour_in(clock@) is None,
        },
{
    let chars = chars_of(clock);
    if chars.len() < 2 {
        return None;
    }
    match parse_number(&chars, 0, 2, 10, 99) {
        Some(hour) => Some(hour as u32),
        None => None,
    }
}

/// Two digits read back give the number that was written.
pub proof fn lemma_two_digits_read_back(n: nat)
    requires
        n < 100,
    ensures
        parse_unsigned(two_digits(n), 10) == Some(n),
{
    let s = two_digits(n);
    assert(s.drop_last() =~= seq![digit_char((n / 10) as int)]);
    assert(s.drop_last().drop_last() =~= Seq::<char>::empty());
    assert(digit_value(digit_char((n / 10) as int), 10) == Some(n / 10));
    assert(digit_value(digit_char((n % 10) as int), 10) == Some(n % 10));
    reveal_with_fuel(digits_value, 3);
    assert(digits_value(s, 10) == Some(n));
}

/// The time of day that a clock text states, if it is of the form `HH:MM`
/// with an hour under 24 and a minute under 60.
pub open spec fn clock_reading(clock: Seq<char>) -> Option<(nat, nat)> {
    if clock.len() == 5 && clock[2] == ':' {
        match (
            parse_bounded(clock.subrange(0, 2), 10, 23),
            parse_bounded(clock.subrange(3, 5), 10, 59),
        ) {
            (Some(hour), Some(minute)) => Some((hour, minute)),
            _ => None,
        }
    } else {
        None
    }
}

/// Writing a time of day and reading it back is stable: the text states
/// the hour and the minute it was written from, so two times of day are
/// written alike only where they are the same.
pub proof fn lemma_clock_round_trip(hour: nat, minute: nat)
    requires
        hour < 24,
        minute < 60,
    ensures
        clock_text(hour, minute).len() == 5,
        clock_reading(clock_text(hour, minute)) == Some((hour, minute)),
        hour_in(clock_text(hour, minute)) == Some(hour),
{
    let text = clock_text(hour, minute);
    assert(text.subrange(0, 2) =~= two_digits(hour));
    assert(text.subrange(3, 5) =~= two_digits(minute));
    lemma_two_digits_read_back(hour);
    lemma_two_digits_read_back(minute);
}

/// The line that heads a day's schedule, in a zone `utc_offset` seconds
/// east of Greenwich: the date, or after seven in the evening the date
/// 40000 seconds on, then ` Fixtures`.
pub open spec fn fixtures_heading(now: int, utc_offset: int) -> Option<Seq<char>> {
    match civil_at(now, utc_offset) {
        None => None,
        Some(today) => if today.hour > 18 {
            if now + 40000 > i64::MAX {
                None
            } else {
                match civil_at(now + 40000, utc_offset) {
                    Some(later) => Some(
                        month_day_text(later.month as nat, later.day as nat) + " Fixtures"@,
                    ),
                    None => None,
                }
            }
        } else {
            Some(month_day_text(today.month as nat, today.day as nat) + " Fixtures"@)
        },
    }
}

/// The heading of the schedule shown at `now`; `None` where the calendar
/// does not reach the moment.
pub fn smart_print_date(now: i64, zone: Zone) -> (r: Option<String>)
    ensures
        zone matches Zone::Fixed(seconds) ==> (match fixtures_heading(now as int, seconds as int) {
            Some(text) => r matches Some(s) && s@ == text,
            None => r is None,
        }),
        r matches Some(s) ==> exists|month: nat, day: nat|
            1 <= month <= 12 && 1 <= day <= 31 && s@ == #[trigger] month_day_text(month, day)
                + " Fixtures"@,
{
    let today = match reading_at(now, zone) {
        Some(c) => c,
        None => {
            return None;
        },
    };
    let hour = format_clock(today.hour, today.minute);
    proof {
        lemma_clock_round_trip(today.hour as nat, today.minute as nat);
    }
    let shown = match clock_hour(hour.as_str()) {
        Some(hr) if hr > 18 => {
            let later = match now.checked_add(40000) {
                Some(t) => t,
                None => {
                    return None;
                },
            };
            match reading_at(later, zone) {
                Some(c) => c,
                None => {
                    return None;
                },
            }
        },
        _ => today,
    };
    let mut line = format_month_day(shown.month, shown.day);
    line.append(" Fixtures");
    Some(line)
}

/// A number under ten thousand in four digits.
pub open spec fn four_digits(n: nat) -> Seq<char> {
    two_digits(n / 100) + two_digits(n % 100)
}

/// The date at Greenwich as `YYYY-MM-DD`, for the years that four digits
/// can write.
pub open spec fn iso_date(now: int) -> Option<Seq<char>> {
    match civil_at(now, 0) {
        Some(c) => if 0 <= c.year <= 9999 {
            Some(
                four_digits(c.year as nat) + seq!['-'] + two_digits(c.month as nat) + seq!['-']
                    + two_digits(c.day as nat),
            )
        } else {
            None
        },
        None => None,
    }
}

/// Today's date at Greenwich, `now` being the current Unix timestamp.
pub fn get_today_date(now: i64) -> (r: Option<String>)
    ensures
        match iso_date(now as int) {
            Some(text) => r matches Some(s) && s@ == text,
            None => r is None,
        },
{
    match civil_reading(now, 0) {
        Some(c) => {
            if c.year < 0 || c.year > 9999 {
                return None;
            }
            let year = c.year as u32;
            let mut s = String::new();
            push_two_digits(&mut s, year / 100);
            push_two_digits(&mut s, year % 100);
            s.push('-');
            push_two_digits(&mut s, c.month);
            s.push('-');
            push_two_digits(&mut s, c.day);
            assert(s@ =~= iso_date(now as int).unwrap());
            Some(s)
        },
        None => None,
    }
}

} // verus!
