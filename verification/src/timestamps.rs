//! How modification times are shown: relative to today in the listing
//! ("Today, 3:04 PM", "Yesterday, …", the weekday within a week, else the
//! date), and in full in the properties dialog. The calendar, the clock and
//! the time zone are `chrono`'s.
use vstd::prelude::*;
use chrono::{DateTime, Local, NaiveDate, NaiveDateTime};

verus! {

/// `chrono::NaiveDateTime`, a wall-clock date and time, carried through
/// unexamined.
#[verifier::external_type_specification]
#[verifier::external_body]
pub struct ExNaiveDateTime(NaiveDateTime);

/// `chrono::NaiveDate`, a calendar date, carried through unexamined.
#[verifier::external_type_specification]
#[verifier::external_body]
pub struct ExNaiveDate(NaiveDate);

/// The hour and minute, as "3:04 PM".
pub const TIME_PATTERN: &'static str = "%-I:%M %p";
/// The weekday with the time, as "Monday, 3:04 PM".
pub const WEEKDAY_PATTERN: &'static str = "%A, %-I:%M %p";
/// The short date, as "Jan 5, 2024".
pub const DATE_PATTERN: &'static str = "%b %-d, %Y";
/// The full date and time, as "January 5, 2024 at 3:04 PM".
pub const LONG_PATTERN: &'static str = "%B %-d, %Y at %-I:%M %p";

/// The formats this module uses, all of them well formed for `chrono`.
pub open spec fn known_pattern(p: Seq<char>) -> bool {
    p == TIME_PATTERN@ || p == WEEKDAY_PATTERN@ || p == DATE_PATTERN@ || p == LONG_PATTERN@
}

/// The first second `DateTime::from_timestamp` represents: the start of
/// January 1 of `chrono`'s earliest year, -262143.
pub const MIN_TIMESTAMP: i64 = -8334601228800;
/// The last second `DateTime::from_timestamp` represents: the end of
/// December 31 of `chrono`'s latest year, 262142.
pub const MAX_TIMESTAMP: i64 = 8210266876799;

/// Whether `chrono` represents the time `ts` seconds after the epoch.
pub open spec fn representable(ts: i64) -> bool {
    MIN_TIMESTAMP <= ts <= MAX_TIMESTAMP
}

/// A time outside `chrono`'s range, or one more than a day inside it: the
/// local time of such a time is always in range, since a zone's offset is
/// less than a day. Within the last day of the range the local time may fall
/// outside it, and `chrono` then panics.
pub open spec fn clear_of_range_edges(ts: i64) -> bool {
    !representable(ts) || (MIN_TIMESTAMP + 86400 <= ts && ts <= MAX_TIMESTAMP - 86400)
}

/// What `NaiveDateTime::format` writes for `t` with `pattern`: a function of
/// the two alone.
pub uninterp spec fn formatted(t: NaiveDateTime, pattern: Seq<char>) -> Seq<char>;

/// The wall-clock time, in UTC, `secs` seconds after the epoch: what
/// `DateTime::from_timestamp(secs, 0)` holds (`naive_utc`), a function of
/// `secs` alone.
pub uninterp spec fn naive_at(secs: i64) -> NaiveDateTime;

/// The date of a wall-clock time (`NaiveDateTime::date`): a function of the
/// time alone.
pub uninterp spec fn date_in(t: NaiveDateTime) -> NaiveDate;

/// The whole days from `earlier` to `later` (`signed_duration_since`, then
/// `num_days`): a function of the two dates alone.
pub uninterp spec fn days_from(later: NaiveDate, earlier: NaiveDate) -> i64;

/// `t` is the local wall-clock time of the time `ts` seconds after the epoch
/// in a zone that shifts it to `shifted` (`ts` plus the zone's offset from
/// UTC): the UTC wall-clock time at `shifted`. A zone's offset is less than
/// a day either way.
pub open spec fn local_at(t: NaiveDateTime, ts: i64, shifted: i64) -> bool {
    &&& -86400 < shifted - ts < 86400
    &&& MIN_TIMESTAMP <= shifted <= MAX_TIMESTAMP
    &&& t == naive_at(shifted)
}

/// `DateTime::from_timestamp` (whole seconds) moved to the local time zone
/// with `with_timezone`, as the local wall-clock time (`naive_local`, the
/// UTC wall-clock time shifted by the zone's offset). It is there exactly
/// when `chrono` represents `ts`; the offset is the machine's zone's and is
/// not stated beyond being less than a day. Times within a day of the
/// range's ends are left out, since `naive_local` panics when the zone's
/// offset carries them out of the range.
#[verifier::external_body]
fn local_time(ts: i64) -> (r: Option<NaiveDateTime>)
    requires
        clear_of_range_edges(ts),
    ensures
        r is Some <==> representable(ts),
        r matches Some(t) ==> exists|shifted: i64|
            -86400 < shifted - ts < 86400 && MIN_TIMESTAMP <= shifted <= MAX_TIMESTAMP && t == #[trigger] naive_at(shifted),
{
    DateTime::from_timestamp(ts, 0).map(|dt| dt.with_timezone(&Local).naive_local())
}

/// Today's local date (`Local::now().date_naive()`). It depends on the
/// clock; nothing is stated.
#[verifier::external_body]
fn today() -> (r: NaiveDate) {
    Local::now().date_naive()
}

/// The date of a wall-clock time (`NaiveDateTime::date`): the named function
/// of the time.
#[verifier::external_body]
fn date_of(t: &NaiveDateTime) -> (r: NaiveDate)
    ensures
        r == date_in(*t),
{
    t.date()
}

/// The whole days from `earlier` to `later`
/// (`NaiveDate::signed_duration_since`, then `num_days`): the named function
/// of the two dates.
#[verifier::external_body]
fn days_between(later: NaiveDate, earlier: NaiveDate) -> (r: i64)
    ensures
        r == days_from(later, earlier),
{
    later.signed_duration_since(earlier).num_days()
}

/// `NaiveDateTime::format` with `pattern`, as text: the named function of
/// the time and the pattern. Each pattern of this module writes at least
/// seven characters (the shortest, "%-I:%M %p", writes an hour, a colon,
/// two digits of minutes, a space and "AM" or "PM"). Only the patterns of
/// this module are passed, since a malformed one makes the conversion to
/// text panic.
#[verifier::external_body]
fn format_local(t: &NaiveDateTime, pattern: &str) -> (r: String)
    requires
        known_pattern(pattern@),
    ensures
        r@ == formatted(*t, pattern@),
        r@.len() >= 7,
{
    t.format(pattern).to_string()
}

/// How a time is shown in the listing, by how many days before today it
/// falls.
#[derive(Debug, Clone, Copy, PartialEq, Eq, Structural)]
pub enum StampStyle {
    Today,
    Yesterday,
    ThisWeek,
    Older,
}

/// Today, yesterday, within the week (a later date counts here too), or
/// older.
pub open spec fn style_for(days_ago: i64) -> StampStyle {
    if days_ago == 0 {
        StampStyle::Today
    } else if days_ago == 1 {
        StampStyle::Yesterday
    } else if days_ago < 7 {
        StampStyle::ThisWeek
    } else {
        StampStyle::Older
    }
}

/// The style for a time `days_ago` days before today.
pub fn stamp_style(days_ago: i64) -> (r: StampStyle)
    ensures
        r == style_for(days_ago),
{
    if days_ago == 0 {
        StampStyle::Today
    } else if days_ago == 1 {
        StampStyle::Yesterday
    } else if days_ago < 7 {
        StampStyle::ThisWeek
    } else {
        StampStyle::Older
    }
}

/// The listing's text for a time, from the calendar's readings of it (days
/// before today, and the time, weekday-and-time and date as formatted), or
/// a dash for a time the calendar cannot represent.
pub open spec fn stamp_text(reading: Option<(i64, Seq<char>, Seq<char>, Seq<char>)>) -> Seq<char> {
    match reading {
        None => "—"@,
        Some((days, time, weekday, date)) => match style_for(days) {
            StampStyle::Today => "Today, "@ + time,
            StampStyle::Yesterday => "Yesterday, "@ + time,
            StampStyle::ThisWeek => weekday,
            StampStyle::Older => date,
        },
    }
}

/// The readings of a time, as text.
pub open spec fn reading_view(reading: Option<(i64, String, String, String)>) -> Option<(i64, Seq<char>, Seq<char>, Seq<char>)> {
    match reading {
        Some((d, t, w, a)) => Some((d, t@, w@, a@)),
        None => None,
    }
}

/// The listing's text for a time, from the calendar's readings of it.
pub fn stamp_from(reading: Option<(i64, String, String, String)>) -> (r: String)
    ensures
        r@ == stamp_text(reading_view(reading)),
{
    match reading {
        None => String::from_str("—"),
        Some((days, time, weekday, date)) => match stamp_style(days) {
            StampStyle::Today => String::from_str("Today, ").concat(time.as_str()),
            StampStyle::Yesterday => String::from_str("Yesterday, ").concat(time.as_str()),
            StampStyle::ThisWeek => weekday,
            StampStyle::Older => date,
        },
    }
}

/// `text` is the listing's text for the time `ts`, seen in a zone that
/// shifts it to `shifted` on the day `today`: by how many days the local
/// date falls before today, "Today, " or "Yesterday, " and the local time,
/// the weekday and time, or the date.
pub open spec fn listing_text(text: Seq<char>, ts: i64, shifted: i64, today: NaiveDate) -> bool {
    let t = naive_at(shifted);
    &&& local_at(t, ts, shifted)
    &&& text == stamp_text(Some((
        days_from(today, date_in(t)),
        formatted(t, TIME_PATTERN@),
        formatted(t, WEEKDAY_PATTERN@),
        formatted(t, DATE_PATTERN@),
    )))
}

/// `text` is the properties dialog's text for the time `ts`, seen in a zone
/// that shifts it to `shifted`: the full date and time of the local time.
pub open spec fn long_text(text: Seq<char>, ts: i64, shifted: i64) -> bool {
    let t = naive_at(shifted);
    &&& local_at(t, ts, shifted)
    &&& text == long_stamp_text(Some(formatted(t, LONG_PATTERN@)))
}

/// The listing's text for a modification time `ts` (seconds since the
/// epoch): a dash exactly when `chrono` cannot represent it; otherwise, for
/// its local time `t`, "Today, " or "Yesterday, " and the time of `t`, the
/// weekday and time of `t`, or the date of `t`, by how many days before
/// today it falls.
pub fn format_timestamp(ts: i64) -> (r: String)
    requires
        clear_of_range_edges(ts),
    ensures
        r@.len() > 0,
        (r@ == "—"@) <==> !representable(ts),
        representable(ts) ==> exists|shifted: i64, today: NaiveDate| listing_text(r@, ts, shifted, today),
{
    proof {
        reveal_strlit("—");
        reveal_strlit("Today, ");
        reveal_strlit("Yesterday, ");
    }
    match local_time(ts) {
        None => {
            let r = String::from_str("—");
            r
        },
        Some(t) => {
            let now = today();
            let day = date_of(&t);
            let ghost now_g = now;
            let days = days_between(now, day);
            let time = format_local(&t, TIME_PATTERN);
            let weekday = format_local(&t, WEEKDAY_PATTERN);
            let date = format_local(&t, DATE_PATTERN);
            let ghost g = Some((days, time@, weekday@, date@));
            let r = stamp_from(Some((days, time, weekday, date)));
            assert(r@ == stamp_text(g));
            assert(r@.len() >= 7);
            proof {
                let shifted = choose|shifted: i64|
                    -86400 < shifted - ts < 86400 && MIN_TIMESTAMP <= shifted <= MAX_TIMESTAMP && t == #[trigger] naive_at(shifted);
                assert(listing_text(r@, ts, shifted, now_g));
            }
            r
        },
    }
}

/// The properties dialog's text for a time, from the calendar's full
/// reading of it, or a dash for a time the calendar cannot represent.
pub open spec fn long_stamp_text(reading: Option<Seq<char>>) -> Seq<char> {
    match reading {
        None => "—"@,
        Some(full) => full,
    }
}

/// The properties dialog's text for a time `ts` (seconds since the epoch):
/// a dash exactly when `chrono` cannot represent it, otherwise the full
/// date and time of its local time.
pub fn format_long_timestamp(ts: i64) -> (r: String)
    requires
        clear_of_range_edges(ts),
    ensures
        r@.len() > 0,
        (r@ == "—"@) <==> !representable(ts),
        representable(ts) ==> exists|shifted: i64| long_text(r@, ts, shifted),
{
    proof {
        reveal_strlit("—");
    }
    match local_time(ts) {
        None => String::from_str("—"),
        Some(t) => {
            let r = format_local(&t, LONG_PATTERN);
            proof {
                let shifted = choose|shifted: i64|
                    -86400 < shifted - ts < 86400 && MIN_TIMESTAMP <= shifted <= MAX_TIMESTAMP && t == #[trigger] naive_at(shifted);
                assert(long_text(r@, ts, shifted));
            }
            r
        },
    }
}

} // verus!
