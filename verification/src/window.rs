//! Query windows: a calendar day in a display offset, or a run of days
//! that starts or ends now.

use crate::offset::Offset;
use crate::text::text_eq;
use crate::zones::{timestamp_in_range, utc_now};
use vstd::prelude::*;

verus! {

/// The seconds in a day.
pub const DAY_SECS: i64 = 86_400;

/// The calendar day, counted from the first of January 1970, that the
/// instant `instant` falls on at `offset` seconds east of UTC.
pub open spec fn local_day(instant: int, offset: int) -> int {
    (instant + offset) / 86_400
}

/// The day of the week of a calendar day counted from the first of
/// January 1970, a Thursday: 0 is Monday and 6 is Sunday.
pub open spec fn weekday_of_day(day: int) -> int {
    (day + 3) % 7
}

/// The day of the week that the instant `instant` falls on at `offset`
/// seconds east of UTC: 0 is Monday and 6 is Sunday.
pub open spec fn weekday_at(instant: int, offset: int) -> int {
    weekday_of_day(local_day(instant, offset))
}

/// The days to wait from a `current` day of the week for the `target` one: none on the day itself.
pub open spec fn days_ahead(target: int, current: int) -> int {
    (target + 7 - current) % 7
}

/// The first and the last second of the next calendar day at `offset`
/// that is a `day_of_week`, today where today is one.
pub open spec fn day_window_bounds(day_of_week: int, now: int, offset: int) -> (int, int) {
    let today = local_day(now, offset);
    let target = today + days_ahead(day_of_week, weekday_of_day(today));
    let start = target * 86_400 - offset;
    (start, start + 86_399)
}

/// The bounds of a run of `days` days that starts now, or that ends now where `past` is set.
pub open spec fn interval_window_bounds(now: int, days: int, past: bool) -> (int, int) {
    if past {
        (now - days * 86_400, now)
    } else {
        (now, now + days * 86_400)
    }
}

/// The day of the week that `name` is the English name of, in small
/// letters: 0 for `monday` to 6 for `sunday`.
pub open spec fn day_of_name(name: Seq<char>) -> Option<int> {
    if name =~= seq!['m', 'o', 'n', 'd', 'a', 'y'] {
        Some(0)
    } else if name =~= seq!['t', 'u', 'e', 's', 'd', 'a', 'y'] {
        Some(1)
    } else if name =~= seq!['w', 'e', 'd', 'n', 'e', 's', 'd', 'a', 'y'] {
        Some(2)
    } else if name =~= seq!['t', 'h', 'u', 'r', 's', 'd', 'a', 'y'] {
        Some(3)
    } else if name =~= seq!['f', 'r', 'i', 'd', 'a', 'y'] {
        Some(4)
    } else if name =~= seq!['s', 'a', 't', 'u', 'r', 'd', 'a', 'y'] {
        Some(5)
    } else if name =~= seq!['s', 'u', 'n', 'd', 'a', 'y'] {
        Some(6)
    } else {
        None
    }
}

/// Reads the name of a day of the week.
pub fn parse_day(name: &str) -> (day: Option<u8>)
    ensures
        day is Some <==> day_of_name(name@) is Some,
        day matches Some(d) ==> day_of_name(name@) == Some(d as int) && d <= 6,
{
    proof {
        reveal_strlit("monday");
        reveal_strlit("tuesday");
        reveal_strlit("wednesday");
        reveal_strlit("thursday");
        reveal_strlit("friday");
        reveal_strlit("saturday");
        reveal_strlit("sunday");
        assert("monday"@ =~= seq!['m', 'o', 'n', 'd', 'a', 'y']);
        assert("tuesday"@ =~= seq!['t', 'u', 'e', 's', 'd', 'a', 'y']);
        assert("wednesday"@ =~= seq!['w', 'e', 'd', 'n', 'e', 's', 'd', 'a', 'y']);
        assert("thursday"@ =~= seq!['t', 'h', 'u', 'r', 's', 'd', 'a', 'y']);
        assert("friday"@ =~= seq!['f', 'r', 'i', 'd', 'a', 'y']);
        assert("saturday"@ =~= seq!['s', 'a', 't', 'u', 'r', 'd', 'a', 'y']);
        assert("sunday"@ =~= seq!['s', 'u', 'n', 'd', 'a', 'y']);
    }
    if text_eq(name, "monday") {
        Some(0)
    } else if text_eq(name, "tuesday") {
        Some(1)
    } else if text_eq(name, "wednesday") {
        Some(2)
    } else if text_eq(name, "thursday") {
        Some(3)
    } else if text_eq(name, "friday") {
        Some(4)
    } else if text_eq(name, "saturday") {
        Some(5)
    } else if text_eq(name, "sunday") {
        Some(6)
    } else {
        None
    }
}

/// `n` divided by the seconds in a day, rounded down.
fn day_of(n: i128) -> (day: i128)
    requires
        -0x1_0000_0000_0000_0000 <= n <= 0x1_0000_0000_0000_0000,
    ensures
        day == n / 86_400,
{
    if n >= 0 {
        n / 86_400
    } else {
        -((-n + 86_399) / 86_400)
    }
}

/// The day of the week, 0 for Monday to 6 for Sunday, that `now` falls on
/// at `offset`.
pub fn weekday(now: i64, offset: Offset) -> (day: u8)
    ensures
        day == weekday_at(now as int, offset@),
        day <= 6,
{
    let local: i128 = now as i128 + offset.local_minus_utc() as i128;
    let shifted: i128 = day_of(local) + 3;
    let day: i128 = if shifted >= 0 {
        shifted % 7
    } else {
        (7 - (-shifted) % 7) % 7
    };
    day as u8
}

/// The window of one calendar day: the next day at `offset` that is a
/// `day_of_week` (0 for Monday to 6 for Sunday), today where today is one,
/// from its first second to its last, in seconds since the Unix epoch.
pub fn day_window(day_of_week: u8, now: i64, offset: Offset) -> (window: (i64, i64))
    requires
        day_of_week <= 6,
        i64::MIN <= day_window_bounds(day_of_week as int, now as int, offset@).0,
        day_window_bounds(day_of_week as int, now as int, offset@).1 <= i64::MAX,
    ensures
        (window.0 as int, window.1 as int) == day_window_bounds(day_of_week as int, now as int, offset@),
        window.0 < window.1,
        window.1 - window.0 == 86_399,
        weekday_at(window.0 as int, offset@) == day_of_week,
{
    let east: i128 = offset.local_minus_utc() as i128;
    let today: i128 = day_of(now as i128 + east);
    let current: i128 = weekday(now, offset) as i128;
    let ahead: i128 = (day_of_week as i128 + 7 - current) % 7;
    let start: i128 = (today + ahead) * 86_400 - east;
    proof {
        lemma_day_window(day_of_week as int, now as int, offset@);
    }
    (start as i64, (start + 86_399) as i64)
}

/// The window of the next calendar day in UTC that is a `day` (0 for
/// Monday to 6 for Sunday), today where today is one, as it stands at
/// the current instant.
pub fn get_day_timestamps(day: u32) -> (window: (i64, i64))
    requires
        day <= 6,
    ensures
        window.0 < window.1,
        window.1 - window.0 == 86_399,
        weekday_at(window.0 as int, 0) == day,
        exists|now: int|
            timestamp_in_range(now) && (window.0 as int, window.1 as int) == #[trigger] day_window_bounds(
                day as int,
                now,
                0,
            ),
{
    let now = utc_now();
    let window = day_window(day as u8, now, Offset::utc());
    assert((window.0 as int, window.1 as int) == day_window_bounds(day as int, now as int, 0));
    window
}

/// The window of a run of `days` days: from `now` on, or up to `now`
/// where `past` is set, in seconds since the Unix epoch.
pub fn interval_window(now: i64, days: u32, past: bool) -> (window: (i64, i64))
    requires
        i64::MIN <= interval_window_bounds(now as int, days as int, past).0,
        interval_window_bounds(now as int, days as int, past).1 <= i64::MAX,
    ensures
        (window.0 as int, window.1 as int) == interval_window_bounds(now as int, days as int, past),
        window.1 - window.0 == days * 86_400,
        window.0 <= window.1,
        days > 0 ==> window.0 < window.1,
{
    let span: i64 = days as i64 * DAY_SECS;
    if past {
        (now - span, now)
    } else {
        (now, now + span)
    }
}

/// A day window is one calendar day at the display offset: it runs from
/// a local midnight to the last second before the next, on the day of the
/// week that was asked for.
pub proof fn lemma_day_window(day_of_week: int, now: int, offset: int)
    requires
        0 <= day_of_week <= 6,
    ensures
        ({
            let (start, end) = day_window_bounds(day_of_week, now, offset);
            &&& start < end
            &&& end - start == 86_399
            &&& (start + offset) % 86_400 == 0
            &&& weekday_at(start, offset) == day_of_week
            &&& weekday_at(end, offset) == day_of_week
        }),
{
}

/// A day window is the next day of its kind: it lies on one of the seven
/// days from today on, no day before it from today on is of that kind,
/// and it is today where today is of that kind.
pub proof fn lemma_day_window_is_next(day_of_week: int, now: int, offset: int)
    requires
        0 <= day_of_week <= 6,
    ensures
        ({
            let (start, end) = day_window_bounds(day_of_week, now, offset);
            let today = local_day(now, offset);
            &&& today <= local_day(start, offset) <= today + 6
            &&& forall|day: int| today <= day < local_day(start, offset) ==> weekday_of_day(day) != day_of_week
            &&& weekday_at(now, offset) == day_of_week ==> start <= now <= end
        }),
{
}

/// A window of `days` days spans exactly that many days, whichever way
/// it runs: it starts before it ends, but for a window of no days, and
/// starts or ends now.
pub proof fn lemma_interval_window(now: int, days: int, past: bool)
    requires
        days >= 0,
    ensures
        ({
            let (start, end) = interval_window_bounds(now, days, past);
            &&& end - start == days * 86_400
            &&& start <= end
            &&& days > 0 ==> start < end
            &&& if past {
                end == now
            } else {
                start == now
            }
        }),
{
}

} // verus!
