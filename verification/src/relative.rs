//! Spans of time in words: how far off an instant is, and how long a countdown has to run.

use crate::text::{decimal_text, push_decimal};
use vstd::prelude::*;
use vstd::string::*;

verus! {

/// How far `target` is from `now`, in the largest unit that fits at least
/// once: whole days from a day on, whole hours from an hour on, whole
/// minutes from a minute on. A past instant reads as in `3h ago`, a coming
/// one as in `in 3h`; within a minute they read `just now` and `now`.
pub open spec fn relative_text(target: int, now: int) -> Seq<char> {
    let ahead = target - now;
    let ago = now - target;
    if ahead < 0 {
        if ago >= 86_400 {
            decimal_text(ago / 86_400) + "d ago"@
        } else if ago >= 3_600 {
            decimal_text(ago / 3_600) + "h ago"@
        } else if ago >= 60 {
            decimal_text(ago / 60) + "m ago"@
        } else {
            "just now"@
        }
    } else {
        if ahead >= 86_400 {
            "in "@ + decimal_text(ahead / 86_400) + "d"@
        } else if ahead >= 3_600 {
            "in "@ + decimal_text(ahead / 3_600) + "h"@
        } else if ahead >= 60 {
            "in "@ + decimal_text(ahead / 60) + "m"@
        } else {
            "now"@
        }
    }
}

/// A span of `secs` seconds as a countdown: days, hours within the day,
/// minutes within the hour and seconds within the minute, from the
/// largest unit that is not zero down to the seconds, as in `2d 3h 45m 30s`
/// or `45m 30s`. Every unit below the first is written, zero or not.
///
/// A span below zero reads as its seconds within the minute alone, with
/// their sign.
pub open spec fn duration_text(secs: int) -> Seq<char> {
    if secs < 0 {
        decimal_text(-((-secs) % 60)) + "s"@
    } else {
        let days = secs / 86_400;
        let hours = (secs / 3_600) % 24;
        let minutes = (secs / 60) % 60;
        let seconds = secs % 60;
        if days > 0 {
            decimal_text(days) + "d "@ + decimal_text(hours) + "h "@ + decimal_text(minutes) + "m "@
                + decimal_text(seconds) + "s"@
        } else if hours > 0 {
            decimal_text(hours) + "h "@ + decimal_text(minutes) + "m "@ + decimal_text(seconds) + "s"@
        } else if minutes > 0 {
            decimal_text(minutes) + "m "@ + decimal_text(seconds) + "s"@
        } else {
            decimal_text(seconds) + "s"@
        }
    }
}

/// Says in words how far the instant `target` is from `now`.
pub fn format_relative(target: i64, now: i64) -> (text: String)
    ensures
        text@ == relative_text(target as int, now as int),
{
    let ahead: i128 = target as i128 - now as i128;
    let mut text = String::new();
    if ahead < 0 {
        let ago: i128 = -ahead;
        if ago >= 86_400 {
            push_decimal(&mut text, (ago / 86_400) as i64);
            text.append("d ago");
        } else if ago >= 3_600 {
            push_decimal(&mut text, (ago / 3_600) as i64);
            text.append("h ago");
        } else if ago >= 60 {
            push_decimal(&mut text, (ago / 60) as i64);
            text.append("m ago");
        } else {
            text.append("just now");
        }
    } else {
        if ahead >= 86_400 {
            text.append("in ");
            push_decimal(&mut text, (ahead / 86_400) as i64);
            text.append("d");
        } else if ahead >= 3_600 {
            text.append("in ");
            push_decimal(&mut text, (ahead / 3_600) as i64);
            text.append("h");
        } else if ahead >= 60 {
            text.append("in ");
            push_decimal(&mut text, (ahead / 60) as i64);
            text.append("m");
        } else {
            text.append("now");
        }
    }
    assert(text@ =~= relative_text(target as int, now as int));
    text
}

/// Writes a span of `secs` seconds as a countdown.
pub fn format_duration(secs: i64) -> (text: String)
    ensures
        text@ == duration_text(secs as int),
{
    let mut text = String::new();
    if secs < 0 {
        let past: i128 = -(secs as i128);
        push_decimal(&mut text, -((past % 60) as i64));
        text.append("s");
    } else {
        let days = secs / 86_400;
        let hours = (secs / 3_600) % 24;
        let minutes = (secs / 60) % 60;
        let seconds = secs % 60;
        if days > 0 {
            push_decimal(&mut text, days);
            text.append("d ");
        }
        if days > 0 || hours > 0 {
            push_decimal(&mut text, hours);
            text.append("h ");
        }
        if days > 0 || hours > 0 || minutes > 0 {
            push_decimal(&mut text, minutes);
            text.append("m ");
        }
        push_decimal(&mut text, seconds);
        text.append("s");
    }
    assert(text@ =~= duration_text(secs as int));
    text
}

} // verus!
