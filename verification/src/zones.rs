//! The clock, the host's own offset and the table of named zones.
//!
//! Everything in this module is taken on trust from the `chrono` and
//! `chrono-tz` crates: the contracts below say what their code does and
//! are not proved here.

use vstd::prelude::*;

verus! {

/// The number of zones in the table of named zones: the length that the
/// type of `chrono_tz::TZ_VARIANTS` gives.
pub const ZONE_COUNT: usize = 597;

/// The earliest instant that `chrono` can represent, in seconds since the Unix epoch.
pub const TIMESTAMP_MIN: i64 = -8_334_601_228_800;

/// The latest instant that `chrono` can represent, in seconds since the Unix epoch.
pub const TIMESTAMP_MAX: i64 = 8_210_266_876_799;

/// Whether `chrono` can represent the instant `seconds` after the Unix epoch.
pub open spec fn timestamp_in_range(seconds: int) -> bool {
    -8_334_601_228_800 <= seconds <= 8_210_266_876_799
}

/// The name of the zone at `index` in the table of named zones, as in `Asia/Tokyo`.
pub uninterp spec fn zone_name_at(index: int) -> Seq<char>;

/// The offset from UTC, in seconds east, that the zone at `index` in the
/// table of named zones keeps at the instant `now`.
pub uninterp spec fn zone_offset_at(index: int, now: int) -> int;

/// `chrono_tz::Tz::name` of the entry of `chrono_tz::TZ_VARIANTS` at
/// `index`. The table has `ZONE_COUNT` entries, and an entry's name depends
/// on nothing but the entry.
#[verifier::external_body]
pub(crate) fn zone_name(index: usize) -> (name: String)
    requires
        index < ZONE_COUNT,
    ensures
        name@ == zone_name_at(index as int),
{
    let table: &[chrono_tz::Tz; 597] = &chrono_tz::TZ_VARIANTS;
    table[index].name().to_string()
}

/// `chrono::TimeZone::offset_from_utc_datetime` of the entry of
/// `chrono_tz::TZ_VARIANTS` at `index`, taken at the instant `now` and
/// turned into seconds east of UTC by `chrono::Offset::fix` and
/// `chrono::FixedOffset::local_minus_utc`. The result depends on the entry
/// and the instant alone, and a `FixedOffset` lies less than a day from UTC.
#[verifier::external_body]
pub(crate) fn zone_offset(index: usize, now: i64) -> (secs: i32)
    requires
        index < ZONE_COUNT,
        timestamp_in_range(now as int),
    ensures
        secs == zone_offset_at(index as int, now as int),
        -86_400 < secs < 86_400,
{
    let table: &[chrono_tz::Tz; 597] = &chrono_tz::TZ_VARIANTS;
    let utc = chrono::DateTime::from_timestamp(now, 0).unwrap().naive_utc();
    let kept = chrono::TimeZone::offset_from_utc_datetime(&table[index], &utc);
    chrono::Offset::fix(&kept).local_minus_utc()
}

/// `chrono::Utc::now`, as whole seconds since the Unix epoch
/// (`chrono::DateTime::timestamp`). Nothing is known of the instant but
/// that `chrono` can represent it. `chrono` panics where the system
/// clock is set before 1970.
#[verifier::external_body]
pub(crate) fn utc_now() -> (now: i64)
    ensures
        timestamp_in_range(now as int),
{
    chrono::Utc::now().timestamp()
}

/// The whole seconds (`chrono::TimeDelta::num_seconds`) from
/// `chrono::Utc::now` to the instant `target`, which
/// `chrono::DateTime::from_timestamp` makes and from which the current
/// instant is subtracted. Nothing is known of the result: it is the
/// clock's. `chrono` panics where the system clock is set before 1970.
#[verifier::external_body]
pub(crate) fn seconds_until(target: i64) -> (remaining: i64)
    requires
        timestamp_in_range(target as int),
{
    (chrono::DateTime::from_timestamp(target, 0).unwrap() - chrono::Utc::now()).num_seconds()
}

/// The offset of `chrono::Local::now`, in seconds east of UTC
/// (`chrono::FixedOffset::local_minus_utc`). It is the host's to choose;
/// a `FixedOffset` lies less than a day from UTC. `chrono` panics where
/// the system clock is set before 1970.
#[verifier::external_body]
pub(crate) fn local_offset_secs() -> (secs: i32)
    ensures
        -86_400 < secs < 86_400,
{
    chrono::Local::now().offset().local_minus_utc()
}

} // verus!
