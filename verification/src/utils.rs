//! Resolving what a user wrote for a timezone to a fixed offset.

use crate::offset::{
    alias_secs, fixed_secs, is_fixed_form, lemma_label_round_trip, offset_in_range, offset_text, Offset,
};
use crate::text::{chars_of, text_eq};
use crate::zones::{
    local_offset_secs, timestamp_in_range, utc_now, zone_name, zone_name_at, zone_offset,
    zone_offset_at, ZONE_COUNT,
};
use vstd::prelude::*;

verus! {

/// The seconds east of UTC of an offset that may be missing.
pub open spec fn secs_of(offset: Option<Offset>) -> Option<int> {
    match offset {
        Some(o) => Some(o@),
        None => None,
    }
}

/// The first place at or after `from` in the table of named zones whose
/// zone is called `name`.
pub open spec fn zone_index_from(name: Seq<char>, from: int) -> Option<int>
    decreases ZONE_COUNT - from,
{
    if from >= ZONE_COUNT {
        None
    } else if zone_name_at(from) == name {
        Some(from)
    } else {
        zone_index_from(name, from + 1)
    }
}

/// The place of the zone called `name` in the table of named zones.
pub open spec fn zone_index(name: Seq<char>) -> Option<int> {
    zone_index_from(name, 0)
}

/// The offset that the zone called `name` keeps at the instant `now`:
/// `None` where no zone has that name, or where the zone is then more
/// than fourteen hours from UTC.
pub open spec fn zone_secs(name: Seq<char>, now: int) -> Option<int> {
    match zone_index(name) {
        Some(index) => if offset_in_range(zone_offset_at(index, now)) {
            Some(zone_offset_at(index, now))
        } else {
            None
        },
        None => None,
    }
}

/// The offset that `tz` stands for at the instant `now`.
///
/// A text in fixed form (an abbreviation, a bare number of hours, or a
/// text that starts with a sign) is read as such and never looked up.
/// Any other text is looked up in the table of named zones, exactly as
/// written, and stands for the offset that the zone keeps at `now`.
pub open spec fn resolved_secs(tz: Seq<char>, now: int) -> Option<int> {
    if is_fixed_form(tz) {
        fixed_secs(tz)
    } else {
        zone_secs(tz, now)
    }
}

/// Looks `name` up in the table of named zones.
pub fn find_zone(name: &str) -> (index: Option<usize>)
    ensures
        match index {
            Some(i) => zone_index(name@) == Some(i as int) && i < ZONE_COUNT,
            None => zone_index(name@) is None,
        },
{
    let mut i: usize = 0;
    while i < ZONE_COUNT
        invariant
            i <= ZONE_COUNT,
            zone_index_from(name@, i as int) == zone_index(name@),
        decreases ZONE_COUNT - i,
    {
        let candidate = zone_name(i);
        if text_eq(candidate.as_str(), name) {
            return Some(i);
        }
        i = i + 1;
    }
    None
}

/// The offset that the zone at `index` keeps at `now`, where it lies
/// within fourteen hours of UTC.
fn zone_offset_checked(index: usize, now: i64) -> (offset: Option<Offset>)
    requires
        index < ZONE_COUNT,
        timestamp_in_range(now as int),
    ensures
        secs_of(offset) == if offset_in_range(zone_offset_at(index as int, now as int)) {
            Some(zone_offset_at(index as int, now as int))
        } else {
            None
        },
{
    Offset::east_opt(zone_offset(index, now))
}

/// Resolves `tz` to a fixed offset, taking `now` for the current instant.
///
/// In order: one of the abbreviations UTC, IST, JST, PST and EST; a bare
/// number of hours; a signed literal such as `+05:30`; the name of a
/// zone, which gives the offset that the zone keeps at `now`. `None`
/// where `tz` is none of these or stands for an offset more than fourteen
/// hours from UTC.
pub fn match_timezone_at(tz: &str, now: i64) -> (offset: Option<Offset>)
    requires
        timestamp_in_range(now as int),
    ensures
        secs_of(offset) == resolved_secs(tz@, now as int),
{
    let chars = chars_of(tz);
    match Offset::from_fixed_form(&chars) {
        Some(fixed) => fixed,
        None => match find_zone(tz) {
            Some(index) => zone_offset_checked(index, now),
            None => None,
        },
    }
}

/// Resolves `tz` to a fixed offset as [`match_timezone_at`] does, reading
/// the clock where the name of a zone asks for the current instant.
pub fn match_timezone(tz: &str) -> (offset: Option<Offset>)
    ensures
        is_fixed_form(tz@) ==> secs_of(offset) == fixed_secs(tz@),
        exists|now: int| timestamp_in_range(now) && secs_of(offset) == #[trigger] resolved_secs(tz@, now),
{
    let chars = chars_of(tz);
    match Offset::from_fixed_form(&chars) {
        Some(fixed) => {
            assert(secs_of(fixed) == resolved_secs(tz@, 0));
            fixed
        },
        None => match find_zone(tz) {
            Some(index) => {
                let now = utc_now();
                let offset = zone_offset_checked(index, now);
                assert(secs_of(offset) == resolved_secs(tz@, now as int));
                offset
            },
            None => {
                assert(resolved_secs(tz@, 0) is None);
                None
            },
        },
    }
}

/// The text of a string that may be missing.
pub open spec fn text_of(s: Option<&str>) -> Option<Seq<char>> {
    match s {
        Some(s) => Some(s@),
        None => None,
    }
}

/// The text of an owned string that may be missing.
pub open spec fn string_text(s: Option<String>) -> Option<Seq<char>> {
    match s {
        Some(s) => Some(s@),
        None => None,
    }
}

/// A string that may be missing, borrowed.
pub fn as_text(s: &Option<String>) -> (text: Option<&str>)
    ensures
        text_of(text) == string_text(*s),
{
    match s {
        Some(s) => Some(s.as_str()),
        None => None,
    }
}

/// The offset taken from the host: its own where that lies within
/// fourteen hours of UTC, and UTC where it does not.
pub open spec fn host_secs(local: int) -> int {
    if offset_in_range(local) {
        local
    } else {
        0
    }
}

/// The user's default offset: what the override `env_tz` stands for at
/// `now`, and the host's offset `local` where there is no override or it
/// stands for nothing.
pub open spec fn user_secs(env_tz: Option<Seq<char>>, now: int, local: int) -> int {
    match env_tz {
        Some(tz) => match resolved_secs(tz, now) {
            Some(secs) => secs,
            None => host_secs(local),
        },
        None => host_secs(local),
    }
}

/// The offset taken from the host, given the host's own offset in seconds east of UTC.
pub fn host_offset(local_secs: i32) -> (offset: Offset)
    ensures
        offset@ == host_secs(local_secs as int),
{
    match Offset::east_opt(local_secs) {
        Some(offset) => offset,
        None => Offset::utc(),
    }
}

/// The user's default offset, given the override `env_tz` from the
/// environment, the current instant and the host's own offset.
pub fn get_user_timezone_at(env_tz: Option<&str>, now: i64, local_secs: i32) -> (offset: Offset)
    requires
        timestamp_in_range(now as int),
    ensures
        offset@ == user_secs(text_of(env_tz), now as int, local_secs as int),
{
    if let Some(tz) = env_tz {
        if let Some(offset) = match_timezone_at(tz, now) {
            return offset;
        }
    }
    host_offset(local_secs)
}

/// The user's default offset: what the override `env_tz` from the
/// environment stands for, else the host's own offset, else UTC.
///
/// The clock is read only where the override names a zone, and the host
/// is asked only where the override gives no offset.
pub fn get_user_timezone(env_tz: Option<&str>) -> (offset: Offset)
    ensures
        env_tz matches Some(tz) ==> (is_fixed_form(tz@) && fixed_secs(tz@) is Some ==> Some(offset@)
            == fixed_secs(tz@)),
        exists|now: int, local: int|
            timestamp_in_range(now) && -86_400 < local < 86_400 && offset@ == #[trigger] user_secs(
                text_of(env_tz),
                now,
                local,
            ),
{
    if let Some(tz) = env_tz {
        let found = match_timezone(tz);
        let ghost now = choose|now: int|
            timestamp_in_range(now) && secs_of(found) == #[trigger] resolved_secs(tz@, now);
        if let Some(offset) = found {
            assert(offset@ == user_secs(text_of(env_tz), now, 0));
            return offset;
        }
        let local = local_offset_secs();
        let offset = host_offset(local);
        assert(offset@ == user_secs(text_of(env_tz), now, local as int));
        offset
    } else {
        let local = local_offset_secs();
        let offset = host_offset(local);
        assert(offset@ == user_secs(text_of(env_tz), 0, local as int));
        offset
    }
}

/// What a request for a timezone resolved to.
pub struct Resolution {
    /// The offset to display times in.
    pub offset: Offset,
    /// Whether a timezone was asked for that stands for no offset, so
    /// that the user's default took its place.
    pub rejected: bool,
}

/// The offset that a request resolves to: what `input` stands for at
/// `now`, and the user's default where nothing was asked for or what was
/// asked for stands for nothing.
pub open spec fn resolution_secs(
    input: Option<Seq<char>>,
    env_tz: Option<Seq<char>>,
    now: int,
    local: int,
) -> int {
    match input {
        Some(tz) => match resolved_secs(tz, now) {
            Some(secs) => secs,
            None => user_secs(env_tz, now, local),
        },
        None => user_secs(env_tz, now, local),
    }
}

/// Whether a request asks for a timezone that stands for no offset at `now`.
pub open spec fn resolution_rejected(input: Option<Seq<char>>, now: int) -> bool {
    input matches Some(tz) && resolved_secs(tz, now) is None
}

/// Resolves a request for a timezone, given the override from the
/// environment, the current instant and the host's own offset.
///
/// Never fails: a request that stands for no offset is marked as
/// rejected and answered with the user's default.
pub fn resolve_at(input: Option<&str>, env_tz: Option<&str>, now: i64, local_secs: i32) -> (resolution:
    Resolution)
    requires
        timestamp_in_range(now as int),
    ensures
        resolution.offset@ == resolution_secs(
            text_of(input),
            text_of(env_tz),
            now as int,
            local_secs as int,
        ),
        resolution.rejected == resolution_rejected(text_of(input), now as int),
{
    if let Some(tz) = input {
        match match_timezone_at(tz, now) {
            Some(offset) => Resolution { offset, rejected: false },
            None => Resolution { offset: get_user_timezone_at(env_tz, now, local_secs), rejected: true },
        }
    } else {
        Resolution { offset: get_user_timezone_at(env_tz, now, local_secs), rejected: false }
    }
}

/// Resolves a request for a timezone, given the override from the
/// environment. The clock is read and the host is asked once, and the
/// request is resolved against what they said.
///
/// Never fails: a request that stands for no offset is marked as
/// rejected and answered with the user's default.
pub fn resolve(input: Option<&str>, env_tz: Option<&str>) -> (resolution: Resolution)
    ensures
        input matches Some(tz) ==> (is_fixed_form(tz@) ==> {
            &&& resolution.rejected == (fixed_secs(tz@) is None)
            &&& fixed_secs(tz@) is Some ==> Some(resolution.offset@) == fixed_secs(tz@)
        }),
        input is None ==> !resolution.rejected,
        exists|now: int, local: int|
            {
                &&& timestamp_in_range(now)
                &&& -86_400 < local < 86_400
                &&& resolution.offset@ == #[trigger] resolution_secs(
                    text_of(input),
                    text_of(env_tz),
                    now,
                    local,
                )
                &&& resolution.rejected == resolution_rejected(text_of(input), now)
            },
{
    let now = utc_now();
    let local = local_offset_secs();
    let resolution = resolve_at(input, env_tz, now, local);
    assert(resolution.offset@ == resolution_secs(
        text_of(input),
        text_of(env_tz),
        now as int,
        local as int,
    ));
    resolution
}

/// Each of the known abbreviations resolves to its own offset, whatever the instant.
pub proof fn lemma_alias_resolves(name: Seq<char>, now: int)
    requires
        alias_secs(name) is Some,
    ensures
        resolved_secs(name, now) == alias_secs(name),
        name =~= seq!['U', 'T', 'C'] ==> resolved_secs(name, now) == Some(0int),
        name =~= seq!['I', 'S', 'T'] ==> resolved_secs(name, now) == Some(19_800int),
        name =~= seq!['J', 'S', 'T'] ==> resolved_secs(name, now) == Some(32_400int),
        name =~= seq!['P', 'S', 'T'] ==> resolved_secs(name, now) == Some(-28_800int),
        name =~= seq!['E', 'S', 'T'] ==> resolved_secs(name, now) == Some(-18_000int),
{
}

/// The display text of an offset of whole minutes resolves to that
/// offset, whatever the instant.
pub proof fn lemma_label_resolves(secs: int, now: int)
    requires
        offset_in_range(secs),
        secs % 60 == 0,
    ensures
        resolved_secs(offset_text(secs), now) == Some(secs),
{
    lemma_label_round_trip(secs);
}

/// Whatever a text resolves to lies within fourteen hours of UTC.
pub proof fn lemma_resolved_in_range(tz: Seq<char>, now: int)
    ensures
        resolved_secs(tz, now) matches Some(secs) ==> offset_in_range(secs),
{
}

/// A request always resolves to an offset within fourteen hours of UTC.
/// Where what was asked for stands for no offset, the request is marked
/// as rejected and resolves to the user's default: the override from the
/// environment where that stands for an offset, else the host's own
/// offset, else UTC.
pub proof fn lemma_invalid_request_falls_back(
    input: Option<Seq<char>>,
    env_tz: Option<Seq<char>>,
    now: int,
    local: int,
)
    ensures
        offset_in_range(resolution_secs(input, env_tz, now, local)),
        offset_in_range(user_secs(env_tz, now, local)),
        resolution_rejected(input, now) ==> resolution_secs(input, env_tz, now, local) == user_secs(
            env_tz,
            now,
            local,
        ),
        input is None ==> resolution_secs(input, env_tz, now, local) == user_secs(env_tz, now, local),
        env_tz is None ==> user_secs(env_tz, now, local) == host_secs(local),
        !offset_in_range(local) ==> host_secs(local) == 0,
{
    if let Some(tz) = input {
        lemma_resolved_in_range(tz, now);
    }
    if let Some(tz) = env_tz {
        lemma_resolved_in_range(tz, now);
    }
}

} // verus!
