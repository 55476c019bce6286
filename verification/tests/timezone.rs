use animesh::offset::Offset;
use animesh::text::chars_of;
use animesh::utils::{
    find_zone, get_user_timezone_at, host_offset, match_timezone, match_timezone_at, resolve,
    resolve_at,
};
use animesh::zones::{TIMESTAMP_MAX, TIMESTAMP_MIN, ZONE_COUNT};
use chrono::{Offset as _, TimeZone};

const NOW: i64 = 1_700_000_000;

fn secs(tz: &str) -> Option<i32> {
    match_timezone_at(tz, NOW).map(|offset| offset.local_minus_utc())
}

#[test]
fn aliases_have_their_fixed_offsets() {
    assert_eq!(secs("UTC"), Some(0));
    assert_eq!(secs("IST"), Some(19_800));
    assert_eq!(secs("JST"), Some(32_400));
    assert_eq!(secs("PST"), Some(-28_800));
    assert_eq!(secs("EST"), Some(-18_000));
}

#[test]
fn aliases_do_not_depend_on_the_instant() {
    for now in [TIMESTAMP_MIN, -1, 0, NOW, TIMESTAMP_MAX] {
        assert_eq!(match_timezone_at("IST", now).unwrap().local_minus_utc(), 19_800);
        assert_eq!(match_timezone_at("PST", now).unwrap().local_minus_utc(), -28_800);
    }
    assert_eq!(match_timezone("JST").unwrap().local_minus_utc(), 32_400);
}

#[test]
fn aliases_are_matched_as_written() {
    assert_eq!(secs("ist"), None);
    assert_eq!(secs("Utc"), None);
    assert_eq!(secs("IST "), None);
    assert_eq!(secs("CET"), Some(3_600));
}

#[test]
fn bare_hours_are_read() {
    assert_eq!(secs("9"), Some(32_400));
    assert_eq!(secs("-8"), Some(-28_800));
    assert_eq!(secs("+5"), Some(18_000));
    assert_eq!(secs("0"), Some(0));
    assert_eq!(secs("-0"), Some(0));
    assert_eq!(secs("007"), Some(25_200));
    assert_eq!(secs("+05"), Some(18_000));
}

#[test]
fn bare_hours_stop_at_fourteen() {
    assert_eq!(secs("14"), Some(50_400));
    assert_eq!(secs("-14"), Some(-50_400));
    assert_eq!(secs("15"), None);
    assert_eq!(secs("-15"), None);
    assert_eq!(secs("25"), None);
    assert_eq!(secs("2147483647"), None);
    assert_eq!(secs("-2147483648"), None);
}

#[test]
fn numerals_beyond_32_bits_are_no_hours() {
    assert_eq!(secs("2147483648"), None);
    assert_eq!(secs("-2147483649"), None);
    assert_eq!(secs("99999999999999999999999999"), None);
    assert_eq!(secs("+99999999999999999999999999"), None);
}

#[test]
fn signed_literals_are_read() {
    assert_eq!(secs("+05:30"), Some(19_800));
    assert_eq!(secs("-08:00"), Some(-28_800));
    assert_eq!(secs("+00:00"), Some(0));
    assert_eq!(secs("-00:00"), Some(0));
    assert_eq!(secs("+5:3"), Some(18_180));
    assert_eq!(secs("+05:90"), Some(23_400));
    assert_eq!(secs("+-5:30"), Some(-16_200));
    assert_eq!(secs("-5:-30"), Some(-16_200));
    assert_eq!(secs("++5:+30"), Some(19_800));
}

#[test]
fn signed_literals_stop_at_fourteen_hours() {
    assert_eq!(secs("+14:00"), Some(50_400));
    assert_eq!(secs("-14:00"), Some(-50_400));
    assert_eq!(secs("+14:01"), None);
    assert_eq!(secs("-14:01"), None);
    assert_eq!(secs("+23:59"), None);
    assert_eq!(secs("+99:00"), None);
    assert_eq!(secs("+2147483647:2147483647"), None);
}

#[test]
fn malformed_literals_are_rejected() {
    assert_eq!(secs("+"), None);
    assert_eq!(secs("-"), None);
    assert_eq!(secs("+:"), None);
    assert_eq!(secs("+05:"), None);
    assert_eq!(secs("+:30"), None);
    assert_eq!(secs("+05:30:00"), None);
    assert_eq!(secs("+ab:cd"), None);
    assert_eq!(secs("+05.30"), None);
    assert_eq!(secs("05:30"), None);
    assert_eq!(secs(""), None);
    assert_eq!(secs(" 9"), None);
    assert_eq!(secs("9 "), None);
    assert_eq!(secs("+Asia/Tokyo"), None);
}

#[test]
fn named_zones_give_the_offset_kept_at_the_instant() {
    assert_eq!(secs("Asia/Tokyo"), Some(32_400));
    assert_eq!(secs("Asia/Kolkata"), Some(19_800));
    assert_eq!(secs("Europe/London"), Some(0));
    assert_eq!(secs("America/New_York"), Some(-18_000));
    assert_eq!(
        match_timezone_at("America/New_York", 1_690_000_000).map(|o| o.local_minus_utc()),
        Some(-14_400)
    );
    assert_eq!(
        match_timezone_at("Europe/London", 1_690_000_000).map(|o| o.local_minus_utc()),
        Some(3_600)
    );
}

#[test]
fn named_zones_agree_with_the_zone_table() {
    for now in [-2_000_000_000i64, 0, 1_000_000_000, NOW, 4_000_000_000] {
        let utc = chrono::DateTime::from_timestamp(now, 0).unwrap().naive_utc();
        for zone in chrono_tz::TZ_VARIANTS.iter() {
            let kept = zone.offset_from_utc_datetime(&utc).fix().local_minus_utc();
            let expected = if (-50_400..=50_400).contains(&kept) { Some(kept) } else { None };
            let found = match_timezone_at(zone.name(), now).map(|o| o.local_minus_utc());
            if zone.name() == "UTC" || zone.name() == "EST" {
                continue;
            }
            assert_eq!(found, expected, "{} at {}", zone.name(), now);
        }
    }
}

#[test]
fn a_zone_beyond_fourteen_hours_is_rejected() {
    let long_ago = -5_000_000_000i64;
    let utc = chrono::DateTime::from_timestamp(long_ago, 0).unwrap().naive_utc();
    let kept = chrono_tz::Asia::Manila.offset_from_utc_datetime(&utc).fix().local_minus_utc();
    assert!(kept < -50_400);
    assert!(match_timezone_at("Asia/Manila", long_ago).is_none());
    assert_eq!(secs("Asia/Manila"), Some(28_800));
}

#[test]
fn unknown_names_are_rejected() {
    assert_eq!(secs("Nowhere/Land"), None);
    assert_eq!(secs("asia/tokyo"), None);
    assert_eq!(secs("Asia/Tokyo "), None);
    assert_eq!(secs("Tokyo"), None);
    assert!(match_timezone("Nowhere/Land").is_none());
}

#[test]
fn find_zone_gives_the_place_in_the_table() {
    assert_eq!(ZONE_COUNT, chrono_tz::TZ_VARIANTS.len());
    assert_eq!(find_zone(chrono_tz::TZ_VARIANTS[0].name()), Some(0));
    assert_eq!(find_zone(chrono_tz::TZ_VARIANTS[596].name()), Some(596));
    let tokyo = find_zone("Asia/Tokyo").unwrap();
    assert_eq!(chrono_tz::TZ_VARIANTS[tokyo], chrono_tz::Asia::Tokyo);
    assert_eq!(find_zone("Nowhere/Land"), None);
}

#[test]
fn named_zone_is_read_off_the_clock() {
    let now = chrono::Utc::now();
    let kept = chrono_tz::Asia::Tokyo
        .offset_from_utc_datetime(&now.naive_utc())
        .fix()
        .local_minus_utc();
    assert_eq!(match_timezone("Asia/Tokyo").map(|o| o.local_minus_utc()), Some(kept));
}

#[test]
fn the_range_of_instants_is_chronos() {
    assert!(chrono::DateTime::from_timestamp(TIMESTAMP_MAX, 0).is_some());
    assert!(chrono::DateTime::from_timestamp(TIMESTAMP_MAX + 1, 0).is_none());
    assert!(chrono::DateTime::from_timestamp(TIMESTAMP_MIN, 0).is_some());
    assert!(chrono::DateTime::from_timestamp(TIMESTAMP_MIN - 1, 0).is_none());
    assert_eq!(chrono::DateTime::<chrono::Utc>::MAX_UTC.timestamp(), TIMESTAMP_MAX);
    assert_eq!(chrono::DateTime::<chrono::Utc>::MIN_UTC.timestamp(), TIMESTAMP_MIN);
    assert_eq!(match_timezone_at("Asia/Tokyo", TIMESTAMP_MAX).map(|o| o.local_minus_utc()), Some(32_400));
    assert!(match_timezone_at("Asia/Tokyo", TIMESTAMP_MIN).is_some());
}

#[test]
fn offsets_hold_at_most_fourteen_hours() {
    assert_eq!(Offset::utc().local_minus_utc(), 0);
    assert_eq!(Offset::east_opt(50_400).unwrap().local_minus_utc(), 50_400);
    assert_eq!(Offset::east_opt(-50_400).unwrap().utc_minus_local(), 50_400);
    assert!(Offset::east_opt(50_401).is_none());
    assert!(Offset::east_opt(-50_401).is_none());
    assert!(Offset::east_opt(i32::MAX).is_none());
    assert!(Offset::east_opt(i32::MIN).is_none());
    assert_eq!(Offset::from_secs(19_800).unwrap().local_minus_utc(), 19_800);
    assert!(Offset::from_secs(i64::MAX).is_none());
    assert!(Offset::from_secs(i64::MIN).is_none());
}

#[test]
fn offset_parts_are_read_on_their_own() {
    assert_eq!(Offset::from_alias(&chars_of("JST")).unwrap().local_minus_utc(), 32_400);
    assert!(Offset::from_alias(&chars_of("XST")).is_none());
    assert!(Offset::from_alias(&chars_of("UTCX")).is_none());
    assert_eq!(Offset::from_hours(&chars_of("-8")).unwrap().unwrap().local_minus_utc(), -28_800);
    assert!(Offset::from_hours(&chars_of("15")).unwrap().is_none());
    assert!(Offset::from_hours(&chars_of("x")).is_none());
    assert_eq!(Offset::from_signed_literal(&chars_of("-03:30")).unwrap().local_minus_utc(), -12_600);
    assert!(Offset::from_signed_literal(&chars_of("03:30")).is_none());
    assert!(Offset::from_fixed_form(&chars_of("Asia/Tokyo")).is_none());
    assert!(Offset::from_fixed_form(&chars_of("+nonsense")).unwrap().is_none());
    assert_eq!(Offset::from_fixed_form(&chars_of("EST")).unwrap().unwrap().local_minus_utc(), -18_000);
}

#[test]
fn labels_show_sign_hours_and_minutes() {
    assert_eq!(Offset::east_opt(19_800).unwrap().label(), "+05:30");
    assert_eq!(Offset::east_opt(-28_800).unwrap().label(), "-08:00");
    assert_eq!(Offset::east_opt(0).unwrap().label(), "+00:00");
    assert_eq!(Offset::east_opt(50_400).unwrap().label(), "+14:00");
    assert_eq!(Offset::east_opt(-50_400).unwrap().label(), "-14:00");
    assert_eq!(Offset::east_opt(-1).unwrap().label(), "-00:00");
    assert_eq!(Offset::east_opt(19_830).unwrap().label(), "+05:30");
    assert_eq!(Offset::east_opt(-3_599).unwrap().label(), "-00:59");
}

#[test]
fn a_literal_read_and_labelled_comes_back() {
    for literal in ["+05:30", "-08:00", "+00:00", "+14:00", "-14:00", "-00:01", "+09:59", "-03:30"] {
        let offset = match_timezone(literal).unwrap();
        assert_eq!(offset.label(), literal);
    }
    assert_eq!(match_timezone("-00:00").unwrap().label(), "+00:00");
}

#[test]
fn a_label_read_back_gives_the_offset() {
    let mut secs = -50_400;
    while secs <= 50_400 {
        let offset = Offset::east_opt(secs).unwrap();
        let back = match_timezone(&offset.label()).unwrap();
        assert_eq!(back.local_minus_utc(), secs);
        secs += 60;
    }
}

#[test]
fn the_host_offset_falls_back_to_utc() {
    assert_eq!(host_offset(3_600).local_minus_utc(), 3_600);
    assert_eq!(host_offset(-50_400).local_minus_utc(), -50_400);
    assert_eq!(host_offset(50_401).local_minus_utc(), 0);
    assert_eq!(host_offset(-86_399).local_minus_utc(), 0);
}

#[test]
fn the_override_comes_before_the_host() {
    assert_eq!(get_user_timezone_at(Some("JST"), NOW, 3_600).local_minus_utc(), 32_400);
    assert_eq!(get_user_timezone_at(Some("Asia/Kolkata"), NOW, 3_600).local_minus_utc(), 19_800);
    assert_eq!(get_user_timezone_at(Some("bogus"), NOW, 3_600).local_minus_utc(), 3_600);
    assert_eq!(get_user_timezone_at(Some("+15:00"), NOW, -7_200).local_minus_utc(), -7_200);
    assert_eq!(get_user_timezone_at(None, NOW, 3_600).local_minus_utc(), 3_600);
    assert_eq!(get_user_timezone_at(None, NOW, 60_000).local_minus_utc(), 0);
    assert_eq!(get_user_timezone_at(Some("bogus"), NOW, -60_000).local_minus_utc(), 0);
}

#[test]
fn a_request_resolves_to_what_it_asks_for() {
    let resolution = resolve_at(Some("IST"), Some("JST"), NOW, 3_600);
    assert_eq!(resolution.offset.local_minus_utc(), 19_800);
    assert!(!resolution.rejected);
    let resolution = resolve_at(Some("Europe/Paris"), None, NOW, 0);
    assert_eq!(resolution.offset.local_minus_utc(), 3_600);
    assert!(!resolution.rejected);
}

#[test]
fn no_request_resolves_to_the_default() {
    let resolution = resolve_at(None, Some("PST"), NOW, 3_600);
    assert_eq!(resolution.offset.local_minus_utc(), -28_800);
    assert!(!resolution.rejected);
    let resolution = resolve_at(None, None, NOW, 3_600);
    assert_eq!(resolution.offset.local_minus_utc(), 3_600);
    assert!(!resolution.rejected);
    let resolution = resolve_at(None, None, NOW, 80_000);
    assert_eq!(resolution.offset.local_minus_utc(), 0);
    assert!(!resolution.rejected);
}

#[test]
fn an_invalid_request_falls_back_to_the_default() {
    let resolution = resolve_at(Some("XYZ"), None, NOW, 7_200);
    assert_eq!(resolution.offset.local_minus_utc(), 7_200);
    assert!(resolution.rejected);
    let resolution = resolve_at(Some("+99:00"), Some("JST"), NOW, 7_200);
    assert_eq!(resolution.offset.local_minus_utc(), 32_400);
    assert!(resolution.rejected);
    let resolution = resolve_at(Some("25"), Some("also bad"), NOW, 90_000);
    assert_eq!(resolution.offset.local_minus_utc(), 0);
    assert!(resolution.rejected);
}

#[test]
fn resolving_never_fails() {
    let resolution = resolve(Some("not a timezone"), None);
    assert!(resolution.rejected);
    let secs = resolution.offset.local_minus_utc();
    assert!((-50_400..=50_400).contains(&secs));
    let resolution = resolve(Some("EST"), Some("JST"));
    assert!(!resolution.rejected);
    assert_eq!(resolution.offset.local_minus_utc(), -18_000);
    let resolution = resolve(None, Some("JST"));
    assert!(!resolution.rejected);
    assert_eq!(resolution.offset.local_minus_utc(), 32_400);
    let resolution = resolve(None, None);
    assert!(!resolution.rejected);
    let host = chrono::Local::now().offset().local_minus_utc();
    assert_eq!(resolution.offset.local_minus_utc(), host_offset(host).local_minus_utc());
}

#[test]
fn the_fixed_offset_of_chrono_holds_every_offset() {
    let mut secs = -50_400;
    while secs <= 50_400 {
        let offset = Offset::east_opt(secs).unwrap();
        let fixed = chrono::FixedOffset::east_opt(offset.local_minus_utc()).unwrap();
        assert_eq!(fixed.utc_minus_local(), offset.utc_minus_local());
        secs += 1_800;
    }
}
