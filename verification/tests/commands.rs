use animesh::commands::{CountdownCommand, ScheduleCommand};
use animesh::utils::get_user_timezone;
use animesh::window::get_day_timestamps;
use chrono::{Datelike, Duration, TimeZone, Utc};

#[test]
fn test_format_countdown() {
    assert_eq!(
        CountdownCommand::format_countdown(
            (Duration::days(2) + Duration::hours(3) + Duration::minutes(45) + Duration::seconds(30))
                .num_seconds()
        ),
        "2d 3h 45m 30s"
    );
    assert_eq!(
        CountdownCommand::format_countdown(
            (Duration::hours(5) + Duration::minutes(30) + Duration::seconds(15)).num_seconds()
        ),
        "5h 30m 15s"
    );
    assert_eq!(
        CountdownCommand::format_countdown((Duration::minutes(45) + Duration::seconds(30)).num_seconds()),
        "45m 30s"
    );
    assert_eq!(CountdownCommand::format_countdown(Duration::seconds(30).num_seconds()), "30s");
}

#[test]
fn test_get_timezone() {
    let command = ScheduleCommand::new(2, None, false);
    let tz = command.get_timezone(None);
    assert!(tz.utc_minus_local() >= -14 * 3600 && tz.utc_minus_local() <= 14 * 3600);

    let command = ScheduleCommand::new(2, Some("UTC".to_string()), false);
    let tz = command.get_timezone(None);
    assert_eq!(tz.utc_minus_local(), 0);

    let command = ScheduleCommand::new(2, Some("IST".to_string()), false);
    let tz = command.get_timezone(None);
    assert_eq!(tz.utc_minus_local(), -(5 * 3600 + 30 * 60));
}

#[test]
fn test_get_time_range() {
    let command = ScheduleCommand::new(2, None, false);
    let (start, end) = command.get_time_range();
    assert!(end - start == 2 * 24 * 3600);
}

#[test]
fn test_format_relative_time() {
    let command = ScheduleCommand::new(2, None, false);
    let now = Utc::now().timestamp();

    // Test past times
    let one_hour_ago = command.format_relative_time(now - 3600);
    println!("One hour ago: {}", one_hour_ago);
    assert!(one_hour_ago.contains("1h ago"));

    let one_day_ago = command.format_relative_time(now - 86400);
    println!("One day ago: {}", one_day_ago);
    assert!(one_day_ago.contains("1d ago"));

    // Test future times
    let one_hour_later = command.format_relative_time(now + 3600);
    println!("One hour later: {}", one_hour_later);
    assert!(one_hour_later.contains("in 1h"));

    let one_day_later = command.format_relative_time(now + 86400);
    println!("One day later: {}", one_day_later);
    assert!(one_day_later.contains("in 1d"));
}

#[test]
fn test_get_user_timezone() {
    let tz = get_user_timezone(None);
    println!("User timezone offset: {} seconds", tz.utc_minus_local());
    assert!(tz.utc_minus_local() >= -14 * 3600 && tz.utc_minus_local() <= 14 * 3600);
}

#[test]
fn test_get_day_timestamps() {
    let (start, end) = get_day_timestamps(0);
    assert!(start < end);
    assert_eq!(
        Utc.timestamp_opt(start, 0)
            .unwrap()
            .weekday()
            .num_days_from_monday(),
        0
    );
}
