use chrono::{TimeZone, Utc};
use video_library::clock::{Clock, DatePattern, StaticClock, SystemClock, Timestamp, LATEST_SECONDS};
use video_library::collections::service::collection_title;
use video_library::infra::file_repositories::CollectionRepositoryFile;

#[test]
fn timestamp_holds_the_years_1970_to_9999() {
    assert_eq!(Timestamp::new(0).unwrap().seconds(), 0);
    assert!(Timestamp::new(-1).is_none());
    assert_eq!(LATEST_SECONDS, Utc.with_ymd_and_hms(9999, 12, 31, 23, 59, 59).unwrap().timestamp());
    assert_eq!(Timestamp::new(LATEST_SECONDS).unwrap(), Timestamp::latest());
    assert!(Timestamp::new(LATEST_SECONDS + 1).is_none());
    assert!(Timestamp::new(i64::MIN).is_none());
    assert!(Timestamp::new(i64::MAX).is_none());
}

#[test]
fn format_writes_the_day_and_the_second() {
    let now = Timestamp::new(Utc.with_ymd_and_hms(2026, 1, 28, 12, 0, 0).unwrap().timestamp()).unwrap();
    assert_eq!(now.format(DatePattern::Day), "2026-01-28");
    assert_eq!(now.format(DatePattern::Second), "2026-01-28_12-00-00");
    assert_eq!(Timestamp::new(0).unwrap().format(DatePattern::Second), "1970-01-01_00-00-00");
    assert_eq!(Timestamp::latest().format(DatePattern::Second), "9999-12-31_23-59-59");
    assert_eq!(Timestamp::new(951_782_400).unwrap().format(DatePattern::Day), "2000-02-29");
}

#[test]
fn static_clock_stands_still() {
    let at = Timestamp::new(1_769_601_600).unwrap();
    let clock = StaticClock::new(at);
    assert_eq!(clock.now(), at);
    assert_eq!(clock.now(), at);
}

#[test]
fn system_clock_reads_the_present() {
    let before = Utc::now().timestamp();
    let read = SystemClock.now().seconds();
    let after = Utc::now().timestamp();
    assert!(before <= read && read <= after);
}

#[test]
fn title_and_file_name_carry_the_date() {
    assert_eq!(collection_title("2026-01-28"), "Collection - 2026-01-28");
    assert_eq!(collection_title(""), "Collection - ");
    let now = Timestamp::new(Utc.with_ymd_and_hms(2026, 1, 28, 12, 0, 0).unwrap().timestamp()).unwrap();
    assert_eq!(CollectionRepositoryFile::new_file_name(now), "collection-2026-01-28_12-00-00.json");
}

#[test]
fn nearest_reading_stays_within_the_calendar() {
    assert_eq!(Timestamp::nearest(0).seconds(), 0);
    assert_eq!(Timestamp::nearest(1_769_601_600).seconds(), 1_769_601_600);
    assert_eq!(Timestamp::nearest(LATEST_SECONDS).seconds(), LATEST_SECONDS);
    assert_eq!(Timestamp::nearest(LATEST_SECONDS + 1), Timestamp::latest());
    assert_eq!(Timestamp::nearest(i64::MAX), Timestamp::latest());
    assert_eq!(Timestamp::nearest(-1).seconds(), 0);
    assert_eq!(Timestamp::nearest(i64::MIN).seconds(), 0);
}
