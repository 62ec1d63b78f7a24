use rp2040_badger_w::time_util::{
    local_time, rtc_to_jiff, unix_to_primitive_datetime, DateTime, PrimitiveDateTime, Timestamp,
    MAX_SECOND, MIN_SECOND, TIMEZONE,
};

fn at(second: i64) -> Timestamp {
    Timestamp::from_second(second).unwrap()
}

fn parts(dt: PrimitiveDateTime) -> (i32, u8, u8, u8, u8, u8) {
    (dt.year(), dt.month(), dt.day(), dt.hour(), dt.minute(), dt.second())
}

fn utc(second: i64) -> (i32, u8, u8, u8, u8, u8) {
    parts(unix_to_primitive_datetime(at(second)).unwrap())
}

#[test]
fn utc_of_known_instants() {
    assert_eq!(utc(0), (1970, 1, 1, 0, 0, 0));
    assert_eq!(utc(-1), (1969, 12, 31, 23, 59, 59));
    assert_eq!(utc(951_782_400), (2000, 2, 29, 0, 0, 0));
    assert_eq!(utc(1_704_067_200), (2024, 1, 1, 0, 0, 0));
    assert_eq!(utc(4_294_967_295), (2106, 2, 7, 6, 28, 15));
}

#[test]
fn utc_at_the_ends_of_the_range() {
    assert_eq!(utc(MIN_SECOND), (-9999, 1, 2, 1, 59, 59));
    assert_eq!(utc(MAX_SECOND), (9999, 12, 30, 22, 0, 0));
}

#[test]
fn seconds_out_of_range_are_refused() {
    assert!(Timestamp::from_second(MIN_SECOND - 1).is_none());
    assert!(Timestamp::from_second(MAX_SECOND + 1).is_none());
    assert!(Timestamp::from_second(i64::MAX).is_none());
}

#[test]
fn microseconds_at_the_ends_of_the_range() {
    let first = Timestamp::from_microsecond(MIN_SECOND * 1_000_000).unwrap();
    assert_eq!((first.as_second(), first.subsec_nanosecond()), (MIN_SECOND, 0));
    let last = Timestamp::from_microsecond(MAX_SECOND * 1_000_000).unwrap();
    assert_eq!((last.as_second(), last.subsec_nanosecond()), (MAX_SECOND, 0));
    assert!(Timestamp::from_microsecond(MIN_SECOND * 1_000_000 - 1).is_none());
    assert!(Timestamp::from_microsecond(MAX_SECOND * 1_000_000 + 1).is_none());
}

#[test]
fn microseconds_keep_the_fraction() {
    let ts = Timestamp::from_microsecond(1_500_000).unwrap();
    assert_eq!((ts.as_second(), ts.subsec_nanosecond()), (1, 500_000_000));
    let ts = Timestamp::from_microsecond(-1_500_000).unwrap();
    assert_eq!((ts.as_second(), ts.subsec_nanosecond()), (-1, -500_000_000));
}

#[test]
fn fractions_before_the_epoch_round_down_to_the_second() {
    let ts = Timestamp::from_microsecond(-1).unwrap();
    let dt = unix_to_primitive_datetime(ts).unwrap();
    assert_eq!(parts(dt), (1969, 12, 31, 23, 59, 59));
    assert_eq!(rtc_to_jiff(dt), Some(at(-1)));
}

#[test]
fn setting_the_clock_and_reading_it_back() {
    for second in [MIN_SECOND, -86_401, -1, 0, 59, 951_868_799, 1_711_846_800, MAX_SECOND] {
        let dt = unix_to_primitive_datetime(at(second)).unwrap();
        assert_eq!(rtc_to_jiff(dt), Some(at(second)));
    }
    let ts = Timestamp::from_microsecond(1_704_067_200_999_999).unwrap();
    let dt = unix_to_primitive_datetime(ts).unwrap();
    assert_eq!(rtc_to_jiff(dt), Some(at(1_704_067_200)));
}

#[test]
fn reading_the_clock_and_setting_it() {
    let dt = PrimitiveDateTime::from_parts(2099, 12, 31, 23, 59, 59).unwrap();
    let ts = rtc_to_jiff(dt).unwrap();
    assert_eq!(ts.as_second(), 4_102_444_799);
    assert_eq!(unix_to_primitive_datetime(ts), Some(dt));
}

#[test]
fn datetimes_beyond_the_instants_have_none() {
    let late = PrimitiveDateTime::from_parts(9999, 12, 31, 0, 0, 0).unwrap();
    assert!(rtc_to_jiff(late).is_none());
    let early = PrimitiveDateTime::from_parts(-9999, 1, 1, 0, 0, 0).unwrap();
    assert!(rtc_to_jiff(early).is_none());
}

#[test]
fn datetimes_that_do_not_exist_are_refused() {
    assert!(PrimitiveDateTime::from_parts(2024, 2, 29, 0, 0, 0).is_some());
    assert!(PrimitiveDateTime::from_parts(2023, 2, 29, 0, 0, 0).is_none());
    assert!(PrimitiveDateTime::from_parts(1900, 2, 29, 0, 0, 0).is_none());
    assert!(PrimitiveDateTime::from_parts(2024, 0, 1, 0, 0, 0).is_none());
    assert!(PrimitiveDateTime::from_parts(2024, 13, 1, 0, 0, 0).is_none());
    assert!(PrimitiveDateTime::from_parts(2024, 4, 31, 0, 0, 0).is_none());
    assert!(PrimitiveDateTime::from_parts(2024, 4, 0, 0, 0, 0).is_none());
    assert!(PrimitiveDateTime::from_parts(10_000, 1, 1, 0, 0, 0).is_none());
    assert!(PrimitiveDateTime::from_parts(-10_000, 1, 1, 0, 0, 0).is_none());
    assert!(PrimitiveDateTime::from_parts(2024, 1, 1, 24, 0, 0).is_none());
    assert!(PrimitiveDateTime::from_parts(2024, 1, 1, 0, 60, 0).is_none());
    assert!(PrimitiveDateTime::from_parts(2024, 1, 1, 0, 0, 60).is_none());
}

#[test]
fn local_time_follows_the_zone() {
    assert_eq!(TIMEZONE, "Europe/Stockholm");
    let winter = DateTime { year: 2024, month: 1, day: 1, hour: 1, minute: 0, second: 0 };
    assert_eq!(local_time(at(1_704_067_200)), winter);
    let summer = DateTime { year: 2024, month: 7, day: 1, hour: 2, minute: 0, second: 0 };
    assert_eq!(local_time(at(1_719_792_000)), summer);
}

#[test]
fn local_time_skips_an_hour_in_spring() {
    let before = DateTime { year: 2024, month: 3, day: 31, hour: 1, minute: 59, second: 59 };
    let after = DateTime { year: 2024, month: 3, day: 31, hour: 3, minute: 0, second: 0 };
    assert_eq!(local_time(at(1_711_846_799)), before);
    assert_eq!(local_time(at(1_711_846_800)), after);
}

#[test]
fn local_time_exists_at_the_ends_of_the_range() {
    assert_eq!(local_time(at(MIN_SECOND)).year, -9999);
    assert_eq!(local_time(at(MAX_SECOND)).year, 9999);
}
