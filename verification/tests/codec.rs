use exifsync::codec::{format_timestamp, parse_timestamp};
use exifsync::timestamp::Timestamp;

fn ts(year: u16, month: u8, day: u8, hour: u8, minute: u8, second: u8, nanos: u32) -> Timestamp {
    Timestamp { year, month, day, hour, minute, second, nanos }
}

#[test]
fn parse_valid_basic() {
    assert_eq!(parse_timestamp(b"2020:01:01 10:00:00"), Some(ts(2020, 1, 1, 10, 0, 0, 0)));
    assert_eq!(parse_timestamp(b"2019:03:10 08:30:00"), Some(ts(2019, 3, 10, 8, 30, 0, 0)));
    assert_eq!(parse_timestamp(b"0000:01:01 00:00:00"), Some(ts(0, 1, 1, 0, 0, 0, 0)));
    assert_eq!(parse_timestamp(b"9999:12:31 23:59:59"), Some(ts(9999, 12, 31, 23, 59, 59, 0)));
}

#[test]
fn parse_leap_years() {
    assert_eq!(parse_timestamp(b"2020:02:29 12:00:00"), Some(ts(2020, 2, 29, 12, 0, 0, 0)));
    assert_eq!(parse_timestamp(b"2000:02:29 12:00:00"), Some(ts(2000, 2, 29, 12, 0, 0, 0)));
    assert_eq!(parse_timestamp(b"2019:02:29 12:00:00"), None);
    assert_eq!(parse_timestamp(b"1900:02:29 12:00:00"), None);
    assert_eq!(parse_timestamp(b"2021:02:28 12:00:00"), Some(ts(2021, 2, 28, 12, 0, 0, 0)));
}

#[test]
fn parse_month_lengths() {
    assert_eq!(parse_timestamp(b"2021:04:30 00:00:00"), Some(ts(2021, 4, 30, 0, 0, 0, 0)));
    assert_eq!(parse_timestamp(b"2021:04:31 00:00:00"), None);
    assert_eq!(parse_timestamp(b"2021:12:31 00:00:00"), Some(ts(2021, 12, 31, 0, 0, 0, 0)));
}

#[test]
fn parse_malformed_text() {
    assert_eq!(parse_timestamp(b"not-a-date"), None);
    assert_eq!(parse_timestamp(b""), None);
    assert_eq!(parse_timestamp(b"2020-01-01 10:00:00"), None);
    assert_eq!(parse_timestamp(b"2020:01:01T10:00:00"), None);
    assert_eq!(parse_timestamp(b"2020:01:01 10:00"), None);
    assert_eq!(parse_timestamp(b"2020:01:01 10:00:00 "), None);
    assert_eq!(parse_timestamp(b"2020:1:01 10:00:00"), None);
    assert_eq!(parse_timestamp(b"20a0:01:01 10:00:00"), None);
}

#[test]
fn parse_out_of_range_components() {
    assert_eq!(parse_timestamp(b"2020:00:01 10:00:00"), None);
    assert_eq!(parse_timestamp(b"2020:13:01 10:00:00"), None);
    assert_eq!(parse_timestamp(b"2020:01:00 10:00:00"), None);
    assert_eq!(parse_timestamp(b"2020:01:32 10:00:00"), None);
    assert_eq!(parse_timestamp(b"2020:01:01 24:00:00"), None);
    assert_eq!(parse_timestamp(b"2020:01:01 10:60:00"), None);
    assert_eq!(parse_timestamp(b"2020:01:01 10:00:60"), None);
}

#[test]
fn format_exact() {
    assert_eq!(format_timestamp(&ts(2019, 3, 10, 8, 30, 0, 0)), b"2019:03:10 08:30:00".to_vec());
    assert_eq!(format_timestamp(&ts(2020, 1, 1, 10, 0, 0, 0)), b"2020:01:01 10:00:00".to_vec());
    assert_eq!(format_timestamp(&ts(9999, 12, 31, 23, 59, 59, 0)), b"9999:12:31 23:59:59".to_vec());
    assert_eq!(format_timestamp(&ts(7, 2, 3, 4, 5, 6, 0)), b"0007:02:03 04:05:06".to_vec());
}

#[test]
fn format_drops_subseconds() {
    assert_eq!(
        format_timestamp(&ts(2020, 6, 15, 12, 30, 45, 999_999_999)),
        b"2020:06:15 12:30:45".to_vec()
    );
}

#[test]
fn round_trip_whole_seconds() {
    let t = ts(2018, 1, 1, 0, 0, 0, 0);
    assert_eq!(parse_timestamp(&format_timestamp(&t)), Some(t));
    let u = ts(2024, 2, 29, 23, 59, 59, 0);
    assert_eq!(parse_timestamp(&format_timestamp(&u)), Some(u));
}

#[test]
fn round_trip_truncates_subseconds() {
    let t = ts(2018, 1, 1, 0, 0, 0, 500);
    assert_eq!(parse_timestamp(&format_timestamp(&t)), Some(ts(2018, 1, 1, 0, 0, 0, 0)));
}
