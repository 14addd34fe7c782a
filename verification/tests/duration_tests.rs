use rewrk::duration::{format_duration, parse_duration, DurationError};

#[test]
fn parses_hours_and_minutes() {
    assert_eq!(parse_duration(b"2h 30m"), Ok(9000));
}

#[test]
fn parses_all_units() {
    let total = 11 * 86400 + 3 * 3600 + 32 * 60 + 4;
    assert_eq!(parse_duration(b"11d 3h 32m 4s"), Ok(total));
}

#[test]
fn parses_units_in_any_order() {
    assert_eq!(parse_duration(b"4s 32m 3h 11d"), parse_duration(b"11d 3h 32m 4s"));
}

#[test]
fn parses_without_separators() {
    assert_eq!(parse_duration(b"1d2h3m4s"), Ok(86400 + 2 * 3600 + 3 * 60 + 4));
}

#[test]
fn skips_bytes_outside_segments() {
    assert_eq!(parse_duration(b"xx10s__5m"), Ok(10 + 300));
}

#[test]
fn repeated_units_accumulate() {
    assert_eq!(parse_duration(b"5s5s"), Ok(10));
}

#[test]
fn digits_without_unit_do_not_count() {
    assert_eq!(parse_duration(b"100 5s"), Ok(5));
}

#[test]
fn zero_total_is_an_error() {
    assert_eq!(parse_duration(b"0s"), Err(DurationError::Zero));
    assert_eq!(parse_duration(b""), Err(DurationError::Zero));
    assert_eq!(parse_duration(b"banana"), Err(DurationError::Zero));
    assert_eq!(parse_duration(b"10x"), Err(DurationError::Zero));
}

#[test]
fn overflowing_total_is_an_error() {
    assert_eq!(
        parse_duration(b"99999999999999999999999999d"),
        Err(DurationError::Overflow)
    );
    assert_eq!(parse_duration(b"18446744073709551615s 1s"), Err(DurationError::Overflow));
}

#[test]
fn largest_total_is_accepted() {
    assert_eq!(parse_duration(b"18446744073709551615s"), Ok(u64::MAX));
}

#[test]
fn format_then_parse_round_trips() {
    for t in [1u64, 59, 60, 9000, 86400, 90061, 123456789] {
        let rendered = format_duration(t);
        assert_eq!(parse_duration(&rendered), Ok(t));
    }
}

#[test]
fn format_is_canonical() {
    assert_eq!(format_duration(9000), b"0d2h30m0s".to_vec());
    assert_eq!(format_duration(90061), b"1d1h1m1s".to_vec());
}
