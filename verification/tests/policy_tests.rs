use diesel_async_logger::record::{log_query, observe_completion};
use diesel_async_logger::render::{format_millis_tenths, format_secs_hundredths, u64_to_string};
use diesel_async_logger::timing::{classify, DurationSample, LogLevel};

#[test]
fn classify_tiers() {
    assert_eq!(classify(&DurationSample::new(0, 0)), LogLevel::Debug);
    assert_eq!(classify(&DurationSample::new(0, 999_999_999)), LogLevel::Debug);
    assert_eq!(classify(&DurationSample::new(1, 0)), LogLevel::Info);
    assert_eq!(classify(&DurationSample::new(4, 999_999_999)), LogLevel::Info);
    assert_eq!(classify(&DurationSample::new(5, 0)), LogLevel::Warn);
    assert_eq!(classify(&DurationSample::new(100, 500)), LogLevel::Warn);
}

#[test]
fn boundary_durations_take_the_higher_tier() {
    // Exactly 1.000 s is info, never debug; exactly 5.000 s is warn, never info.
    assert_eq!(classify(&DurationSample::new(1, 0)), LogLevel::Info);
    assert_eq!(classify(&DurationSample::new(5, 0)), LogLevel::Warn);
}

#[test]
fn debug_record_for_quarter_second() {
    let d = DurationSample::new(0, 250_000_000);
    let r = log_query("SELECT 1", &d);
    assert_eq!(r.level, LogLevel::Debug);
    assert_eq!(r.message, "QUERY: [250.0ms]: SELECT 1");
}

#[test]
fn info_record_for_one_and_a_half_seconds() {
    let d = DurationSample::new(1, 500_000_000);
    let r = log_query("SELECT * FROM users", &d);
    assert_eq!(r.level, LogLevel::Info);
    assert_eq!(r.message, "SLOW QUERY [1.50 s]: SELECT * FROM users");
}

#[test]
fn warn_record_for_five_seconds() {
    let d = DurationSample::new(5, 0);
    let r = log_query("q", &d);
    assert_eq!(r.level, LogLevel::Warn);
    assert_eq!(r.message, "SLOW QUERY [5.00 s]: q");
}

#[test]
fn sub_millisecond_query_gets_one_debug_record() {
    // A query that completes in half a millisecond: one debug record whose
    // millisecond value is at least 0.0 and below 1.0.
    let d = DurationSample::new(0, 500_000);
    let r = log_query("SELECT name FROM users", &d);
    assert_eq!(r.level, LogLevel::Debug);
    assert_eq!(r.message, "QUERY: [0.5ms]: SELECT name FROM users");
}

#[test]
fn millis_rounding() {
    assert_eq!(format_millis_tenths(0), "0.0");
    assert_eq!(format_millis_tenths(49_999), "0.0");
    assert_eq!(format_millis_tenths(50_000), "0.1");
    assert_eq!(format_millis_tenths(123_450_000), "123.5");
    // Just under a second rounds up to a full thousand milliseconds.
    assert_eq!(format_millis_tenths(999_999_999), "1000.0");
}

#[test]
fn seconds_rounding() {
    assert_eq!(format_secs_hundredths(&DurationSample::new(1, 0)), "1.00");
    assert_eq!(format_secs_hundredths(&DurationSample::new(2, 345_000_000)), "2.35");
    // A remainder that rounds up to a full second carries into the whole part.
    assert_eq!(format_secs_hundredths(&DurationSample::new(1, 999_999_999)), "2.00");
    assert_eq!(format_secs_hundredths(&DurationSample::new(7, 4_999_999)), "7.00");
    assert_eq!(format_secs_hundredths(&DurationSample::new(7, 5_000_000)), "7.01");
}

#[test]
fn decimal_digit_strings() {
    assert_eq!(u64_to_string(0), "0");
    assert_eq!(u64_to_string(7), "7");
    assert_eq!(u64_to_string(10), "10");
    assert_eq!(u64_to_string(250), "250");
    assert_eq!(u64_to_string(1_234_567_890), "1234567890");
    assert_eq!(u64_to_string(u64::MAX), "18446744073709551615");
}

#[test]
fn completion_returns_success_unchanged() {
    let d = DurationSample::new(0, 1_000_000);
    let (record, outcome) = observe_completion("INSERT", &d, Ok::<usize, String>(3));
    assert_eq!(record.level, LogLevel::Debug);
    assert_eq!(record.message, "QUERY: [1.0ms]: INSERT");
    assert_eq!(outcome, Ok(3));
}

#[test]
fn completion_returns_error_unchanged() {
    // A failed call is timed and logged like a successful one, and the exact
    // error value comes back to the caller.
    let d = DurationSample::new(6, 0);
    let (record, outcome) =
        observe_completion("UPDATE t", &d, Err::<usize, String>("constraint violation".to_string()));
    assert_eq!(record.level, LogLevel::Warn);
    assert_eq!(record.message, "SLOW QUERY [6.00 s]: UPDATE t");
    assert_eq!(outcome, Err("constraint violation".to_string()));
}
