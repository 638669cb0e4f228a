use neilplot::bounds::RangeUnit;
use neilplot::text::{days, format_decimal, nanos};
use neilplot::ticks::Tick;

fn units(v: f64) -> i64 {
    (v * 1e6).round() as i64
}

#[test]
fn decimals_with_places() {
    assert_eq!(format_decimal(units(10.0), 1), "10.0");
    assert_eq!(format_decimal(units(0.25), 2), "0.25");
    assert_eq!(format_decimal(units(1234.5), 0), "1234");
    assert_eq!(format_decimal(units(1235.5), 0), "1236");
    assert_eq!(format_decimal(0, 0), "0");
    assert_eq!(format_decimal(0, 3), "0.000");
    assert_eq!(format_decimal(units(0.05), 2), "0.05");
    assert_eq!(format_decimal(1, 6), "0.000001");
    assert_eq!(format_decimal(units(3.5), 7), "3.5000000");
    assert_eq!(format_decimal(units(3.5), 12), "3.500000000000");
}

#[test]
fn decimals_round_to_the_nearest() {
    assert_eq!(format_decimal(units(0.994), 2), "0.99");
    assert_eq!(format_decimal(units(0.996), 2), "1.00");
    assert_eq!(format_decimal(units(9.96), 1), "10.0");
    assert_eq!(format_decimal(units(0.4), 0), "0");
    assert_eq!(format_decimal(units(0.6), 0), "1");
}

#[test]
fn ties_round_to_the_even_neighbour() {
    assert_eq!(format_decimal(units(0.125), 2), "0.12");
    assert_eq!(format_decimal(units(0.375), 2), "0.38");
    assert_eq!(format_decimal(units(0.5), 0), "0");
    assert_eq!(format_decimal(units(1.5), 0), "2");
    assert_eq!(format_decimal(units(2.5), 0), "2");
    assert_eq!(format_decimal(units(1.005), 2), "1.00");
    assert_eq!(format_decimal(units(1.015), 2), "1.02");
}

#[test]
fn negative_decimals_keep_their_sign() {
    assert_eq!(format_decimal(units(-2.5), 1), "-2.5");
    assert_eq!(format_decimal(units(-0.004), 2), "-0.00");
    assert_eq!(format_decimal(units(-0.125), 2), "-0.12");
    assert_eq!(format_decimal(i64::MIN, 6), "-9223372036854.775808");
    assert_eq!(format_decimal(i64::MAX, 6), "9223372036854.775807");
    assert_eq!(format_decimal(i64::MAX, 12), "9223372036854.775807000000");
}

#[test]
fn whole_nanoseconds_and_days() {
    assert_eq!(nanos(units(1.9)), 1);
    assert_eq!(nanos(units(-1.9)), 0);
    assert_eq!(nanos(0), 0);
    assert_eq!(nanos(i64::MAX), 9_223_372_036_854);
    assert_eq!(days(units(1.9)), 1);
    assert_eq!(days(units(-1.9)), -1);
    assert_eq!(days(i64::MIN), -9_223_372_036_854);
}

#[test]
fn nice_ticks_of_plain_numbers_drop_three_places() {
    let tick = |value: f64, precision: u32| Tick::Auto {
        value: units(value),
        precision,
        unit: RangeUnit::Absolute,
    };
    assert_eq!(tick(10.0, 4).to_string(), "10.0");
    assert_eq!(tick(0.25, 5).to_string(), "0.25");
    assert_eq!(tick(500000.0, 0).to_string(), "500000");
    assert_eq!(tick(2.5, 3).to_string(), "2");
    assert_eq!(tick(3.5, 2).to_string(), "4");
    assert_eq!(tick(0.000001, 10).to_string(), "0.0000010");
}

#[test]
fn nice_ticks_of_durations() {
    let tick = |value: f64| Tick::Auto { value: units(value), precision: 4, unit: RangeUnit::Duration };
    assert_eq!(tick(1_500_000_000.0).to_string(), "1.5s");
    assert_eq!(tick(2_000_000.0).to_string(), "2ms");
    assert_eq!(tick(0.0).to_string(), "0ns");
    assert_eq!(tick(-5.0).to_string(), "0ns");
}

#[test]
fn nice_ticks_of_dates() {
    let tick = |value: f64| Tick::Auto { value: units(value), precision: 4, unit: RangeUnit::Date };
    assert_eq!(tick(0.0).to_string(), "1970-01-01");
    assert_eq!(tick(1.9).to_string(), "1970-01-02");
    assert_eq!(tick(-1.0).to_string(), "1969-12-31");
    assert_eq!(tick(19000.0).to_string(), "2022-01-08");
}

#[test]
fn fixed_ticks_have_two_places() {
    assert_eq!(Tick::Fixed { value: units(0.25) }.to_string(), "0.25");
    assert_eq!(Tick::Fixed { value: units(5.05) }.to_string(), "5.05");
    assert_eq!(Tick::Fixed { value: units(-1.0) }.to_string(), "-1.00");
    assert_eq!(Tick::Fixed { value: 333_333 }.to_string(), "0.33");
}

#[test]
fn labels_are_their_own_text() {
    assert_eq!(Tick::Label { label: "Übung".to_string(), index: 3 }.to_string(), "Übung");
}

#[test]
fn printable_ticks() {
    let number = |precision: u32| Tick::Auto { value: 0, precision, unit: RangeUnit::Absolute };
    assert!(number(15).is_printable());
    assert!(!number(16).is_printable());
    let date = |value: i64| Tick::Auto { value, precision: 0, unit: RangeUnit::Date };
    assert!(date(units(90_000_000.0)).is_printable());
    assert!(date(units(-90_000_000.9)).is_printable());
    assert!(!date(units(90_000_001.0)).is_printable());
    assert!(Tick::Auto { value: i64::MAX, precision: 99, unit: RangeUnit::Duration }.is_printable());
    assert!(Tick::Fixed { value: i64::MIN }.is_printable());
    assert!(Tick::Label { label: String::new(), index: 0 }.is_printable());
    assert_eq!(date(units(90_000_000.0)).to_string(), "+248381-08-19");
    assert!(date(units(-90_000_000.0)).to_string().starts_with("-244"));
}
