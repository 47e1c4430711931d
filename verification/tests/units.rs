use timetag_parquet::{pico_fiber_centimeters, pico_minutes, pico_seconds, NormalizedTimeTag};

#[test]
fn pico_seconds_of_one_second() {
    assert_eq!(pico_seconds(1), 1_000_000_000_000);
}

#[test]
fn pico_seconds_of_zero() {
    assert_eq!(pico_seconds(0), 0);
}

#[test]
fn pico_seconds_at_the_largest_input() {
    assert_eq!(pico_seconds(18_446_744), 18_446_744_000_000_000_000);
}

#[test]
fn pico_minutes_of_seven_minutes() {
    assert_eq!(pico_minutes(7), 420_000_000_000_000);
}

#[test]
fn pico_minutes_of_one_minute_is_sixty_seconds() {
    assert_eq!(pico_minutes(1), pico_seconds(60));
}

#[test]
fn pico_fiber_centimeters_of_ten_centimeters() {
    assert_eq!(pico_fiber_centimeters(10), 500);
}

#[test]
fn pico_fiber_centimeters_of_zero() {
    assert_eq!(pico_fiber_centimeters(0), 0);
}

#[test]
fn time_tag_keeps_its_fields() {
    let tag = NormalizedTimeTag { channel_id: 3, time_tag_ps: 181 };
    let copy = tag;
    assert_eq!(copy.channel_id, 3);
    assert_eq!(copy.time_tag_ps, 181);
    assert_eq!(tag, copy);
    assert_ne!(tag, NormalizedTimeTag { channel_id: 3, time_tag_ps: 182 });
}
