use audio_player::display::format_time;

#[test]
fn format_time_pads_minutes_and_seconds() {
    assert_eq!(format_time(0), "00:00");
    assert_eq!(format_time(5_000_000_000), "00:05");
    assert_eq!(format_time(125_000_000_000), "02:05");
    assert_eq!(format_time(600_000_000_000), "10:00");
    assert_eq!(format_time(3_599_000_000_000), "59:59");
}

#[test]
fn format_time_drops_parts_of_a_second() {
    assert_eq!(format_time(999_999_999), "00:00");
    assert_eq!(format_time(59_999_999_999), "00:59");
    assert_eq!(format_time(60_000_000_000), "01:00");
}

#[test]
fn format_time_lets_minutes_grow_past_two_digits() {
    assert_eq!(format_time(6_000_000_000_000), "100:00");
    assert_eq!(format_time(7_384_000_000_000), "123:04");
    assert_eq!(format_time(u128::from(u64::MAX)), "307445734:33");
    assert_eq!(format_time(18_446_744_073_709_551_615_999_999_999), "307445734561825860:15");
}
