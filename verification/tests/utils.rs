use bilibili_music::utils::{format_time, push_decimal};

#[test]
fn format_time_pads_seconds_to_two_digits() {
    assert_eq!(format_time(0), "0:00");
    assert_eq!(format_time(5), "0:05");
    assert_eq!(format_time(59), "0:59");
    assert_eq!(format_time(60), "1:00");
    assert_eq!(format_time(125), "2:05");
    assert_eq!(format_time(3599), "59:59");
}

#[test]
fn format_time_does_not_wrap_minutes_into_hours() {
    assert_eq!(format_time(3600), "60:00");
    assert_eq!(format_time(36061), "601:01");
    assert_eq!(format_time(u64::MAX), "307445734561825860:15");
}

#[test]
fn push_decimal_appends_all_digits() {
    let mut out = String::from("n=");
    push_decimal(&mut out, 0);
    assert_eq!(out, "n=0");
    push_decimal(&mut out, 1234567890);
    assert_eq!(out, "n=01234567890");
    let mut max = String::new();
    push_decimal(&mut max, u64::MAX);
    assert_eq!(max, "18446744073709551615");
}
