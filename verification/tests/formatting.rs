use countmedown::format::{format_time, format_time_spaced};
use countmedown::relative::get_seconds_from_mixed_format;

#[test]
fn below_an_hour_is_minutes_and_seconds() {
    assert_eq!(format_time(125), "02:05");
    assert_eq!(format_time(59), "00:59");
    assert_eq!(format_time(0), "00:00");
    assert_eq!(format_time(60), "01:00");
    assert_eq!(format_time(600), "10:00");
}

#[test]
fn the_form_changes_at_exactly_sixty_minutes() {
    assert_eq!(format_time(3599), "59:59");
    assert_eq!(format_time(3600), "01:00:00");
    assert_eq!(format_time(3601), "01:00:01");
}

#[test]
fn from_an_hour_on_is_hours_minutes_and_seconds() {
    assert_eq!(format_time(3723), "01:02:03");
    assert_eq!(format_time(86_399), "23:59:59");
    assert_eq!(format_time(86_400), "24:00:00");
    assert_eq!(format_time(359_999), "99:59:59");
    assert_eq!(format_time(360_000), "100:00:00");
    assert_eq!(format_time(4_294_967_295), "1193046:28:15");
}

#[test]
fn negative_seconds_carry_a_sign_on_every_part_that_is_not_zero() {
    assert_eq!(format_time(-1), "00:-1");
    assert_eq!(format_time(-5), "00:-5");
    assert_eq!(format_time(-59), "00:-59");
    assert_eq!(format_time(-60), "-1:00");
    assert_eq!(format_time(-61), "-1:-1");
    assert_eq!(format_time(-600), "-10:00");
    assert_eq!(format_time(-3599), "-59:-59");
}

#[test]
fn negative_seconds_beyond_an_hour_show_hours() {
    assert_eq!(format_time(-3600), "-1:00:00");
    assert_eq!(format_time(-3700), "-1:-1:-40");
    assert_eq!(format_time(-86_400), "-24:00:00");
}

#[test]
fn the_spaced_form_has_a_space_for_each_colon() {
    assert_eq!(format_time_spaced(125), "02 05");
    assert_eq!(format_time_spaced(3723), "01 02 03");
    assert_eq!(format_time_spaced(-3700), "-1 -1 -40");
    let samples: [i64; 8] = [0, 59, 3599, 3600, 360_000, -1, -61, i64::MIN];
    for secs in samples {
        assert_eq!(format_time_spaced(secs), format_time(secs).replace(':', " "));
    }
}

#[test]
fn the_extremes_of_64_bits_are_formatted() {
    assert_eq!(format_time(i64::MAX), "2562047788015215:30:07");
    assert_eq!(format_time(i64::MIN), "-2562047788015215:-30:-8");
}

#[test]
fn formatting_agrees_with_the_machine_format_of_each_part() {
    let samples: [i64; 12] = [0, 7, 75, 599, 3599, 3600, 86_399, 1_000_000, -1, -75, -3599, -4000];
    for secs in samples {
        let minutes: i64 = secs / 60;
        let expected = if minutes > 59 || minutes < -59 {
            format!("{:02}:{:02}:{:02}", secs / 3600, minutes % 60, secs % 60)
        } else {
            format!("{:02}:{:02}", minutes, secs % 60)
        };
        assert_eq!(format_time(secs), expected);
    }
}

#[test]
fn a_formatted_duration_reads_back_as_itself() {
    let samples: [u32; 9] = [0, 1, 59, 60, 3599, 3600, 3723, 86_400, u32::MAX];
    for secs in samples {
        let text = format_time(secs as i64);
        assert_eq!(get_seconds_from_mixed_format(&text), Ok(secs));
    }
}
