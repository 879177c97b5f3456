use chrono::{DateTime, Duration, NaiveDate, Timelike, Utc};
use countmedown::clock::{get_seconds_until_time, ClockTime};
use countmedown::format::format_time;
use countmedown::plan::CountdownPlan;
use countmedown::scheduler::Countdown;

fn chrono_format(secs: i64) -> String {
    let duration = Duration::seconds(secs);
    if duration.num_minutes() > 59 || duration.num_minutes() < -59 {
        format!(
            "{:02}:{:02}:{:02}",
            duration.num_hours(),
            duration.num_minutes() % 60,
            duration.num_seconds() % 60
        )
    } else {
        format!("{:02}:{:02}", duration.num_minutes(), duration.num_seconds() % 60)
    }
}

#[test]
fn the_parts_of_a_formatted_time_are_those_of_a_chrono_duration() {
    let mut secs: i64 = -200_000;
    while secs <= 200_000 {
        assert_eq!(format_time(secs), chrono_format(secs));
        secs += 37;
    }
    let edges: [i64; 10] = [
        -3_601,
        -3_600,
        -3_599,
        -1,
        0,
        3_599,
        3_600,
        u32::MAX as i64,
        i64::MAX / 1_000,
        -(i64::MAX / 1_000),
    ];
    for secs in edges {
        assert_eq!(format_time(secs), chrono_format(secs));
    }
}

fn chrono_until(hour: u32, minute: u32, second: u32, current: DateTime<Utc>) -> Option<i64> {
    let target = current.with_hour(hour)?.with_minute(minute)?.with_second(second)?;
    let secs: i64 = target.signed_duration_since(current).num_seconds();
    if secs < 0 {
        Some((target + Duration::days(1)).signed_duration_since(current).num_seconds())
    } else {
        Some(secs)
    }
}

#[test]
fn the_seconds_until_a_clock_time_are_those_of_chrono_without_a_zone() {
    let day = NaiveDate::from_ymd_opt(2024, 1, 15).unwrap();
    let nows: [(u32, u32, u32); 5] = [(0, 0, 0), (10, 0, 0), (13, 37, 42), (18, 30, 0), (23, 59, 59)];
    let targets: [(u32, u32, u32); 9] = [
        (0, 0, 0),
        (9, 59, 59),
        (10, 0, 0),
        (10, 0, 1),
        (13, 37, 42),
        (18, 30, 0),
        (23, 59, 59),
        (24, 0, 0),
        (12, 60, 60),
    ];
    for (hour, minute, second) in nows {
        let current = day.and_hms_opt(hour, minute, second).unwrap().and_utc();
        let now = ClockTime::new(current.hour(), current.minute(), current.second()).unwrap();
        for (h, m, s) in targets {
            let text = format!("{}:{}:{}", h, m, s);
            let ours = get_seconds_until_time(&text, now).ok().map(|seconds| seconds as i64);
            assert_eq!(ours, chrono_until(h, m, s, current));
        }
    }
}

#[test]
fn the_end_instant_is_that_of_a_chrono_addition() {
    let nows: [i64; 5] = [0, 1, 1_700_000_000, -1_000_000_000, 4_102_444_800];
    let totals: [u32; 4] = [0, 1, 86_400, u32::MAX];
    for now in nows {
        for total in totals {
            let plan =
                CountdownPlan::new(total, String::new(), String::new(), 1, String::new(), false)
                    .unwrap();
            let run = Countdown::start(plan, now).unwrap();
            let end = DateTime::from_timestamp(now, 0)
                .unwrap()
                .checked_add_signed(Duration::seconds(total as i64))
                .unwrap();
            assert_eq!(run.end_instant(), end.timestamp());
        }
    }
}
