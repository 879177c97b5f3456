use countmedown::cli::Cli;
use countmedown::clock::ClockTime;
use countmedown::color::{get_new_color, Argb};
use countmedown::config::RustMeDownConfig;
use countmedown::error::{ErrorKind, ParseFailure};
use countmedown::input::{get_texts, parse_step, text_or_default, validate_string_inputs};

#[test]
fn a_record_gives_back_its_five_fields() {
    let config = RustMeDownConfig::new(
        "1:02:03".to_string(),
        "Start in:".to_string(),
        "gleich".to_string(),
        7,
        "/tmp/time.txt".to_string(),
    );
    assert_eq!(config.time_in(), "1:02:03");
    assert_eq!(config.prefix(), "Start in:");
    assert_eq!(config.ending(), "gleich");
    assert_eq!(config.step(), 7);
    assert_eq!(config.filepath(), "/tmp/time.txt");
    let parts = config.clone().into_parts();
    assert_eq!(
        parts,
        (
            "1:02:03".to_string(),
            "Start in:".to_string(),
            "gleich".to_string(),
            7,
            "/tmp/time.txt".to_string()
        )
    );
    assert_eq!(RustMeDownConfig::new(parts.0, parts.1, parts.2, parts.3, parts.4), config);
}

#[test]
fn a_record_keeps_odd_texts_byte_for_byte() {
    let time_in = " 1:\u{00e4}\n".to_string();
    let prefix = "\u{1f980}:\t\"quoted\"".to_string();
    let ending = String::new();
    let filepath = "C:\\time\\t\u{00fc}r.txt".to_string();
    let parts = RustMeDownConfig::new(
        time_in.clone(),
        prefix.clone(),
        ending.clone(),
        usize::MAX,
        filepath.clone(),
    )
    .into_parts();
    assert_eq!(parts.0.as_bytes(), time_in.as_bytes());
    assert_eq!(parts.1.as_bytes(), prefix.as_bytes());
    assert_eq!(parts.2.as_bytes(), ending.as_bytes());
    assert_eq!(parts.3, usize::MAX);
    assert_eq!(parts.4.as_bytes(), filepath.as_bytes());
}

#[test]
fn the_defaults_are_ten_minutes_in_steps_of_one() {
    let config = RustMeDownConfig::with_defaults("/home/me/time.txt".to_string());
    assert_eq!(config.time_in(), "10:00");
    assert_eq!(config.prefix(), "Start in:");
    assert_eq!(config.ending(), "gleich");
    assert_eq!(config.step(), 1);
    assert_eq!(config.filepath(), "/home/me/time.txt");
    assert_eq!(config.get_seconds(), Ok(600));
}

#[test]
fn the_seconds_of_a_record_are_those_of_its_time() {
    let record = |time_in: &str| {
        RustMeDownConfig::new(time_in.to_string(), String::new(), String::new(), 1, String::new())
    };
    assert_eq!(record("1:02:03").get_seconds(), Ok(3723));
    assert_eq!(record("90").get_seconds(), Ok(90));
    assert_eq!(record("1:xx").get_seconds(), Err(ParseFailure::InvalidNumber));
    assert_eq!(record("").get_seconds(), Err(ParseFailure::InvalidNumber));
    assert_eq!(record("4294967296").get_seconds(), Err(ParseFailure::Overflow));
}

#[test]
fn a_record_of_a_form_fills_in_what_was_left_empty() {
    let config = RustMeDownConfig::from_form("", "", "", "", "t.txt".to_string());
    assert_eq!(config.time_in(), "10:00");
    assert_eq!(config.prefix(), "");
    assert_eq!(config.ending(), "");
    assert_eq!(config.step(), 1);
    assert_eq!(config.filepath(), "t.txt");
    let config = RustMeDownConfig::from_form("5:00", "in", "now", "15", "t.txt".to_string());
    assert_eq!(config.time_in(), "5:00");
    assert_eq!(config.prefix(), "in");
    assert_eq!(config.ending(), "now");
    assert_eq!(config.step(), 15);
}

#[test]
fn the_plan_of_a_record() {
    let config = RustMeDownConfig::new(
        "1:30".to_string(),
        "p".to_string(),
        "e".to_string(),
        3,
        "f".to_string(),
    );
    let plan = config.plan(true).unwrap();
    assert_eq!(plan.total_seconds(), 90);
    assert_eq!(plan.prefix(), "p");
    assert_eq!(plan.ending(), "e");
    assert_eq!(plan.step(), 3);
    assert_eq!(plan.filepath(), "f");
    assert!(plan.verbose());
    assert!(!config.plan(false).unwrap().verbose());
}

#[test]
fn a_record_with_a_bad_time_or_no_step_has_no_plan() {
    let record = |time_in: &str, step: usize| {
        RustMeDownConfig::new(time_in.to_string(), String::new(), String::new(), step, String::new())
    };
    assert_eq!(record("x", 1).plan(false).err(), Some(ErrorKind::Parse(ParseFailure::InvalidNumber)));
    assert_eq!(
        record("99999999999", 1).plan(false).err(),
        Some(ErrorKind::Parse(ParseFailure::Overflow))
    );
    assert_eq!(record("10", 0).plan(false).err(), Some(ErrorKind::ZeroStep));
    assert_eq!(record("x", 0).plan(false).err(), Some(ErrorKind::Parse(ParseFailure::InvalidNumber)));
}

#[test]
fn empty_texts_take_their_defaults() {
    assert_eq!(text_or_default("", "10:00"), "10:00");
    assert_eq!(text_or_default("5", "10:00"), "5");
    assert_eq!(text_or_default(" ", "10:00"), " ");
    assert_eq!(text_or_default("", ""), "");
    assert_eq!(
        get_texts("", "", ""),
        ("10:00".to_string(), String::new(), String::new())
    );
    assert_eq!(
        get_texts("1:00", "Start in:", "gleich"),
        ("1:00".to_string(), "Start in:".to_string(), "gleich".to_string())
    );
}

#[test]
fn an_input_of_digits_is_valid() {
    assert!(validate_string_inputs("0123456789", false));
    assert!(validate_string_inputs("0123456789", true));
    assert!(validate_string_inputs("10:00", true));
    assert!(validate_string_inputs(":", true));
    assert!(validate_string_inputs("1::2", true));
}

#[test]
fn an_input_of_anything_else_is_invalid() {
    assert!(!validate_string_inputs("", false));
    assert!(!validate_string_inputs("", true));
    assert!(!validate_string_inputs("10:00", false));
    assert!(!validate_string_inputs("10 00", true));
    assert!(!validate_string_inputs("+5", true));
    assert!(!validate_string_inputs("-5", false));
    assert!(!validate_string_inputs("5a", true));
    assert!(!validate_string_inputs("/", true));
    assert!(!validate_string_inputs(";", true));
    assert!(!validate_string_inputs("\u{0661}", true));
}

#[test]
fn a_step_that_is_no_number_is_one() {
    assert_eq!(parse_step("15"), 15);
    assert_eq!(parse_step("0"), 0);
    assert_eq!(parse_step("+3"), 3);
    assert_eq!(parse_step(""), 1);
    assert_eq!(parse_step("abc"), 1);
    assert_eq!(parse_step("1:00"), 1);
    assert_eq!(parse_step("-3"), 1);
    assert_eq!(parse_step("-0"), 1);
    assert_eq!(parse_step("-000"), 1);
    assert_eq!(parse_step("+0"), 0);
    assert_eq!(parse_step("2.5"), 1);
    assert_eq!(parse_step(&usize::MAX.to_string()), usize::MAX);
    assert_eq!(parse_step("340282366920938463463374607431768211456"), 1);
}

#[test]
fn a_step_agrees_with_the_unsigned_reading_of_the_word() {
    let texts: [&str; 12] =
        ["0", "1", "15", "+15", "-0", "-15", "", " 1", "1 ", "1:00", "0x1", "99999999999999999999"];
    for text in texts {
        assert_eq!(parse_step(text), text.parse::<usize>().unwrap_or(1));
    }
}

#[test]
fn the_label_of_a_valid_input_suits_the_background() {
    let light = Argb { alpha: 255, red: 250, green: 250, blue: 250 };
    let dark = Argb { alpha: 255, red: 28, green: 28, blue: 28 };
    let other = Argb { alpha: 255, red: 1, green: 2, blue: 3 };
    assert_eq!(get_new_color(true, light), Argb { alpha: 230, red: 0, green: 0, blue: 0 });
    assert_eq!(get_new_color(true, dark), Argb { alpha: 255, red: 255, green: 255, blue: 255 });
    assert_eq!(get_new_color(true, other), Argb { alpha: 255, red: 0, green: 0, blue: 0 });
    let nearly_light = Argb { alpha: 254, red: 250, green: 250, blue: 250 };
    assert_eq!(get_new_color(true, nearly_light), Argb { alpha: 255, red: 0, green: 0, blue: 0 });
}

#[test]
fn the_label_of_an_invalid_input_is_red() {
    let red = Argb { alpha: 255, red: 200, green: 12, blue: 12 };
    assert_eq!(get_new_color(false, Argb { alpha: 255, red: 250, green: 250, blue: 250 }), red);
    assert_eq!(get_new_color(false, Argb { alpha: 255, red: 28, green: 28, blue: 28 }), red);
    assert_eq!(get_new_color(false, Argb { alpha: 0, red: 0, green: 0, blue: 0 }), red);
}

fn arguments(time_in: &str, until: bool) -> Cli {
    Cli {
        verbose: false,
        file: None,
        step: 1,
        prefix: None,
        ending: None,
        time_in: time_in.to_string(),
        until,
    }
}

#[test]
fn missing_arguments_take_their_defaults() {
    let noon = ClockTime::new(12, 0, 0).unwrap();
    let plan = arguments("1:30", false).into_plan(noon).unwrap();
    assert_eq!(plan.total_seconds(), 90);
    assert_eq!(plan.prefix(), "");
    assert_eq!(plan.ending(), "");
    assert_eq!(plan.step(), 1);
    assert_eq!(plan.filepath(), "./time.txt");
    assert!(!plan.verbose());
}

#[test]
fn given_arguments_are_taken_over() {
    let noon = ClockTime::new(12, 0, 0).unwrap();
    let cli = Cli {
        verbose: true,
        file: Some("out.txt".to_string()),
        step: 5,
        prefix: Some("Start in:".to_string()),
        ending: Some("gleich".to_string()),
        time_in: "2:00".to_string(),
        until: false,
    };
    let plan = cli.into_plan(noon).unwrap();
    assert_eq!(plan.total_seconds(), 120);
    assert_eq!(plan.prefix(), "Start in:");
    assert_eq!(plan.ending(), "gleich");
    assert_eq!(plan.step(), 5);
    assert_eq!(plan.filepath(), "out.txt");
    assert!(plan.verbose());
}

#[test]
fn the_until_flag_picks_the_reading_of_the_time() {
    let noon = ClockTime::new(12, 0, 0).unwrap();
    assert_eq!(arguments("18:30", false).into_plan(noon).unwrap().total_seconds(), 1_110);
    assert_eq!(arguments("18:30", true).into_plan(noon).unwrap().total_seconds(), 23_400);
    assert_eq!(arguments("11:00", true).into_plan(noon).unwrap().total_seconds(), 82_800);
    assert_eq!(arguments("90", false).into_plan(noon).unwrap().total_seconds(), 90);
}

#[test]
fn a_bad_time_argument_is_told_in_its_mode() {
    let noon = ClockTime::new(12, 0, 0).unwrap();
    assert_eq!(
        arguments("1:xx", false).into_plan(noon).err(),
        Some(ErrorKind::Parse(ParseFailure::InvalidNumber))
    );
    assert_eq!(
        arguments("1:xx", true).into_plan(noon).err(),
        Some(ErrorKind::Parse(ParseFailure::InvalidClockField))
    );
    assert_eq!(
        arguments("90", true).into_plan(noon).err(),
        Some(ErrorKind::Parse(ParseFailure::InvalidClockField))
    );
    assert_eq!(
        arguments("4294967296", false).into_plan(noon).err(),
        Some(ErrorKind::Parse(ParseFailure::Overflow))
    );
    let mut no_step = arguments("10", false);
    no_step.step = 0;
    assert_eq!(no_step.clone().into_plan(noon).err(), Some(ErrorKind::ZeroStep));
    no_step.time_in = "x".to_string();
    assert_eq!(
        no_step.into_plan(noon).err(),
        Some(ErrorKind::Parse(ParseFailure::InvalidNumber))
    );
}

#[test]
fn every_error_has_a_message_of_its_own() {
    let errors: [ErrorKind; 5] = [
        ErrorKind::Parse(ParseFailure::InvalidNumber),
        ErrorKind::Parse(ParseFailure::InvalidClockField),
        ErrorKind::Parse(ParseFailure::Overflow),
        ErrorKind::ZeroStep,
        ErrorKind::TimeOverflow,
    ];
    assert_eq!(errors[0].message(), "the time must be numbers separated by colons");
    assert_eq!(
        errors[1].message(),
        "the time of day must be an hour (0-23), optionally with a minute and a second (0-59)"
    );
    assert_eq!(errors[2].message(), "the time is too long");
    assert_eq!(errors[3].message(), "the step must be at least one second");
    assert_eq!(errors[4].message(), "the end of the countdown is out of range");
    for (i, first) in errors.iter().enumerate() {
        for second in errors.iter().skip(i + 1) {
            assert_ne!(first.message(), second.message());
        }
    }
}
