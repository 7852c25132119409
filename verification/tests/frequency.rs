use astra::configuration::{ConfigError, Frequency, ScheduleType};

#[test]
fn config_test_frequency_to_seconds_seconds_format() {
    assert_eq!(Frequency::new("1s").map(|f| f.to_seconds()), Ok(1));
}

#[test]
fn config_test_frequency_to_seconds_minutes_format() {
    assert_eq!(Frequency::new("1m").map(|f| f.to_seconds()), Ok(60));
}

#[test]
fn config_test_frequency_to_seconds_hours_format() {
    assert_eq!(Frequency::new("2h").map(|f| f.to_seconds()), Ok(7200));
}

#[test]
fn config_test_frequency_to_seconds_days_format() {
    assert_eq!(Frequency::new("1d").map(|f| f.to_seconds()), Ok(86400));
}

#[test]
fn config_test_frequency_to_seconds_weeks_format() {
    assert_eq!(Frequency::new("1w").map(|f| f.to_seconds()), Ok(604800));
}

#[test]
fn config_test_frequency_to_seconds_months_format() {
    assert_eq!(Frequency::new("1M").map(|f| f.to_seconds()), Ok(2592000));
}

#[test]
fn config_test_frequency_to_seconds_years_format() {
    assert_eq!(Frequency::new("1y").map(|f| f.to_seconds()), Ok(31536000));
}

#[test]
fn test_frequency_to_seconds_unknown_unit_format() {
    assert_eq!(
        Frequency::new("1K").map(|f| f.to_seconds()),
        Err(ConfigError::Parse("unrecognized frequency unit, supported units are: seconds(s), minutes(m), hours(h), days(d), weeks(w), months(M), years(y)".to_string()))
    );
}

#[test]
fn user_config_test_frequency_to_seconds_seconds_format() {
    let f = Frequency::new("1s").unwrap();
    assert_eq!(1, f.to_seconds());
}

#[test]
fn user_config_test_frequency_to_seconds_minutes_format() {
    let f = Frequency::new("1m").unwrap();
    assert_eq!(60, f.to_seconds());
}

#[test]
fn user_config_test_frequency_to_seconds_hours_format() {
    let f = Frequency::new("2h").unwrap();
    assert_eq!(7200, f.to_seconds());
}

#[test]
fn user_config_test_frequency_to_seconds_days_format() {
    let f = Frequency::new("1d").unwrap();
    assert_eq!(86400, f.to_seconds());
}

#[test]
fn user_config_test_frequency_to_seconds_weeks_format() {
    let f = Frequency::new("1w").unwrap();
    assert_eq!(604800, f.to_seconds());
}

#[test]
fn user_config_test_frequency_to_seconds_months_format() {
    let f = Frequency::new("1M").unwrap();
    assert_eq!(2592000, f.to_seconds());
}

#[test]
fn user_config_test_frequency_to_seconds_years_format() {
    let f = Frequency::new("1y").unwrap();
    assert_eq!(31536000, f.to_seconds());
}

#[test]
fn user_config_test_frequency_parse_unknown_unit_format() {
    let f = Frequency::new("1K");
    assert_eq!(Err(ConfigError::Parse("unrecognized frequency unit, supported units are: seconds(s), minutes(m), hours(h), days(d), weeks(w), months(M), years(y)".to_string())), f);
}

#[test]
fn user_config_test_frequency_parse_no_time_format() {
    let f = Frequency::new("d");
    assert_eq!(
        Err(ConfigError::Parse(
            "frequency must start with a number".to_string()
        )),
        f
    );
}

#[test]
fn user_config_test_frequency_parse_no_unit_format() {
    let f = Frequency::new("100");
    assert_eq!(
        Err(ConfigError::Parse(
            "frequency must end with unit - examples are: s, m, h, d, w, M, y".to_string()
        )),
        f
    );
}

#[test]
fn user_config_test_frequency_parse_no_empty_string() {
    let f = Frequency::new("");
    assert_eq!(
        Err(ConfigError::Parse(
            "frequency must start with a number".to_string()
        )),
        f
    );
}

#[test]
fn frequency_test_frequency_to_seconds_seconds_format() {
    let f = Frequency::new("1s").unwrap();
    assert_eq!(1, f.to_seconds());
}

#[test]
fn frequency_test_frequency_to_seconds_minutes_format() {
    let f = Frequency::new("1m").unwrap();
    assert_eq!(60, f.to_seconds());
}

#[test]
fn frequency_test_frequency_to_seconds_hours_format() {
    let f = Frequency::new("2h").unwrap();
    assert_eq!(7200, f.to_seconds());
}

#[test]
fn frequency_test_frequency_to_seconds_days_format() {
    let f = Frequency::new("1d").unwrap();
    assert_eq!(86400, f.to_seconds());
}

#[test]
fn frequency_test_frequency_to_seconds_weeks_format() {
    let f = Frequency::new("1w").unwrap();
    assert_eq!(604800, f.to_seconds());
}

#[test]
fn frequency_test_frequency_to_seconds_months_format() {
    let f = Frequency::new("1M").unwrap();
    assert_eq!(2592000, f.to_seconds());
}

#[test]
fn frequency_test_frequency_to_seconds_years_format() {
    let f = Frequency::new("1y").unwrap();
    assert_eq!(31536000, f.to_seconds());
}

#[test]
fn frequency_test_frequency_parse_unknown_unit_format() {
    let f = Frequency::new("1K");
    assert_eq!(Err(ConfigError::Parse("unrecognized frequency unit, supported units are: seconds(s), minutes(m), hours(h), days(d), weeks(w), months(M), years(y)".to_string())), f);
}

#[test]
fn frequency_test_frequency_parse_no_time_format() {
    let f = Frequency::new("d");
    assert_eq!(
        Err(ConfigError::Parse(
            "frequency must start with a number".to_string()
        )),
        f
    );
}

#[test]
fn frequency_test_frequency_parse_no_unit_format() {
    let f = Frequency::new("100");
    assert_eq!(
        Err(ConfigError::Parse(
            "frequency must end with unit - examples are: s, m, h, d, w, M, y".to_string()
        )),
        f
    );
}

#[test]
fn frequency_test_frequency_parse_no_empty_string() {
    let f = Frequency::new("");
    assert_eq!(
        Err(ConfigError::Parse(
            "frequency must start with a number".to_string()
        )),
        f
    );
}

#[test]
fn test_frequency_parse_0_used_as_numeric() {
    let f = Frequency::new("0d");
    assert_eq!(
        Err(ConfigError::Parse(
            "frequency number can't be 0".to_string()
        )),
        f
    );
}

#[test]
fn test_frequency_to_on_calendar_fmt_seconds() {
    let f = Frequency::new("10s").unwrap();
    assert_eq!("*-*-* *:*:0/10".to_string(), f.as_on_calendar_format())
}

#[test]
fn test_frequency_to_on_calendar_fmt_minutes() {
    let f = Frequency::new("15m").unwrap();
    assert_eq!("*-*-* *:0/15".to_string(), f.as_on_calendar_format())
}

#[test]
fn test_frequency_to_on_calendar_fmt_hours() {
    let f = Frequency::new("6h").unwrap();
    assert_eq!("*-*-* 0/6:00:00".to_string(), f.as_on_calendar_format())
}

#[test]
fn test_frequency_to_on_calendar_fmt_days() {
    let f = Frequency::new("2d").unwrap();
    assert_eq!("*-*-*/2 00:00:00".to_string(), f.as_on_calendar_format())
}

#[test]
fn test_frequency_to_on_calendar_fmt_weeks() {
    let f = Frequency::new("2w").unwrap();
    assert_eq!("*-*-*/14 00:00:00".to_string(), f.as_on_calendar_format())
}

#[test]
fn test_frequency_to_on_calendar_fmt_one_month() {
    let f = Frequency::new("1M").unwrap();
    assert_eq!("monthly".to_string(), f.as_on_calendar_format())
}

#[test]
fn test_frequency_to_on_calendar_fmt_months() {
    let f = Frequency::new("2M").unwrap();
    assert_eq!("*-*-*/60 00:00:00".to_string(), f.as_on_calendar_format())
}

#[test]
fn test_frequency_to_on_calendar_fmt_one_year() {
    let f = Frequency::new("1y").unwrap();
    assert_eq!("yearly".to_string(), f.as_on_calendar_format())
}

#[test]
fn test_frequency_to_on_calendar_fmt_if_greater_than_one_year_go_to_yearly() {
    let f = Frequency::new("2y").unwrap();
    assert_eq!("yearly".to_string(), f.as_on_calendar_format())
}

#[test]
fn test_as_task_scheduler_components_10_sec_should_round_to_1_min() {
    let f = Frequency::new("10s").unwrap();
    let actual = f.as_task_scheduler_components();
    let expected = (1, ScheduleType::MINUTE);
    assert_eq!(expected, actual)
}

#[test]
fn test_as_task_scheduler_components_1m_should_be_1m() {
    let f = Frequency::new("1m").unwrap();
    let actual = f.as_task_scheduler_components();
    let expected = (1, ScheduleType::MINUTE);
    assert_eq!(expected, actual)
}

#[test]
fn test_as_task_scheduler_components_100m_should_be_100m() {
    let f = Frequency::new("100m").unwrap();
    let actual = f.as_task_scheduler_components();
    let expected = (100, ScheduleType::MINUTE);
    assert_eq!(expected, actual)
}

#[test]
fn test_as_task_scheduler_components_1439_min_within_bounds() {
    let f = Frequency::new("1439m").unwrap();
    let actual = f.as_task_scheduler_components();
    let expected = (1439, ScheduleType::MINUTE);
    assert_eq!(expected, actual)
}

#[test]
fn test_as_task_scheduler_components_1440_min_should_convert_to_1d() {
    let f = Frequency::new("1440m").unwrap();
    let actual = f.as_task_scheduler_components();
    let expected = (1, ScheduleType::DAILY);
    assert_eq!(expected, actual)
}

#[test]
fn test_as_task_scheduler_components_20h_within_bounds() {
    let f = Frequency::new("20h").unwrap();
    let actual = f.as_task_scheduler_components();
    let expected = (20, ScheduleType::HOURLY);
    assert_eq!(expected, actual)
}

#[test]
fn test_as_task_scheduler_components_74h_should_be_3d() {
    let f = Frequency::new("74h").unwrap();
    let actual = f.as_task_scheduler_components();
    let expected = (3, ScheduleType::DAILY);
    assert_eq!(expected, actual)
}

#[test]
fn test_as_task_scheduler_components_365d_within_bounds() {
    let f = Frequency::new("365d").unwrap();
    let actual = f.as_task_scheduler_components();
    let expected = (365, ScheduleType::DAILY);
    assert_eq!(expected, actual)
}

#[test]
fn test_as_task_scheduler_components_720d_should_be_12_monthly() {
    let f = Frequency::new("720d").unwrap();
    let actual = f.as_task_scheduler_components();
    let expected = (12, ScheduleType::MONTHLY);
    assert_eq!(expected, actual)
}

#[test]
fn test_as_task_scheduler_components_6w_within_bounds() {
    let f = Frequency::new("6w").unwrap();
    let actual = f.as_task_scheduler_components();
    let expected = (6, ScheduleType::WEEKLY);
    assert_eq!(expected, actual)
}

#[test]
fn test_as_task_scheduler_components_53w_should_be_12_monthly() {
    let f = Frequency::new("53w").unwrap();
    let actual = f.as_task_scheduler_components();
    let expected = (12, ScheduleType::MONTHLY);
    assert_eq!(expected, actual)
}

#[test]
fn test_as_task_scheduler_components_6_months_should_be_6_monthly() {
    let f = Frequency::new("6M").unwrap();
    let actual = f.as_task_scheduler_components();
    let expected = (6, ScheduleType::MONTHLY);
    assert_eq!(expected, actual)
}

#[test]
fn test_as_task_scheduler_components_13_months_should_be_12_monthly() {
    let f = Frequency::new("13M").unwrap();
    let actual = f.as_task_scheduler_components();
    let expected = (12, ScheduleType::MONTHLY);
    assert_eq!(expected, actual)
}

#[test]
fn frequency_is_shown_as_written() {
    for token in ["1s", "15m", "6h", "2d", "52w", "12M", "1y", "18446744073709551616s"] {
        assert_eq!(Frequency::new(token).unwrap().to_string(), token);
    }
}

#[test]
fn frequency_rejects_what_is_no_token() {
    for (input, reason) in [
        ("0d", "frequency number can't be 0"),
        ("00d", "frequency number can't be 0"),
        ("", "frequency must start with a number"),
        ("d", "frequency must start with a number"),
        ("d1s", "frequency must start with a number"),
        (" 1s", "frequency must start with a number"),
        ("100", "frequency must end with unit - examples are: s, m, h, d, w, M, y"),
        ("0", "frequency must end with unit - examples are: s, m, h, d, w, M, y"),
        ("01d", "frequency number can't start with 0"),
        ("1d1d", "frequency is improperly formatted - example of frequency: 1w"),
        ("1dd", "frequency is improperly formatted - example of frequency: 1w"),
        ("1d ", "frequency is improperly formatted - example of frequency: 1w"),
    ] {
        assert_eq!(
            Frequency::new(input),
            Err(ConfigError::Parse(reason.to_string())),
            "{input:?}"
        );
    }
    assert!(matches!(Frequency::new("1K"), Err(ConfigError::Parse(_))));
    assert!(matches!(Frequency::new("1S"), Err(ConfigError::Parse(_))));
}

#[test]
fn minutes_and_months_differ() {
    assert_eq!(Frequency::new("3m").unwrap().to_seconds(), 180);
    assert_eq!(Frequency::new("3M").unwrap().to_seconds(), 7_776_000);
}

#[test]
fn seconds_that_do_not_fit_are_reported() {
    let big = Frequency::new("18446744073709551615s").unwrap();
    assert_eq!(big.checked_seconds(), Some(u64::MAX));
    let too_big = Frequency::new("18446744073709551615m").unwrap();
    assert_eq!(too_big.checked_seconds(), None);
    let huge = Frequency::new("99999999999999999999999999y").unwrap();
    assert_eq!(huge.checked_seconds(), None);
    assert_eq!(huge.as_on_calendar_format(), "yearly");
    assert_eq!(huge.as_task_scheduler_components(), (12, ScheduleType::MONTHLY));
}

#[test]
fn on_calendar_boundaries() {
    let cases = [
        ("1s", "*-*-* *:*:0/1"),
        ("59s", "*-*-* *:*:0/59"),
        ("60s", "*-*-* *:0/1"),
        ("3599s", "*-*-* *:0/59"),
        ("3600s", "*-*-* 0/1:00:00"),
        ("23h", "*-*-* 0/23:00:00"),
        ("24h", "*-*-*/1 00:00:00"),
        ("6d", "*-*-*/6 00:00:00"),
        ("7d", "weekly"),
        ("1w", "weekly"),
        ("4w", "*-*-*/28 00:00:00"),
        ("30d", "monthly"),
        ("11M", "*-*-*/330 00:00:00"),
        ("364d", "*-*-*/360 00:00:00"),
        ("365d", "yearly"),
    ];
    for (token, expected) in cases {
        assert_eq!(Frequency::new(token).unwrap().as_on_calendar_format(), expected, "{token}");
    }
}

#[test]
fn task_scheduler_boundaries() {
    let cases = [
        ("59s", (1, ScheduleType::MINUTE)),
        ("60s", (1, ScheduleType::MINUTE)),
        ("120s", (2, ScheduleType::MINUTE)),
        ("86399s", (1439, ScheduleType::MINUTE)),
        ("86400s", (1, ScheduleType::DAILY)),
        ("23h", (23, ScheduleType::HOURLY)),
        ("24h", (1, ScheduleType::DAILY)),
        ("366d", (12, ScheduleType::MONTHLY)),
        ("52w", (52, ScheduleType::WEEKLY)),
        ("12M", (12, ScheduleType::MONTHLY)),
        ("1y", (12, ScheduleType::MONTHLY)),
        ("8784h", (12, ScheduleType::MONTHLY)),
    ];
    for (token, expected) in cases {
        assert_eq!(
            Frequency::new(token).unwrap().as_task_scheduler_components(),
            expected,
            "{token}"
        );
    }
}

#[test]
fn schedule_type_words() {
    assert_eq!(ScheduleType::MINUTE.to_string(), "MINUTE");
    assert_eq!(ScheduleType::HOURLY.to_string(), "HOURLY");
    assert_eq!(ScheduleType::DAILY.to_string(), "DAILY");
    assert_eq!(ScheduleType::WEEKLY.to_string(), "WEEKLY");
    assert_eq!(ScheduleType::MONTHLY.to_string(), "MONTHLY");
}

#[test]
fn config_errors_are_shown() {
    assert_eq!(
        ConfigError::Parse("x".to_string()).to_string(),
        "Unable to parse configuration file: x"
    );
    assert_eq!(
        ConfigError::CreateDir("x".to_string()).to_string(),
        "Unable to create configuration directory: x"
    );
    assert_eq!(
        ConfigError::CreateFile("x".to_string()).to_string(),
        "Unable to create configuration file: x"
    );
}
