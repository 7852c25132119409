use astra::os_implementations::macos::{
    extract_interval, extract_interval_text, gen_plist_file_name, gen_plist_for_astra,
    get_key_value_pair_based_on_spaces, get_user_id, handle_frequency, is_dark_mode_active,
    is_due, launchctl_check_existance_of_astra_job, launchctl_install_astra_freq,
    launchctl_print_command, launchctl_uninstall_astra_freq, needs_install, parse_output,
    preceding_spaces, retrieve_last_execution_time, save_last_execution_time, trim_newline,
    FrequencyStep, MacOSError,
};
use astra::os_implementations::{JobIdentity, SchedulerAction};
use astra::configuration::{Config, Frequency, UserConfig};

const REPORT: &str = r#"
            Graphics/Displays:

                Apple M1:

                  Chipset Model: Apple M1
                  Type: GPU
                  Bus: Built-In
                  Total Number of Cores: 8
                  Vendor: Apple (0x106b)
                  Metal Support: Metal 3
                  Displays:
                    Color LCD:
                      Display Type: Built-In Retina LCD
                      Resolution: 2560 x 1600 Retina
                      Main Display: Yes
                      Mirror: Off
                      Online: Yes
                      Automatically Adjust Brightness: Yes
                      Connection Type: Internal
                    LG HDR WFHD:
                      Resolution: 2560 x 1080 (UW-UXGA - Ultra Wide - Ultra Extended Graphics Array)
                      UI Looks like: 2560 x 1080 @ 75.00Hz
                      Mirror: Off
                      Online: Yes
                      Rotation: Supported
            "#;

fn parses_valid_output() {
    let (width, height) = parse_output(REPORT).unwrap();
    assert_eq!(width, 2560);
    assert_eq!(height, 1600);
}

fn fails_to_parse_invalid_output() {
    let output = "";
    let res = parse_output(output);
    assert_eq!(res.err().unwrap(), MacOSError::MainDisplayNotFound);
}

fn fails_when_no_main_display() {
    let output = "Main Display: No";
    let res = parse_output(output);
    assert_eq!(res.err().unwrap(), MacOSError::MainDisplayNotFound);
}

fn fails_when_no_resolution_found() {
    let output = "Main Display: Yes";
    let res = parse_output(output);
    assert_eq!(res.err().unwrap(), MacOSError::ResolutionNotFound);
}

fn counts_leading_spaces_correctly() {
    assert_eq!(preceding_spaces("    four leading spaces"), 4);
    assert_eq!(preceding_spaces("no leading spaces"), 0);
    assert_eq!(preceding_spaces("  two leading spaces"), 2);
    assert_eq!(preceding_spaces("      six leading spaces"), 6);
}

fn handles_empty_string() {
    assert_eq!(preceding_spaces(""), 0);
}

fn handles_only_spaces() {
    assert_eq!(preceding_spaces("     "), 5);
}

fn adds_line_with_correct_spaces() {
    let mut properties = vec![];
    let line = "    Key: Value";
    let num_spaces = 4;
    let added = get_key_value_pair_based_on_spaces(&mut properties, line, num_spaces);
    assert!(added);
    assert_eq!(properties, vec!["    Key: Value"]);
}

fn does_not_add_line_with_incorrect_spaces() {
    let mut properties = vec![];
    let line = "  Key: Value";
    let num_spaces = 4;
    let added = get_key_value_pair_based_on_spaces(&mut properties, line, num_spaces);
    assert!(!added);
    assert!(properties.is_empty());
}

#[test]
fn macos_it_parses_valid_output() {
    parses_valid_output();
}

#[test]
fn mod_it_parses_valid_output() {
    parses_valid_output();
}

#[test]
fn macos_it_fails_to_parse_invalid_output() {
    fails_to_parse_invalid_output();
}

#[test]
fn mod_it_fails_to_parse_invalid_output() {
    fails_to_parse_invalid_output();
}

#[test]
fn macos_it_fails_when_no_main_display() {
    fails_when_no_main_display();
}

#[test]
fn mod_it_fails_when_no_main_display() {
    fails_when_no_main_display();
}

#[test]
fn macos_it_fails_when_no_resolution_found() {
    fails_when_no_resolution_found();
}

#[test]
fn mod_it_fails_when_no_resolution_found() {
    fails_when_no_resolution_found();
}

#[test]
fn macos_it_counts_leading_spaces_correctly() {
    counts_leading_spaces_correctly();
}

#[test]
fn mod_it_counts_leading_spaces_correctly() {
    counts_leading_spaces_correctly();
}

#[test]
fn macos_it_handles_empty_string() {
    handles_empty_string();
}

#[test]
fn mod_it_handles_empty_string() {
    handles_empty_string();
}

#[test]
fn macos_it_handles_only_spaces() {
    handles_only_spaces();
}

#[test]
fn mod_it_handles_only_spaces() {
    handles_only_spaces();
}

#[test]
fn macos_it_adds_line_with_correct_spaces() {
    adds_line_with_correct_spaces();
}

#[test]
fn mod_it_adds_line_with_correct_spaces() {
    adds_line_with_correct_spaces();
}

#[test]
fn macos_it_does_not_add_line_with_incorrect_spaces() {
    does_not_add_line_with_incorrect_spaces();
}

#[test]
fn mod_it_does_not_add_line_with_incorrect_spaces() {
    does_not_add_line_with_incorrect_spaces();
}

#[test]
fn test_extract_interval_from_launchctl_output() {
    // A minimal chunk of sample output including the line we need.
    let sample = r#"
gui/501/dev.CharlieKarafotias.Astra = {
    active count = 0
    path = /Users/someuser/Library/LaunchAgents/dev.CharlieKarafotias.Astra.plist
    type = LaunchAgent

    run interval = 86400 seconds

    properties = runatload | penalty box | system service
}
"#;

    let secs = extract_interval(sample.as_bytes());

    assert_eq!(secs, Some(86400));
}

#[test]
fn test_extract_interval_from_launchctl_output_when_no_interval() {
    let sample = r#"
gui/501/dev.CharlieKarafotias.Astra = {
    active count = 0
    path = /Users/someuser/Library/LaunchAgents/dev.CharlieKarafotias.Astra.plist
    type = LaunchAgent
    properties = runatload | penalty box | system service
}
"#;

    let secs = extract_interval(sample.as_bytes());

    assert_eq!(secs, None)
}

#[test]
fn the_line_above_the_first_is_never_a_property() {
    // the resolution stands in the first line, which is not looked at
    let output = "  Resolution: 800 x 600\n  Main Display: Yes";
    assert_eq!(parse_output(output), Err(MacOSError::ResolutionNotFound));
    let output = "x\n  Resolution: 800 x 600\n  Main Display: Yes";
    assert_eq!(parse_output(output), Ok((800, 600)));
}

#[test]
fn properties_below_are_found_after_those_above() {
    let output = "x\n  Main Display: Yes\n  Resolution: 1024 x 768\n";
    assert_eq!(parse_output(output), Ok((1024, 768)));
    let output = "x\n  Resolution: 1 x 2\n  Main Display: Yes\n  Resolution: 3 x 4\n";
    assert_eq!(parse_output(output), Ok((1, 2)));
    // a line of another indentation ends the run
    let output = "x\n  Main Display: Yes\n   Mirror: Off\n  Resolution: 3 x 4\n";
    assert_eq!(parse_output(output), Err(MacOSError::ResolutionNotFound));
}

#[test]
fn a_resolution_needs_two_numbers() {
    for line in [
        "Resolution: 800",
        "Resolution: 800 x ",
        "Resolution: 800 x 600 x 3",
        "Resolution: a x b",
        "Resolution: 4294967296 x 600",
    ] {
        let output = format!("x\n  {line}\n  Main Display: Yes\n");
        assert_eq!(parse_output(&output), Err(MacOSError::ResolutionNotFound), "{line}");
    }
    let output = "x\r\n  Resolution: 4294967295 x 0\r\n  Main Display: Yes\r\n";
    assert_eq!(parse_output(output), Ok((4294967295, 0)));
}

#[test]
fn interval_is_the_first_word_after_the_equals_sign() {
    assert_eq!(extract_interval_text("run interval = 600 seconds"), Some(600));
    assert_eq!(extract_interval_text("a\n\trun interval =\t+600\n"), Some(600));
    assert_eq!(extract_interval_text("run interval = 600s"), None);
    assert_eq!(extract_interval_text("run interval 600"), None);
    assert_eq!(extract_interval_text("run interval = "), None);
    assert_eq!(extract_interval_text("run interval = 18446744073709551616"), None);
    assert_eq!(extract_interval_text("run interval = x\nrun interval = 5"), None);
    assert_eq!(extract_interval_text(""), None);
}

#[test]
fn a_failed_print_means_no_job() {
    assert_eq!(launchctl_check_existance_of_astra_job(false, b"run interval = 600"), None);
    assert_eq!(launchctl_check_existance_of_astra_job(true, b"run interval = 600"), Some(600));
    assert!(needs_install(None));
    assert!(needs_install(Some(86400)));
    assert!(!needs_install(Some(600)));
}

#[test]
fn dark_mode_word() {
    assert!(is_dark_mode_active("Dark\n"));
    assert!(is_dark_mode_active("  DARK "));
    assert!(!is_dark_mode_active("Light\n"));
    assert!(!is_dark_mode_active(""));
    assert!(!is_dark_mode_active("darker"));
}

#[test]
fn newline_is_trimmed() {
    for (input, expected) in [("501\n", "501"), ("501\r\n", "501"), ("501", "501"), ("\n", ""), ("a\n\n", "a\n"), ("a\r", "a\r")] {
        let mut s = input.to_string();
        trim_newline(&mut s);
        assert_eq!(s, expected);
    }
    assert_eq!(get_user_id(b" 501\n"), "501");
}

fn identity() -> JobIdentity {
    JobIdentity {
        qualifier: "dev".to_string(),
        organization: "Example".to_string(),
        application: "Astra".to_string(),
    }
}

#[test]
fn plist_text() {
    let text = gen_plist_for_astra(&identity(), "/usr/local/bin/astra");
    let expected = "<?xml version=\"1.0\" encoding=\"UTF-8\"?>
<!DOCTYPE plist PUBLIC \"-//Apple//DTD PLIST 1.0//EN\" \"http://www.apple.com/DTDs/PropertyList-1.0.dtd\">
<plist version=\"1.0\">
    <dict>
        <key>Label</key>
        <string>dev.Example.Astra</string>
        <key>Program</key>
        <string>/usr/local/bin/astra</string>
        <key>StartInterval</key>
        <integer>600</integer>
        <key>RunAtLoad</key>
        <true/>
    </dict>
</plist>";
    assert_eq!(text, expected);
    assert_eq!(gen_plist_file_name(&identity()), "dev.Example.Astra.plist");
}

#[test]
fn launchd_plans() {
    let plan = launchctl_install_astra_freq(&identity(), "/bin/astra", "/h/a.plist", "501");
    assert_eq!(plan.len(), 2);
    assert!(matches!(&plan[0], SchedulerAction::WriteFile { path, .. } if path == "/h/a.plist"));
    assert_eq!(
        plan[1],
        SchedulerAction::Register {
            job: "dev.Example.Astra".to_string(),
            command: vec![
                "launchctl".to_string(),
                "bootstrap".to_string(),
                "gui/501".to_string(),
                "/h/a.plist".to_string()
            ],
        }
    );
    let plan = launchctl_uninstall_astra_freq(&identity(), "/h/a.plist", "501");
    assert_eq!(
        plan,
        vec![
            SchedulerAction::Unregister {
                job: "dev.Example.Astra".to_string(),
                command: vec![
                    "launchctl".to_string(),
                    "bootout".to_string(),
                    "gui/501".to_string(),
                    "/h/a.plist".to_string()
                ],
            },
            SchedulerAction::RemoveFile { path: "/h/a.plist".to_string() },
        ]
    );
    assert_eq!(
        launchctl_print_command(&identity(), "501"),
        vec!["launchctl", "print", "gui/501/dev.Example.Astra"]
    );
}

#[test]
fn last_run_is_written_and_read_back() {
    assert_eq!(save_last_execution_time(1_700_000_000), "last_run = 1700000000");
    assert_eq!(retrieve_last_execution_time(Some("last_run = 1700000000")), Ok(1_700_000_000));
    assert_eq!(retrieve_last_execution_time(Some(&save_last_execution_time(0))), Ok(0));
    assert_eq!(retrieve_last_execution_time(Some(&save_last_execution_time(u64::MAX))), Ok(u64::MAX));
    assert_eq!(retrieve_last_execution_time(None), Ok(0));
    assert!(matches!(retrieve_last_execution_time(Some("last_run")), Err(MacOSError::ParseError(_))));
    assert!(matches!(retrieve_last_execution_time(Some("last_run = x")), Err(MacOSError::ParseError(_))));
    assert!(matches!(retrieve_last_execution_time(Some("last_run = ")), Err(MacOSError::ParseError(_))));
}

#[test]
fn wallpaper_is_due_after_the_frequency_has_passed() {
    let hour = Frequency::new("1h").unwrap();
    let now = 1_700_000_000;
    // half an hour ago: not yet
    assert!(!is_due(now, now - 1800, &hour));
    assert!(!is_due(now, now - 3599, &hour));
    assert!(is_due(now, now - 3600, &hour));
    assert!(is_due(now, 0, &hour));
    // a last run in the future is never due
    assert!(!is_due(now, now + 1, &hour));
    let forever = Frequency::new("99999999999999999999y").unwrap();
    assert!(!is_due(u64::MAX, 0, &forever));
}

#[test]
fn frequency_step_follows_the_configuration() {
    let mut user = UserConfig::default();
    assert_eq!(handle_frequency(&Config::new(false, Ok(UserConfig::default()))), FrequencyStep::Uninstall);
    user.frequency = Some(Frequency::new("1h").unwrap());
    assert_eq!(handle_frequency(&Config::new(false, Ok(user))), FrequencyStep::Inspect);
}

#[test]
fn macos_errors_are_shown() {
    assert_eq!(MacOSError::DarkModeError.to_string(), "Unable to determine dark mode status");
    assert_eq!(MacOSError::Launchctl("x".to_string()).to_string(), "Launchctl error: x");
    assert_eq!(MacOSError::MainDisplayNotFound.to_string(), "Unable to determine main display");
    assert_eq!(MacOSError::OpenEditorError.to_string(), "Unable to open editor");
    assert_eq!(MacOSError::OS("x".to_string()).to_string(), "General OS error: x");
    assert_eq!(MacOSError::ParseError("x".to_string()).to_string(), "Unable to parse output: x");
    assert_eq!(
        MacOSError::ResolutionNotFound.to_string(),
        "Unable to determine resolution of main display"
    );
    assert_eq!(MacOSError::StringConversion.to_string(), "Unable to convert to String");
    assert_eq!(
        MacOSError::SystemProfilerError.to_string(),
        "Encountered error running system_profiler"
    );
}
