//! Dates, log levels and log lines.

use spambayes_addin::civil_date::days_to_date;
use spambayes_addin::logger::{format_timestamp, Logger};
use spambayes_addin::LogLevel;

/// Some moment in July 2025.
const NOW: u64 = 20285 * 86400 + 13 * 3600 + 5 * 60 + 9;

/// What a log file holds after the given lines were written, where there is something to write.
fn contents(lines: &[Option<String>]) -> String {
    let mut all = String::new();
    for line in lines.iter().flatten() {
        all.push_str(line);
    }
    all
}

#[test]
fn days_to_date_unix_epoch() {
    // Day 0 = 1970-01-01
    let (y, m, d) = days_to_date(0);
    assert_eq!((y, m, d), (1970, 1, 1));
}

#[test]
fn days_to_date_known_date_2000_01_01() {
    // 2000-01-01 is day 10957 since epoch
    let (y, m, d) = days_to_date(10957);
    assert_eq!((y, m, d), (2000, 1, 1));
}

#[test]
fn days_to_date_known_date_2024_02_29() {
    let (y, m, d) = days_to_date(19782);
    assert_eq!((y, m, d), (2024, 2, 29));
}

#[test]
fn days_to_date_known_date_2025_07_16() {
    let (y, m, d) = days_to_date(20285);
    assert_eq!((y, m, d), (2025, 7, 16));
}

#[test]
fn days_to_date_end_of_year() {
    // 1970-12-31 is day 364
    let (y, m, d) = days_to_date(364);
    assert_eq!((y, m, d), (1970, 12, 31));
}

#[test]
fn days_to_date_leap_year_boundary() {
    // 1972 is the first leap year after the epoch
    let (y, m, d) = days_to_date(790);
    assert_eq!((y, m, d), (1972, 3, 1));
}

#[test]
fn days_to_date_centuries() {
    assert_eq!(days_to_date(11016), (2000, 2, 29));
    assert_eq!(days_to_date(47540), (2100, 2, 28));
    assert_eq!(days_to_date(47541), (2100, 3, 1));
}

#[test]
fn later_days_are_later_dates() {
    for day in 0..200_000u64 {
        assert!(days_to_date(day) < days_to_date(day + 1));
    }
}

#[test]
fn log_level_from_u8_error() {
    assert_eq!(LogLevel::from_u8(0), LogLevel::Error);
}

#[test]
fn log_level_from_u8_info() {
    assert_eq!(LogLevel::from_u8(1), LogLevel::Info);
}

#[test]
fn log_level_from_u8_verbose() {
    assert_eq!(LogLevel::from_u8(2), LogLevel::Verbose);
}

#[test]
fn log_level_from_u8_unknown_defaults_to_verbose() {
    // Any value >= 2 maps to Verbose
    assert_eq!(LogLevel::from_u8(3), LogLevel::Verbose);
    assert_eq!(LogLevel::from_u8(255), LogLevel::Verbose);
}

#[test]
fn log_level_is_read_back() {
    for level in [LogLevel::Error, LogLevel::Info, LogLevel::Verbose] {
        assert_eq!(LogLevel::from_u8(level.as_u8()), level);
    }
}

#[test]
fn verbosity_to_level_zero_is_error() {
    assert_eq!(Logger::verbosity_to_level(0), LogLevel::Error);
}

#[test]
fn verbosity_to_level_one_is_info() {
    assert_eq!(Logger::verbosity_to_level(1), LogLevel::Info);
}

#[test]
fn verbosity_to_level_two_is_verbose() {
    assert_eq!(Logger::verbosity_to_level(2), LogLevel::Verbose);
}

#[test]
fn verbosity_to_level_high_value_is_verbose() {
    assert_eq!(Logger::verbosity_to_level(100), LogLevel::Verbose);
}

#[test]
fn logger_filters_verbose_when_level_is_error() {
    let logger = Logger::new(LogLevel::Error);
    let contents = contents(&[
        logger.error("test", "error message", NOW),
        logger.info("test", "info message", NOW),
        logger.verbose("test", "verbose message", NOW),
    ]);
    assert!(contents.contains("error message"), "error should be logged");
    assert!(!contents.contains("info message"), "info should be filtered");
    assert!(!contents.contains("verbose message"), "verbose should be filtered");
}

#[test]
fn logger_passes_info_and_error_when_level_is_info() {
    let logger = Logger::new(LogLevel::Info);
    let contents = contents(&[
        logger.error("mod", "err_msg", NOW),
        logger.info("mod", "info_msg", NOW),
        logger.verbose("mod", "verbose_msg", NOW),
    ]);
    assert!(contents.contains("err_msg"));
    assert!(contents.contains("info_msg"));
    assert!(!contents.contains("verbose_msg"));
}

#[test]
fn logger_passes_all_when_level_is_verbose() {
    let logger = Logger::new(LogLevel::Verbose);
    let contents = contents(&[
        logger.error("m", "e", NOW),
        logger.info("m", "i", NOW),
        logger.verbose("m", "v", NOW),
    ]);
    assert!(contents.contains("[ERROR]"));
    assert!(contents.contains("[INFO]"));
    assert!(contents.contains("[VERBOSE]"));
}

#[test]
fn logger_set_level_changes_filtering_at_runtime() {
    let mut logger = Logger::new(LogLevel::Error);
    let before = logger.info("m", "before_upgrade", NOW);
    logger.set_level(LogLevel::Info);
    let after = logger.info("m", "after_upgrade", NOW);
    let contents = contents(&[before, after]);
    assert!(!contents.contains("before_upgrade"));
    assert!(contents.contains("after_upgrade"));
}

#[test]
fn logger_current_level_reflects_set_level() {
    let mut logger = Logger::new(LogLevel::Error);
    assert_eq!(logger.current_level(), LogLevel::Error);
    logger.set_level(LogLevel::Verbose);
    assert_eq!(logger.current_level(), LogLevel::Verbose);
}

#[test]
fn log_entry_contains_module_name() {
    let logger = Logger::new(LogLevel::Verbose);
    let contents = contents(&[logger.info("my_module", "hello world", NOW)]);
    assert!(contents.contains("[my_module]"));
    assert!(contents.contains("hello world"));
    assert_eq!(contents, "[2025-07-16 13:05:09] [INFO] [my_module] hello world\n");
}

#[test]
fn log_entry_has_timestamp_format() {
    let logger = Logger::new(LogLevel::Verbose);
    let contents = contents(&[logger.info("t", "x", NOW)]);
    let line = contents.lines().next().unwrap();
    assert!(line.starts_with('['));
    let ts_end = line.find(']').unwrap();
    let ts = &line[1..ts_end];
    assert_eq!(ts.len(), 19, "timestamp should be 19 chars: {ts}");
    assert_eq!(&ts[4..5], "-");
    assert_eq!(&ts[7..8], "-");
    assert_eq!(&ts[10..11], " ");
    assert_eq!(&ts[13..14], ":");
    assert_eq!(&ts[16..17], ":");
}

#[test]
fn timestamp_at_the_epoch_and_before_midnight() {
    assert_eq!(format_timestamp(0), "1970-01-01 00:00:00");
    assert_eq!(format_timestamp(86399), "1970-01-01 23:59:59");
}

#[test]
fn default_path_ends_with_expected_filename() {
    let path = Logger::default_path(Some("C:\\Users\\me\\AppData\\Local".to_string()), None, None);
    assert!(path.ends_with("addin_debug.log"));
}

#[test]
fn default_path_contains_spambayes_dir() {
    let path_str =
        Logger::default_path(Some("C:\\Users\\me\\AppData\\Local".to_string()), None, None);
    assert!(
        path_str.contains("SpamBayes"),
        "default path should contain 'SpamBayes': {path_str}"
    );
}

#[test]
fn default_path_takes_the_first_directory_that_is_set() {
    let dir = |name: &str| Some(name.to_string());
    let path = |local: Option<String>, temp: Option<String>, tmp: Option<String>| {
        Logger::default_path(local, temp, tmp)
    };
    assert_eq!(path(dir("a"), dir("b"), dir("c")), "a\\SpamBayes\\addin_debug.log");
    assert_eq!(path(None, dir("b"), dir("c")), "b\\addin_debug.log");
    assert_eq!(path(None, None, dir("c")), "c\\addin_debug.log");
    assert_eq!(path(None, None, None), ".\\addin_debug.log");
}
