use se_logger::severity::{is_valid_level, level_to_string};
use se_logger::settings::{
    get_log_level, get_log_path, parse_level, set_log_level, set_log_path, Settings,
};
use se_logger::{DEBUG, ERROR, FATAL, INFO, TRACE, WARNING};

#[test]
fn severities_are_numbered_from_fatal_to_trace() {
    assert_eq!(FATAL, 0);
    assert_eq!(ERROR, 1);
    assert_eq!(WARNING, 2);
    assert_eq!(INFO, 3);
    assert_eq!(DEBUG, 4);
    assert_eq!(TRACE, 5);
}

#[test]
fn level_names() {
    assert_eq!(level_to_string(TRACE), "TRACE");
    assert_eq!(level_to_string(DEBUG), "DEBUG");
    assert_eq!(level_to_string(INFO), "INFO");
    assert_eq!(level_to_string(WARNING), "WARNING");
    assert_eq!(level_to_string(ERROR), "ERROR");
    assert_eq!(level_to_string(FATAL), "FATAL");
}

#[test]
fn level_name_of_no_severity_is_empty() {
    assert_eq!(level_to_string(6), "");
    assert_eq!(level_to_string(u32::MAX), "");
}

#[test]
fn valid_levels_are_zero_to_five() {
    for level in 0u32..=5 {
        assert!(is_valid_level(level));
    }
    assert!(!is_valid_level(6));
    assert!(!is_valid_level(u32::MAX));
}

#[test]
fn parse_level_reads_decimal_numbers() {
    assert_eq!(parse_level("0"), Some(0));
    assert_eq!(parse_level("3"), Some(3));
    assert_eq!(parse_level("17"), Some(17));
    assert_eq!(parse_level("0005"), Some(5));
    assert_eq!(parse_level("+4"), Some(4));
    assert_eq!(parse_level("4294967295"), Some(u32::MAX));
    assert_eq!(parse_level("000000000000000000000000042"), Some(42));
}

#[test]
fn parse_level_rejects_what_is_no_number() {
    assert_eq!(parse_level(""), None);
    assert_eq!(parse_level("+"), None);
    assert_eq!(parse_level("-1"), None);
    assert_eq!(parse_level("++1"), None);
    assert_eq!(parse_level("3+"), None);
    assert_eq!(parse_level(" 3"), None);
    assert_eq!(parse_level("3 "), None);
    assert_eq!(parse_level("3.0"), None);
    assert_eq!(parse_level("INFO"), None);
    assert_eq!(parse_level("\u{663}"), None);
}

#[test]
fn parse_level_rejects_numbers_beyond_u32() {
    assert_eq!(parse_level("4294967296"), None);
    assert_eq!(parse_level("99999999999999999999999999999999"), None);
    assert_eq!(parse_level("18446744073709551616"), None);
    assert_eq!(parse_level("42949672950"), None);
}

#[test]
fn parse_level_agrees_with_std() {
    let samples = vec![
        "", "0", "5", "+5", "-5", "+", "-", "05", "5a", "a5", "4294967295", "4294967296",
        "+4294967295", "+04294967295", "1 ", " 1", "１", "1_000", "0x10", "+-1", "00",
    ];
    for s in samples {
        assert_eq!(parse_level(s), s.parse::<u32>().ok(), "on {:?}", s);
    }
}

#[test]
fn fresh_settings_have_the_defaults() {
    let cfg = Settings::new();
    assert!(cfg.log_path.is_none());
    assert!(cfg.log_level.is_none());
    assert_eq!(get_log_level(&cfg), INFO);
    assert_eq!(get_log_path(&cfg), "unnamed.log");
}

#[test]
fn stored_level_that_does_not_read_defaults_to_info() {
    for stored in vec!["", "verbose", "-1", "4294967296", "3 "] {
        let cfg = Settings { log_path: None, log_level: Some(stored.to_string()) };
        assert_eq!(get_log_level(&cfg), INFO, "on {:?}", stored);
    }
}

#[test]
fn stored_level_is_read_as_it_stands() {
    let cfg = Settings { log_path: None, log_level: Some("17".to_string()) };
    assert_eq!(get_log_level(&cfg), 17);
    let cfg = Settings { log_path: None, log_level: Some("0".to_string()) };
    assert_eq!(get_log_level(&cfg), FATAL);
}

#[test]
fn set_log_level_stores_each_severity() {
    for level in 0u32..=5 {
        let mut cfg = Settings::new();
        set_log_level(&mut cfg, level);
        assert_eq!(cfg.log_level, Some(level.to_string()));
        assert_eq!(get_log_level(&cfg), level);
        assert!(cfg.log_path.is_none());
    }
}

#[test]
fn set_log_level_ignores_what_is_no_severity() {
    let mut cfg = Settings::new();
    set_log_level(&mut cfg, 6);
    assert!(cfg.log_level.is_none());
    assert_eq!(get_log_level(&cfg), INFO);
    set_log_level(&mut cfg, DEBUG);
    set_log_level(&mut cfg, 6);
    assert_eq!(get_log_level(&cfg), DEBUG);
    set_log_level(&mut cfg, u32::MAX);
    assert_eq!(get_log_level(&cfg), DEBUG);
    assert_eq!(cfg.log_level, Some("4".to_string()));
}

#[test]
fn set_log_path_stores_the_path() {
    let mut cfg = Settings::new();
    set_log_level(&mut cfg, ERROR);
    set_log_path(&mut cfg, "logs/run.log");
    assert_eq!(cfg.log_path, Some("logs/run.log".to_string()));
    assert_eq!(get_log_path(&cfg), "logs/run.log");
    assert_eq!(get_log_level(&cfg), ERROR);
    set_log_path(&mut cfg, "");
    assert_eq!(get_log_path(&cfg), "");
}
