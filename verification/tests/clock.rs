use se_logger::clock::{current_time_fmt, Moment, MAX_SECS};

fn at(secs: i64, nanos: u32, offset: i32) -> Moment {
    match Moment::new(secs, nanos, offset) {
        Some(m) => m,
        None => panic!("not an instant: {} {} {}", secs, nanos, offset),
    }
}

fn is_clock(text: &str) -> bool {
    let b = text.as_bytes();
    b.len() == 8
        && b[2] == b':'
        && b[5] == b':'
        && [0usize, 1, 3, 4, 6, 7].iter().all(|&i| b[i].is_ascii_digit())
}

#[test]
fn moment_bounds() {
    assert!(Moment::new(0, 0, 0).is_some());
    assert!(Moment::new(MAX_SECS, 999_999_999, 86_399).is_some());
    assert!(Moment::new(0, 0, -86_399).is_some());
    assert!(Moment::new(-1, 0, 0).is_none());
    assert!(Moment::new(MAX_SECS + 1, 0, 0).is_none());
    assert!(Moment::new(0, 1_000_000_000, 0).is_none());
    assert!(Moment::new(0, 0, 86_400).is_none());
    assert!(Moment::new(0, 0, -86_400).is_none());
}

#[test]
fn max_secs_is_the_end_of_the_last_year() {
    assert_eq!(MAX_SECS, 8_210_266_876_799);
    assert_eq!(
        at(MAX_SECS, 0, 0).format("%Y-%m-%d %H:%M:%S"),
        Some("+262142-12-31 23:59:59".to_string())
    );
    assert_eq!(at(MAX_SECS, 0, 86_399).format("%T"), Some("23:59:58".to_string()));
}

#[test]
fn pattern_without_specifier_is_kept() {
    let m = at(1_662_100_064, 0, 0);
    assert_eq!(m.format("plainname.log"), Some("plainname.log".to_string()));
    assert_eq!(m.format(""), Some(String::new()));
    assert_eq!(m.format("a b\tc\n d"), Some("a b\tc\n d".to_string()));
    assert_eq!(m.format("журнал.log"), Some("журнал.log".to_string()));
    assert_eq!(at(MAX_SECS, 999_999_999, -86_399).format("x.log"), Some("x.log".to_string()));
}

#[test]
fn pattern_expands_at_the_instant() {
    let m = at(1_662_100_064, 0, 0);
    assert_eq!(
        m.format("log_%F_%H-%M-%S.log"),
        Some("log_2022-09-02_06-27-44.log".to_string())
    );
    assert_eq!(m.format("%Y%m%d"), Some("20220902".to_string()));
    assert_eq!(m.format("%a %j"), Some("Fri 245".to_string()));
    assert_eq!(m.format("100%%"), Some("100%".to_string()));
}

#[test]
fn pattern_expands_in_local_time() {
    let m = at(1_662_100_064, 0, 9 * 3600 + 1800);
    assert_eq!(m.format("%F %T %z"), Some("2022-09-02 15:57:44 +0930".to_string()));
    let m = at(1_662_100_064, 0, -7 * 3600);
    assert_eq!(m.format("%F %T %:z"), Some("2022-09-01 23:27:44 -07:00".to_string()));
}

#[test]
fn pattern_sees_the_nanoseconds() {
    let m = at(1_662_100_064, 26_490_000, 0);
    assert_eq!(m.format("%S%.3f"), Some("44.026".to_string()));
}

#[test]
fn unknown_specifier_gives_no_expansion() {
    let m = at(1_662_100_064, 0, 0);
    assert_eq!(m.format("%Q"), None);
    assert_eq!(m.format("log_%"), None);
    assert_eq!(m.format("%F_%!"), None);
}

#[test]
fn clock_is_hour_minute_second() {
    assert_eq!(at(0, 0, 0).clock_string(), "00:00:00");
    assert_eq!(at(86_399, 0, 0).clock_string(), "23:59:59");
    assert_eq!(at(1_662_100_064, 0, 0).clock_string(), "06:27:44");
    assert_eq!(at(1_700_000_000, 999_999_999, 0).clock_string(), "22:13:20");
    assert_eq!(at(45_296, 0, 0).clock_string(), "12:34:56");
}

#[test]
fn clock_follows_the_offset() {
    assert_eq!(at(1_662_100_064, 0, 3600).clock_string(), "07:27:44");
    assert_eq!(at(0, 0, -3600).clock_string(), "23:00:00");
    assert_eq!(at(0, 0, -1).clock_string(), "23:59:59");
    assert_eq!(at(86_399, 0, 1).clock_string(), "00:00:00");
    assert_eq!(at(1_662_100_064, 0, 86_399).clock_string(), "06:27:43");
    assert_eq!(at(1_662_100_064, 0, -86_399).clock_string(), "06:27:45");
    assert_eq!(at(1_662_100_064, 0, 5 * 3600 + 45 * 60).format("%T"), Some("12:12:44".to_string()));
}

#[test]
fn current_time_keeps_plain_text() {
    assert_eq!(current_time_fmt("plainname.log"), Some("plainname.log".to_string()));
}

#[test]
fn current_time_of_day_has_the_clock_shape() {
    let now = current_time_fmt("%T");
    assert!(matches!(&now, Some(t) if is_clock(t)), "{:?}", now);
}

#[test]
fn current_time_with_unknown_specifier_is_none() {
    assert_eq!(current_time_fmt("%Q"), None);
}

#[test]
fn current_time_expands_a_date_pattern() {
    let name = match current_time_fmt("log_%F.log") {
        Some(n) => n,
        None => panic!("no expansion"),
    };
    assert!(name.starts_with("log_"));
    assert!(name.ends_with(".log"));
    assert!(!name.contains('%'));
    assert!(name.len() >= "log_1970-01-01.log".len());
}
