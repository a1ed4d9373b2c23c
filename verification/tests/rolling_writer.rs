use chrono::{Datelike, Duration, NaiveDate};
use matrix_sdk_ffi::rolling_writer::{CivilTime, DirEntry, LogFile, Rotation, WriterConfig};

const SECOND: i128 = 1_000_000_000;

fn config(prefix: &str, rotation: Rotation, max_total_size_bytes: u64) -> WriterConfig {
    WriterConfig {
        file_prefix: prefix.to_owned(),
        file_suffix: ".log".to_owned(),
        rotation,
        max_total_size_bytes,
        max_age_seconds: 7 * 24 * 60 * 60,
    }
}

fn entry(name: &str, modified: i128, size: u64) -> DirEntry {
    DirEntry {
        name: Some(name.to_owned()),
        is_file: true,
        modified: Some(modified),
        size: Some(size),
    }
}

fn names(files: &[LogFile]) -> Vec<&str> {
    files.iter().map(|file| file.name.as_str()).collect()
}

fn time(year: i32, month: u32, day: u32, hour: u32, minute: u32) -> CivilTime {
    CivilTime { year, month, day, hour, minute }
}

fn log_files(config: &WriterConfig, entries: &Vec<DirEntry>) -> Vec<LogFile> {
    config.matching_log_files(entries).ok().unwrap()
}

#[test]
fn timestamps_of_the_periods() {
    let at = time(2024, 1, 15, 14, 7);
    for (rotation, timestamp) in [
        (Rotation::Minutely, "2024-01-15-14-07"),
        (Rotation::Hourly, "2024-01-15-14"),
        (Rotation::Daily, "2024-01-15"),
        (Rotation::Weekly, "2024-W03"),
        (Rotation::Never, "2024-W03"),
    ] {
        let config = config("app", rotation, 1);
        assert_eq!(config.format_rotation_timestamp(at).as_deref(), Some(timestamp));
    }
    let config = config("app", Rotation::Daily, 1);
    assert_eq!(config.format_rotation_timestamp(time(2023, 2, 29, 0, 0)), None);
    assert_eq!(
        config.format_rotation_timestamp(time(7, 3, 4, 0, 0)).as_deref(),
        Some("0007-03-04")
    );
}

#[test]
fn weeks_belong_to_the_year_of_their_thursday() {
    let config = config("app", Rotation::Weekly, 1);
    for (year, month, day, timestamp) in [
        (2020, 12, 31, "2020-W53"),
        (2021, 1, 1, "2020-W53"),
        (2021, 1, 3, "2020-W53"),
        (2021, 1, 4, "2021-W01"),
        (2024, 12, 29, "2024-W52"),
        (2024, 12, 30, "2025-W01"),
    ] {
        let at = time(year, month, day, 12, 0);
        assert_eq!(config.format_rotation_timestamp(at).as_deref(), Some(timestamp));
    }

    // A day is in the week of the day before, unless it is a Monday.
    let mut date = NaiveDate::from_ymd_opt(1999, 1, 1).unwrap();
    let stamp = |date: NaiveDate| {
        config.format_rotation_timestamp(time(date.year(), date.month(), date.day(), 0, 0)).unwrap()
    };
    let mut last = stamp(date);
    for _ in 0..12_000 {
        date += Duration::days(1);
        let next = stamp(date);
        let day_number = date.num_days_from_ce() - 1;
        assert_eq!(next == last, day_number % 7 != 0);
        assert_eq!(next, format!("{:04}-W{:02}", date.iso_week().year(), date.iso_week().week()));
        last = next;
    }
}

#[test]
fn test_rotation_file_naming() {
    let config = config("app", Rotation::Hourly, 10 * 1024 * 1024);
    let timestamp = config.format_rotation_timestamp(time(2024, 1, 15, 14, 7)).unwrap();
    let name = config.rotate(None, false, &timestamp).unwrap();
    assert_eq!(name, "app.2024-01-15-14.log");
    assert!(name.starts_with("app."), "Filename should start with prefix: {}", name);
    assert!(name.ends_with(".log"), "Filename should end with suffix: {}", name);
    assert_eq!(config.extract_timestamp(&name), Some(timestamp));
}

#[test]
fn test_prefix_suffix_filtering() {
    let config = config("app", Rotation::Hourly, 10 * 1024 * 1024);
    let entries = vec![
        entry("other.txt", 0, 9),
        entry("app.txt", 0, 12),
        entry("test.log", 0, 12),
        entry("app.2024-01-15-14.log", 0, 13),
    ];
    assert_eq!(names(&log_files(&config, &entries)), ["app.2024-01-15-14.log"]);
}

#[test]
fn only_files_with_a_name_are_listed() {
    let config = config("app", Rotation::Hourly, 1);
    let mut directory = entry("app.directory.log", 0, 1);
    directory.is_file = false;
    directory.size = None;
    let mut nameless = entry("app.nameless.log", 0, 1);
    nameless.name = None;
    nameless.modified = None;
    let mut other = entry("other.txt", 0, 1);
    other.modified = None;
    let entries = vec![
        directory,
        nameless,
        other,
        entry("app.b.log", 2, 1),
        entry("app.a.log", 1, 1),
        entry("app.c.log", 1, 1),
    ];
    assert_eq!(names(&log_files(&config, &entries)), ["app.a.log", "app.c.log", "app.b.log"]);
}

#[test]
fn unreadable_metadata_is_an_error() {
    let config = config("app", Rotation::Hourly, 1);
    let mut timeless = entry("app.timeless.log", 0, 1);
    timeless.modified = None;
    let mut sizeless = entry("app.sizeless.log", 0, 1);
    sizeless.size = None;
    let entries = vec![entry("app.a.log", 1, 1), sizeless, timeless];
    let error = config.matching_log_files(&entries).err().unwrap();
    assert_eq!(error.name, "app.sizeless.log");
    let error = config.matching_log_files(&entries.into_iter().skip(2).collect()).err().unwrap();
    assert_eq!(error.name, "app.timeless.log");
}

#[test]
fn test_total_size_limit_removes_oldest_files() {
    let config = config("total", Rotation::Minutely, 200);
    let entries = vec![
        entry("total.2024-01-01-10-00.log", 10, 80),
        entry("total.2024-01-01-10-01.log", 20, 80),
        entry("total.2024-01-01-10-02.log", 30, 80),
        entry("total.2024-01-15-14-07.log", 40, 0),
    ];
    let files = log_files(&config, &entries);
    let removed = config.enforce_total_size_limit(&files, "total.2024-01-15-14-07.log");
    assert_eq!(removed, ["total.2024-01-01-10-00.log"]);
}

#[test]
fn test_total_size_limit_with_multiple_old_files() {
    let config = config("multi", Rotation::Minutely, 100);
    let mut entries: Vec<_> = (0..5)
        .map(|i| entry(&format!("multi.2024-01-01-10-0{}.log", i), i, 50))
        .collect();
    entries.push(entry("multi.2024-01-15-14-07.log", 9, 0));
    let files = log_files(&config, &entries);
    let removed = config.enforce_total_size_limit(&files, "multi.2024-01-15-14-07.log");
    assert_eq!(
        removed,
        [
            "multi.2024-01-01-10-00.log",
            "multi.2024-01-01-10-01.log",
            "multi.2024-01-01-10-02.log"
        ]
    );
}

#[test]
fn the_current_file_stays() {
    let config = config("app", Rotation::Daily, 10);
    let files = log_files(&config, &vec![
        entry("app.a.log", 1, 100),
        entry("app.b.log", 2, 100),
    ]);
    assert_eq!(config.enforce_total_size_limit(&files, "app.a.log"), ["app.b.log"]);
    let now = 1_000_000 * SECOND;
    assert_eq!(config.trim_old_logs(&files, "app.a.log", now), ["app.b.log"]);
}

#[test]
fn nothing_goes_within_the_limit() {
    let config = config("app", Rotation::Daily, 100);
    let files = log_files(&config, &vec![entry("app.a.log", 1, 60), entry("app.b.log", 2, 40)]);
    assert!(config.enforce_total_size_limit(&files, "app.b.log").is_empty());
}

#[test]
fn old_files_go() {
    let config = config("old", Rotation::Hourly, 10);
    let age = 7 * 24 * 60 * 60 * SECOND;
    let now = 100 * age;
    let files = log_files(&config, &vec![
        entry("old.a.log", now - age - SECOND, 1),
        entry("old.b.log", now - age - SECOND + 1, 1),
        entry("old.c.log", now - age, 1),
        entry("old.d.log", now + age, 1),
    ]);
    assert_eq!(config.trim_old_logs(&files, "old.e.log", now), ["old.a.log"]);
}

#[test]
fn files_roll_over_with_the_period() {
    let config = config("app", Rotation::Daily, 1);
    let current = config.log_file_name("2024-01-15");
    assert!(!config.should_rotate_by_time(&current, "2024-01-15"));
    assert!(config.should_rotate_by_time(&current, "2024-01-16"));
    assert!(config.should_rotate_by_time("odd", "2024-01-15"));
    assert_eq!(config.rotate(Some(&current), true, "2024-01-15"), None);
    assert_eq!(
        config.rotate(Some(&current), false, "2024-01-15"),
        Some("app.2024-01-15.log".to_owned())
    );
    assert_eq!(
        config.rotate(Some(&current), true, "2024-01-16"),
        Some("app.2024-01-16.log".to_owned())
    );
    assert_eq!(
        config.rotate(None, true, "2024-01-16"),
        Some("app.2024-01-16.log".to_owned())
    );
}
