use dirscan::greet;
use dirscan::logging::format_log_line;
use dirscan::logging::format_timestamp;
use dirscan::logging::log_dir_for;
use dirscan::logging::log_file_path;
use dirscan::logging::log_written_message;
use dirscan::logging::prepare_log_entry;
use dirscan::logging::LocalTime;
use dirscan::read_failure_message;
use dirscan::sysinfo::build_system_info;
use dirscan::text::u64_to_string;

fn stamp(year: i32, month: u32, day: u32, hour: u32, minute: u32, second: u32) -> LocalTime {
    LocalTime { year, month, day, hour, minute, second }
}

#[test]
fn greet_wraps_the_name() {
    assert_eq!(greet("World"), "Hello, World! You've been greeted from Rust!");
    assert_eq!(greet(""), "Hello, ! You've been greeted from Rust!");
}

#[test]
fn read_failure_message_names_the_cause() {
    assert_eq!(read_failure_message("permission denied"), "failed to read file: permission denied");
}

#[test]
fn decimal_rendering_is_exact() {
    assert_eq!(u64_to_string(0), "0");
    assert_eq!(u64_to_string(7), "7");
    assert_eq!(u64_to_string(42), "42");
    assert_eq!(u64_to_string(1700000000), "1700000000");
    assert_eq!(u64_to_string(u64::MAX), "18446744073709551615");
}

#[test]
fn timestamp_is_zero_padded() {
    assert_eq!(format_timestamp(&stamp(2024, 1, 5, 9, 3, 7)), "2024-01-05 09:03:07");
    assert_eq!(format_timestamp(&stamp(999, 12, 31, 23, 59, 59)), "0999-12-31 23:59:59");
}

#[test]
fn log_line_has_bracketed_stamp_and_newline() {
    let line = format_log_line(&stamp(2024, 1, 5, 9, 3, 7), "hello");
    assert_eq!(line, "[2024-01-05 09:03:07] hello\n");
}

#[test]
fn two_log_lines_append_in_order() {
    let first = format_log_line(&stamp(2024, 1, 5, 9, 3, 7), "first");
    let second = format_log_line(&stamp(2024, 1, 5, 9, 3, 8), "second");
    let mut log = String::new();
    log.push_str(&first);
    log.push_str(&second);
    let lines: Vec<&str> = log.lines().collect();
    assert_eq!(lines.len(), 2);
    assert_eq!(lines[0], "[2024-01-05 09:03:07] first");
    assert_eq!(lines[1], "[2024-01-05 09:03:08] second");
    assert!(lines.iter().all(|l| l.starts_with('[') && l.as_bytes()[20] == b']'));
}

#[test]
fn log_paths_follow_the_user() {
    let dir = log_dir_for("alice");
    assert_eq!(dir, "/Users/alice/.system_logs");
    assert_eq!(log_file_path(&dir), "/Users/alice/.system_logs/activity.log");
    assert_eq!(
        log_written_message("/Users/alice/.system_logs/activity.log"),
        "log written: /Users/alice/.system_logs/activity.log"
    );
}

#[test]
fn prepared_entry_is_consistent() {
    let entry = prepare_log_entry("bob", "did a thing");
    assert_eq!(entry.dir, "/Users/bob/.system_logs");
    assert_eq!(entry.file, "/Users/bob/.system_logs/activity.log");
    assert_eq!(entry.line, format_log_line(&entry.stamp, "did a thing"));
    assert!(entry.line.starts_with('['));
    assert!(entry.line.ends_with('\n'));
}

#[test]
fn clock_stamp_is_well_formed() {
    let entry = prepare_log_entry("t", "m");
    let s = entry.stamp;
    assert!((1..=12).contains(&s.month));
    assert!((1..=31).contains(&s.day));
    assert!(s.hour <= 23);
    assert!(s.minute <= 59);
    assert!(s.second <= 59);
}

#[test]
fn system_info_keeps_host_answers() {
    let info = build_system_info(
        "Linux".to_string(),
        "x86_64".to_string(),
        Some("box".to_string()),
        Some("alice".to_string()),
        Some("/usr/bin/app".to_string()),
        Some(123),
    );
    assert_eq!(info.os, "Linux");
    assert_eq!(info.arch, "x86_64");
    assert_eq!(info.hostname, "box");
    assert_eq!(info.username, "alice");
    assert_eq!(info.app_path, "/usr/bin/app");
    assert_eq!(info.timestamp, "123");
    assert_eq!(info.memory_info, "Memory info not available");
}

#[test]
fn system_info_falls_back_to_unknown() {
    let info = build_system_info("macOS".to_string(), "ARM64".to_string(), None, None, None, None);
    assert_eq!(info.hostname, "Unknown");
    assert_eq!(info.username, "Unknown");
    assert_eq!(info.app_path, "Unknown");
    assert_eq!(info.timestamp, "Unknown");
    assert_eq!(info.memory_info, "macOS Memory Info Available");
}
