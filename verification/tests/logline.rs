use select_monitor::clock::Timestamp;
use select_monitor::logline::{format_line, log_file_name, log_line};

fn at(year: i32, month: u32, day: u32, hour: u32, minute: u32, second: u32) -> Timestamp {
    Timestamp::new(year, month, day, hour, minute, second).expect("the moment exists")
}

fn shape_of(text: &str) -> String {
    text.chars().map(|c| if c.is_ascii_digit() { 'd' } else { c }).collect()
}

#[test]
fn line_is_stamp_in_brackets_then_message() {
    let line = format_line(&at(2024, 3, 9, 14, 5, 7), "Starting SELECT monitor script");
    assert_eq!(line, "[2024-03-09 14:05:07] Starting SELECT monitor script");
}

#[test]
fn line_keeps_the_message_as_it_is() {
    let stamp = at(2025, 11, 30, 0, 0, 0);
    assert_eq!(format_line(&stamp, ""), "[2025-11-30 00:00:00] ");
    assert_eq!(format_line(&stamp, "  two  spaces "), "[2025-11-30 00:00:00]   two  spaces ");
    assert_eq!(format_line(&stamp, "[x] %Y {}"), "[2025-11-30 00:00:00] [x] %Y {}");
    assert_eq!(format_line(&stamp, "é ü 行"), "[2025-11-30 00:00:00] é ü 行");
}

#[test]
fn line_has_no_newline_of_its_own() {
    let line = format_line(&at(2024, 1, 1, 0, 0, 0), "message");
    assert!(!line.contains('\n'));
}

#[test]
fn log_file_is_named_after_the_start_time() {
    assert_eq!(log_file_name(&at(2024, 3, 9, 14, 5, 7)), "select_monitor_20240309_140507.log");
    assert_eq!(log_file_name(&at(1970, 1, 1, 0, 0, 0)), "select_monitor_19700101_000000.log");
}

#[test]
fn log_file_name_matches_the_pattern_in_four_digit_years() {
    for stamp in [at(0, 1, 1, 0, 0, 0), at(999, 2, 28, 1, 2, 3), at(2024, 2, 29, 23, 59, 59),
        at(9999, 12, 31, 23, 59, 59)]
    {
        let name = log_file_name(&stamp);
        assert_eq!(name.len(), 34);
        assert_eq!(shape_of(&name), "select_monitor_dddddddd_dddddd.log");
    }
}

#[test]
fn log_file_name_leaves_the_pattern_in_year_ten_thousand() {
    let name = log_file_name(&at(10000, 1, 1, 0, 0, 0));
    assert_eq!(name, "select_monitor_+100000101_000000.log");
    assert_ne!(shape_of(&name), "select_monitor_dddddddd_dddddd.log");
}

#[test]
fn stamp_has_second_precision_and_nothing_more() {
    let line = format_line(&at(2024, 7, 4, 9, 8, 7), "m");
    assert_eq!(shape_of(&line), "[dddd-dd-dd dd:dd:dd] m");
}

#[test]
fn log_line_stamps_with_the_present_time() {
    let mut compared = false;
    for _ in 0..10 {
        let before = Timestamp::now();
        let line = log_line("SUCCESS: Row count in comments: 42");
        let after = Timestamp::now();
        assert_eq!(shape_of(&line), "[dddd-dd-dd dd:dd:dd] SUCCESS: Row count in comments: dd");
        if before == after {
            assert_eq!(line, format_line(&before, "SUCCESS: Row count in comments: 42"));
            compared = true;
            break;
        }
    }
    assert!(compared);
}

#[test]
fn the_same_line_serves_both_sinks() {
    let stamp = at(2024, 3, 9, 14, 5, 7);
    let line = format_line(&stamp, "ERROR: timed out");
    let mut console: Vec<u8> = Vec::new();
    let mut file: Vec<u8> = Vec::new();
    for sink in [&mut console, &mut file] {
        sink.extend_from_slice(line.as_bytes());
        sink.push(b'\n');
    }
    assert_eq!(console, file);
    assert_eq!(console, b"[2024-03-09 14:05:07] ERROR: timed out\n");
}
