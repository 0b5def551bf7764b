use swiftbar_clocks::config::{CityEntry, Config};
use swiftbar_clocks::render::{assemble, city_line, render, two_digit_str, warning_line};
use swiftbar_clocks::timezone::now_local;

fn city(name: &str, tz: &str) -> CityEntry {
    CityEntry { name: name.to_string(), timezone: tz.to_string() }
}

fn is_city_line(line: &str, name: &str) -> bool {
    let bytes = line.as_bytes();
    line.len() >= 6 + name.len()
        && bytes[0].is_ascii_digit()
        && bytes[1].is_ascii_digit()
        && bytes[2] == b':'
        && bytes[3].is_ascii_digit()
        && bytes[4].is_ascii_digit()
        && bytes[5] == b' '
        && line.ends_with(name)
        && line[0..2].parse::<u32>().unwrap() < 24
        && line[3..5].parse::<u32>().unwrap() < 60
}

#[test]
fn two_digit_str_zero_pads() {
    assert_eq!(two_digit_str(0), "00");
    assert_eq!(two_digit_str(7), "07");
    assert_eq!(two_digit_str(23), "23");
    assert_eq!(two_digit_str(59), "59");
}

#[test]
fn city_line_is_zero_padded_24_hour() {
    assert_eq!(city_line(7, 5, "Oslo"), "07:05 Oslo\n");
    assert_eq!(city_line(23, 59, "Lima"), "23:59 Lima\n");
    assert_eq!(city_line(0, 0, "Tokyo"), "00:00 Tokyo\n");
}

#[test]
fn warning_line_names_timezone_and_city() {
    assert_eq!(
        warning_line("Atlantis", "Atlantis/Sea"),
        "Warning: Invalid timezone 'Atlantis/Sea' for Atlantis"
    );
}

#[test]
fn assemble_joins_header_and_lines() {
    let lines = vec!["a\n".to_string(), "b\n".to_string()];
    assert_eq!(assemble("X", "STAMP", &lines), "X\n---\nSTAMP\na\nb\n");
}

#[test]
fn assemble_with_no_lines_is_header_only() {
    let lines: Vec<String> = vec![];
    assert_eq!(assemble("X", "STAMP", &lines), "X\n---\nSTAMP\n");
}

#[test]
fn invalid_timezone_warns_and_skips() {
    let cfg = Config {
        cities: vec![city("Nowhere", "Not/AZone"), city("London", "Europe/London")],
    };
    let dt = now_local();
    let (out, warnings) = render(&dt, &cfg);
    assert_eq!(warnings.len(), 1);
    assert_eq!(warnings[0], "Warning: Invalid timezone 'Not/AZone' for Nowhere");
    let lines: Vec<&str> = out.lines().collect();
    assert_eq!(lines.len(), 4);
    assert_eq!(lines[1], "---");
    assert!(is_city_line(lines[3], "London"));
}

#[test]
fn empty_city_list_renders_header_only() {
    let cfg = Config { cities: vec![] };
    let dt = now_local();
    let (out, warnings) = render(&dt, &cfg);
    assert_eq!(warnings.len(), 0);
    let lines: Vec<&str> = out.lines().collect();
    assert_eq!(lines.len(), 3);
    assert_eq!(lines[1], "---");
    assert!(!lines[0].is_empty());
    assert!(!lines[2].is_empty());
}

#[test]
fn valid_entries_keep_configured_order() {
    let cfg = Config {
        cities: vec![
            city("London", "Europe/London"),
            city("Tokyo", "Asia/Tokyo"),
            city("New York", "America/New_York"),
        ],
    };
    let dt = now_local();
    let (out, warnings) = render(&dt, &cfg);
    assert_eq!(warnings.len(), 0);
    let lines: Vec<&str> = out.lines().collect();
    assert_eq!(lines.len(), 6);
    assert!(is_city_line(lines[3], "London"));
    assert!(is_city_line(lines[4], "Tokyo"));
    assert!(is_city_line(lines[5], "New York"));
}
