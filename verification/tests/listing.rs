use dirlist::digits::u64_to_string;
use dirlist::listing::{list, ListError};
use dirlist::record::{classify, DisplayRecord, EntryMeta, FileKind};

// 2023-03-05T09:03:00Z
const MARCH_FIFTH: u64 = 1678006980;

fn entry(name: &str, secs: u64, size: u64, is_file: bool) -> EntryMeta {
    EntryMeta { name: name.to_string(), secs, size, is_file }
}

#[test]
fn report_and_hidden_git() {
    let entries = vec![
        Some(entry("report.txt", MARCH_FIFTH, 120, true)),
        Some(entry(".git", MARCH_FIFTH, 0, false)),
    ];
    let records = list(Some(entries)).unwrap();
    assert_eq!(records.len(), 2);
    let lines: Vec<String> = records.iter().map(|r| r.render_line()).collect();
    assert!(lines.contains(&"report.txt 5 March 9:3 120".to_string()));
    assert!(lines.contains(&".git 5 March 9:3 0".to_string()));
}

#[test]
fn one_record_per_entry() {
    let entries = vec![
        Some(entry("a", 0, 1, true)),
        None,
        Some(entry("b", MARCH_FIFTH, 2, false)),
    ];
    let records = list(Some(entries)).unwrap();
    assert_eq!(records.len(), 3);
}

#[test]
fn hidden_names_classify_hidden() {
    assert_eq!(classify(".git", false), FileKind::HiddenDirectory);
    assert_eq!(classify(".bashrc", true), FileKind::HiddenRegular);
    assert_eq!(classify("src", false), FileKind::Directory);
    assert_eq!(classify("report.txt", true), FileKind::Regular);
    assert_eq!(classify("", true), FileKind::Regular);
    assert_eq!(classify("", false), FileKind::Directory);
}

#[test]
fn time_is_never_zero_padded() {
    let r = DisplayRecord::from_entry(&entry("x", MARCH_FIFTH, 0, true));
    assert_eq!(r.time.as_str(), "9:3");
    let midnight = DisplayRecord::from_entry(&entry("x", 0, 0, true));
    assert_eq!(midnight.time.as_str(), "0:0");
}

#[test]
fn epoch_renders_first_of_january() {
    let r = DisplayRecord::from_entry(&entry("x", 0, 0, true));
    assert_eq!(r.date.as_str(), "1 January");
    assert_eq!(r.time.as_str(), "0:0");
}

#[test]
fn leap_day_renders_february() {
    // 2024-02-29T12:30:00Z
    let r = DisplayRecord::from_entry(&entry("x", 1709209800, 0, true));
    assert_eq!(r.date.as_str(), "29 February");
    assert_eq!(r.time.as_str(), "12:30");
}

#[test]
fn september_renders_full_name() {
    // 2023-09-05T12:00:00Z
    let r = DisplayRecord::from_entry(&entry("x", 1693915200, 0, true));
    assert_eq!(r.date.as_str(), "5 September");
    assert_eq!(r.time.as_str(), "12:0");
}

#[test]
fn last_supported_second() {
    // 9999-12-31T23:59:59Z, the largest timestamp the library accepts.
    let r = DisplayRecord::from_entry(&entry(
        "x",
        dirlist::calendar::MAX_TIMESTAMP_SECS,
        0,
        true,
    ));
    assert_eq!(r.date.as_str(), "31 December");
    assert_eq!(r.time.as_str(), "23:59");
}

#[test]
fn unreadable_entry_gets_placeholder() {
    let records = list(Some(vec![None])).unwrap();
    assert_eq!(records.len(), 1);
    assert_eq!(records[0].name.as_str(), "");
    assert_eq!(records[0].date.as_str(), "");
    assert_eq!(records[0].time.as_str(), "");
    assert_eq!(records[0].size, 0);
    assert_eq!(records[0].kind, FileKind::Regular);
    assert_eq!(records[0].render_line(), "   0");
}

#[test]
fn open_failure_is_fatal() {
    match list(None) {
        Err(e) => assert_eq!(e, ListError::FatalIo),
        Ok(_) => panic!("an unopenable directory must not yield records"),
    }
}

#[test]
fn listing_twice_is_idempotent() {
    let build = || {
        vec![
            Some(entry(".git", MARCH_FIFTH, 0, false)),
            None,
            Some(entry("report.txt", MARCH_FIFTH, 120, true)),
        ]
    };
    let first = list(Some(build())).unwrap();
    let second = list(Some(build())).unwrap();
    assert_eq!(first.len(), second.len());
    for (a, b) in first.iter().zip(second.iter()) {
        assert_eq!(a.render_line(), b.render_line());
        assert_eq!(a.kind, b.kind);
    }
}

#[test]
fn decimal_rendering() {
    assert_eq!(u64_to_string(0), "0");
    assert_eq!(u64_to_string(7), "7");
    assert_eq!(u64_to_string(10), "10");
    assert_eq!(u64_to_string(120), "120");
    assert_eq!(u64_to_string(u64::MAX), "18446744073709551615");
}

#[test]
fn render_line_layout() {
    let r = DisplayRecord::from_entry(&entry("report.txt", MARCH_FIFTH, 120, true));
    assert_eq!(r.render_line(), "report.txt 5 March 9:3 120");
}

#[test]
fn color_grouping_by_kind() {
    let dir = DisplayRecord::from_entry(&entry("src", 0, 0, false));
    let hidden_dir = DisplayRecord::from_entry(&entry(".git", 0, 0, false));
    let file = DisplayRecord::from_entry(&entry("a.txt", 0, 0, true));
    let hidden_file = DisplayRecord::from_entry(&entry(".bashrc", 0, 0, true));
    assert!(dir.uses_directory_color());
    assert!(hidden_dir.uses_directory_color());
    assert!(!file.uses_directory_color());
    assert!(!hidden_file.uses_directory_color());
    assert!(!DisplayRecord::placeholder().uses_directory_color());
}
