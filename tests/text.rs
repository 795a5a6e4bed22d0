use chronos::history::HistoryEntry;
use chronos::phase::Phase;
use chronos::text::{decimal_string, format_seconds};

#[test]
fn format_seconds_pads_each_field() {
    assert_eq!(format_seconds(0), "00:00:00");
    assert_eq!(format_seconds(3725), "01:02:05");
    assert_eq!(format_seconds(1500), "00:25:00");
    assert_eq!(format_seconds(86399), "23:59:59");
}

#[test]
fn format_seconds_long_hours() {
    assert_eq!(format_seconds(360_000), "100:00:00");
    assert_eq!(format_seconds(u32::MAX), "1193046:28:15");
}

#[test]
fn decimal_string_values() {
    assert_eq!(decimal_string(0), "0");
    assert_eq!(decimal_string(7), "7");
    assert_eq!(decimal_string(10), "10");
    assert_eq!(decimal_string(4_294_967_295), "4294967295");
}

#[test]
fn history_entry_display() {
    let w = HistoryEntry { kind: Phase::Work, duration_seconds: 1500 };
    let b = HistoryEntry { kind: Phase::LongBreak, duration_seconds: 900 };
    assert_eq!(w.label_key(), "pomodoro");
    assert_eq!(b.label_key(), "pause");
    assert_eq!(w.duration_text(), "00:25:00");
    assert_eq!(b.duration_text(), "00:15:00");
}
