use on_blast::text::{format_time, truncate_label};

#[test]
fn format_time_pads_seconds() {
    assert_eq!(format_time(0), "0:00");
    assert_eq!(format_time(5_000_000), "0:05");
    assert_eq!(format_time(65_000_000), "1:05");
    assert_eq!(format_time(600_000_000), "10:00");
}

#[test]
fn truncate_label_appends_ellipsis_only_when_cut() {
    assert_eq!(truncate_label("hello", 10), "hello");
    assert_eq!(truncate_label("hello", 5), "hello");
    assert_eq!(truncate_label("hello world", 5), "hello\u{2026}");
}

#[test]
fn truncate_label_counts_chars_not_bytes() {
    // Multi-byte chars count as one each and must not be split.
    assert_eq!(truncate_label("héllo wörld", 5), "héllo\u{2026}");
}

#[test]
fn a_time_shows_the_whole_second() {
    assert_eq!(format_time(64_999_999), "1:04");
    assert_eq!(format_time(65_000_000), format_time(65_999_999));
    assert_ne!(format_time(65_000_000), format_time(66_000_000));
    assert_eq!(format_time(u64::MAX), "307445734561:49");
}

#[test]
fn a_label_is_cut_once() {
    let once = truncate_label("hello world", 5);
    assert_eq!(truncate_label(&once, 5), once);
    assert_eq!(truncate_label("hello", 0), "\u{2026}");
    assert_eq!(truncate_label("", 0), "");
}
