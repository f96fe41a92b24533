use wuwa_downloader::progress::{
    bytes_to_human, format_duration, report_tick, title_line, track_progress,
};
use wuwa_downloader::text::{chars_to_string, str_to_chars, u64_to_dec, u64_to_pad2};

#[test]
fn decimal_rendering() {
    assert_eq!(u64_to_dec(0), "0");
    assert_eq!(u64_to_dec(7), "7");
    assert_eq!(u64_to_dec(1234567890), "1234567890");
    assert_eq!(u64_to_dec(u64::MAX), "18446744073709551615");
}

#[test]
fn padded_rendering() {
    assert_eq!(u64_to_pad2(0), "00");
    assert_eq!(u64_to_pad2(5), "05");
    assert_eq!(u64_to_pad2(42), "42");
    assert_eq!(u64_to_pad2(123), "123");
}

#[test]
fn chars_round_trip() {
    let v = str_to_chars("a\\b/c.bin");
    assert_eq!(v.len(), 9);
    assert_eq!(chars_to_string(&v), "a\\b/c.bin");
}

#[test]
fn duration_formatting() {
    assert_eq!(format_duration(0), "00:00:00");
    assert_eq!(format_duration(3661), "01:01:01");
    assert_eq!(format_duration(359999), "99:59:59");
    assert_eq!(format_duration(360000), "100:00:00");
}

#[test]
fn human_bytes_plain() {
    assert_eq!(bytes_to_human(0), "0 B");
    assert_eq!(bytes_to_human(999), "999 B");
    assert_eq!(bytes_to_human(1000), "1000 B");
}

#[test]
fn human_bytes_scaled() {
    assert_eq!(bytes_to_human(1500), "1.50 KB");
    assert_eq!(bytes_to_human(2_500_000), "2.50 MB");
    assert_eq!(bytes_to_human(1_234_567_890), "1.23 GB");
    assert_eq!(bytes_to_human(500_000), "500.00 KB");
}

#[test]
fn tracker_starts_clean() {
    let t = track_progress(12345);
    assert!(!t.should_stop);
    assert_eq!(t.success, 0);
    assert_eq!(t.progress.total_bytes, 12345);
    assert_eq!(t.progress.downloaded_bytes, 0);
}

#[test]
fn counters_accumulate() {
    let mut t = track_progress(0);
    t.add_expected_bytes(100);
    t.add_expected_bytes(50);
    t.record_bytes(30);
    t.record_bytes(70);
    t.record_success();
    assert_eq!(t.progress.total_bytes, 150);
    assert_eq!(t.progress.downloaded_bytes, 100);
    assert_eq!(t.success, 1);
    t.request_stop();
    assert!(t.should_stop);
    assert_eq!(t.progress.downloaded_bytes, 100);
}

#[test]
fn counters_saturate_instead_of_wrapping() {
    let mut t = track_progress(u64::MAX - 1);
    t.add_expected_bytes(10);
    assert_eq!(t.progress.total_bytes, u64::MAX);
    t.record_bytes(u64::MAX);
    t.record_bytes(u64::MAX);
    assert_eq!(t.progress.downloaded_bytes, u64::MAX);
}

#[test]
fn thousand_interleaved_increments_are_not_lost() {
    let mut t = track_progress(10_000);
    for i in 0..1000u64 {
        t.record_bytes(3);
        if i % 10 == 9 {
            t.record_success();
        }
    }
    assert_eq!(t.progress.downloaded_bytes, 3000);
    assert_eq!(t.success, 100);
    assert_eq!(t.progress.total_bytes, 10_000);
}

#[test]
fn tick_figures() {
    let r = report_tick(500_000, 1_000_000, 1, 4, 10);
    assert_eq!(r.speed, 50_000);
    assert!(!r.speed_is_mb);
    assert_eq!(r.speed_value, 50);
    assert_eq!(r.remaining_bytes, 500_000);
    assert_eq!(r.eta_secs, 10);
    assert_eq!(r.percent, Some(50));
}

#[test]
fn tick_with_no_elapsed_time_has_no_speed() {
    let r = report_tick(500, 1000, 0, 1, 0);
    assert_eq!(r.speed, 0);
    assert_eq!(r.eta_secs, 0);
    assert_eq!(r.percent, Some(50));
}

#[test]
fn tick_with_unknown_total_has_no_percent() {
    let r = report_tick(500, 0, 0, 1, 1);
    assert_eq!(r.percent, None);
    assert_eq!(r.remaining_bytes, 0);
}

#[test]
fn tick_with_all_files_done_has_no_eta() {
    let r = report_tick(100, 1_000_000, 3, 3, 1);
    assert_eq!(r.speed, 100);
    assert_eq!(r.eta_secs, 0);
}

#[test]
fn title_line_rendering() {
    let s = title_line(500_000, 1_000_000, 1, 4, 10);
    assert_eq!(
        s,
        "Wuthering Waves Downloader - 1/4 files - Total Downloaded: 500.00 KB (50%) - Speed: 50KB/s - Total ETA: 00:00:10"
    );
}

#[test]
fn title_line_without_total() {
    let s = title_line(2_000, 0, 0, 2, 0);
    assert_eq!(
        s,
        "Wuthering Waves Downloader - 0/2 files - Total Downloaded: 2.00 KB - Speed: 0KB/s - Total ETA: 00:00:00"
    );
}
