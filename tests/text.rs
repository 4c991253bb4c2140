use mococp::hours::{format_hours, format_snapshot, logged_seconds, Hours, HoursSum};
use mococp::stamp::{adjusted_start, format_marker, format_stamp, render_marker, LocalDateTime};

fn h(micros: i64) -> Hours {
    Hours { micros }
}

fn sum(micros: i128) -> HoursSum {
    HoursSum { micros }
}

fn text(b: Vec<u8>) -> String {
    String::from_utf8(b).unwrap()
}

#[test]
fn hours_text_is_shortest_decimal() {
    assert_eq!(text(format_hours(h(2_000_000))), "2");
    assert_eq!(text(format_hours(h(3_500_000))), "3.5");
    assert_eq!(text(format_hours(h(-250_000))), "-0.25");
    assert_eq!(text(format_hours(h(0))), "0");
    assert_eq!(text(format_hours(h(330_000))), "0.33");
    assert_eq!(text(format_hours(h(10_050_000))), "10.05");
    assert_eq!(text(format_hours(h(1))), "0.000001");
}

#[test]
fn hours_text_of_extremes() {
    assert_eq!(text(format_hours(h(i64::MIN))), "-9223372036854.775808");
    assert_eq!(text(format_hours(h(i64::MAX))), "9223372036854.775807");
}

#[test]
fn snapshot_positive_variation_has_plus() {
    let s = text(format_snapshot(h(3_500_000), sum(7_250_000)));
    assert!(s.starts_with("+3.5"));
    assert_eq!(s, "+3.5 7.25");
}

#[test]
fn snapshot_negative_variation_keeps_minus() {
    let s = text(format_snapshot(h(-2_000_000), sum(0)));
    assert!(s.starts_with("-2"));
    assert_eq!(s, "-2 0");
}

#[test]
fn snapshot_zero_variation_has_no_sign() {
    let s = text(format_snapshot(h(0), sum(8_000_000)));
    assert!(!s.starts_with('+'));
    assert_eq!(s, "0 8");
}

#[test]
fn snapshot_of_a_sum_beyond_i64() {
    let s = text(format_snapshot(h(1), sum(i64::MAX as i128 + 1)));
    assert_eq!(s, "+0.000001 9223372036854.775808");
    let s = text(format_snapshot(h(0), sum(i128::MIN)));
    assert_eq!(s, "0 -170141183460469231731687303715884.105728");
}

#[test]
fn snapshot_is_the_same_bytes_twice() {
    let a = format_snapshot(h(1_250_000), sum(4_500_000));
    let b = format_snapshot(h(1_250_000), sum(4_500_000));
    assert_eq!(a, b);
}

#[test]
fn seconds_round_to_nearest() {
    assert_eq!(logged_seconds(h(1_500_000)), 5_400);
    assert_eq!(logged_seconds(h(510_000)), 1_836);
    assert_eq!(logged_seconds(h(1_010_000)), 3_636);
    assert_eq!(logged_seconds(h(139)), 1);
    assert_eq!(logged_seconds(h(138)), 0);
    assert_eq!(logged_seconds(h(-500_000)), -1_800);
    assert_eq!(logged_seconds(h(-139)), -1);
}

#[test]
fn adjusted_start_subtracts_logged_time() {
    assert_eq!(adjusted_start(1_000_000, h(2_000_000)), Some(1_000_000 - 7_200));
    assert_eq!(adjusted_start(1_000_000, h(0)), Some(1_000_000));
    assert_eq!(adjusted_start(1_000_000, h(1_010_000)), Some(1_000_000 - 3_636));
    // 0.51 h logged at 12:00:00 started at 11:29:24.
    assert_eq!(adjusted_start(43_200, h(510_000)), Some(41_364));
}

#[test]
fn adjusted_start_out_of_range() {
    assert_eq!(adjusted_start(i64::MIN, h(1_000_000)), None);
    assert_eq!(adjusted_start(i64::MAX, h(-1_000_000)), None);
}

fn dt(year: i32, month: u32, day: u32, hour: u32, minute: u32, second: u32) -> LocalDateTime {
    LocalDateTime { year, month, day, hour, minute, second }
}

#[test]
fn stamp_is_zero_padded() {
    assert_eq!(text(format_stamp(&dt(2024, 5, 1, 9, 5, 3))), "2024-05-01 09:05:03");
    assert_eq!(text(format_stamp(&dt(987, 12, 31, 23, 59, 59))), "0987-12-31 23:59:59");
}

#[test]
fn stamp_of_years_beyond_four_digits() {
    assert_eq!(text(format_stamp(&dt(12345, 1, 2, 3, 4, 5))), "+12345-01-02 03:04:05");
    assert_eq!(text(format_stamp(&dt(-5, 1, 2, 3, 4, 5))), "-0005-01-02 03:04:05");
    assert_eq!(text(format_stamp(&dt(-12345, 1, 2, 3, 4, 5))), "-12345-01-02 03:04:05");
}

#[test]
fn marker_holds_now_then_start() {
    let m = text(format_marker(&dt(2024, 5, 1, 10, 0, 0), &dt(2024, 5, 1, 8, 30, 0)));
    assert_eq!(m, "2024-05-01 10:00:00 2024-05-01 08:30:00");
}

#[test]
fn rendered_marker_for_one_instant_repeats_its_stamp() {
    let m = text(render_marker(1_714_564_800, 1_714_564_800).unwrap());
    assert_eq!(m.len(), 39);
    assert_eq!(&m[0..19], &m[20..39]);
    assert!(m.starts_with("2024-05-0"));
}

#[test]
fn rendered_marker_reads_calendar_time() {
    let day: i64 = 86_400;
    let m = text(render_marker(1_714_564_800, 1_714_564_800 - 400 * day).unwrap());
    assert_eq!(m.len(), 39);
    assert!(m.starts_with("2024-05-0"));
    assert!(m[20..].starts_with("2023-03-2"));
    assert_eq!(m.as_bytes()[19], b' ');
}

#[test]
fn rendered_marker_out_of_range() {
    assert_eq!(render_marker(i64::MAX, 0), None);
}

#[test]
fn rendered_marker_at_the_calendar_limits() {
    let m = text(render_marker(8_000_000_000_000, -8_000_000_000_000).unwrap());
    assert!(m.starts_with("+25"));
    assert!(m.contains(" -25"));
}

fn chrono_local(ts: i64) -> String {
    chrono::DateTime::from_timestamp(ts, 0)
        .unwrap()
        .with_timezone(&chrono::Local)
        .format("%Y-%m-%d %H:%M:%S")
        .to_string()
}

#[test]
fn rendered_marker_matches_local_wall_clock() {
    let now: i64 = 1_714_564_800;
    let start: i64 = now - 1_836;
    let m = text(render_marker(now, start).unwrap());
    assert_eq!(m, format!("{} {}", chrono_local(now), chrono_local(start)));
    let same = text(render_marker(0, 0).unwrap());
    assert_eq!(same, format!("{} {}", chrono_local(0), chrono_local(0)));
}
