use chrono::{DateTime, Utc};
use database::analytics::hour_range::{hour_range, hour_range_inclusive};
use database::analytics::pagination::{page_total, PageTotal};
use database::time::Timestamp;

fn t(s: &str) -> Timestamp {
    let instant = DateTime::parse_from_rfc3339(s).unwrap().with_timezone(&Utc);
    Timestamp {
        seconds: instant.timestamp(),
        nanos: instant.timestamp_subsec_nanos(),
    }
}

#[test]
fn widens_partial_hours_outward() {
    assert_eq!(
        hour_range(t("2026-09-23T10:15:00Z"), t("2026-09-23T12:00:01Z")),
        (t("2026-09-23T10:00:00Z"), t("2026-09-23T13:00:00Z"))
    );
}

#[test]
fn keeps_aligned_bounds() {
    assert_eq!(
        hour_range(t("2026-09-23T10:00:00Z"), t("2026-09-23T12:00:00Z")),
        (t("2026-09-23T10:00:00Z"), t("2026-09-23T12:00:00Z"))
    );
}

#[test]
fn sub_hour_window_covers_its_hour() {
    assert_eq!(
        hour_range(t("2026-09-23T10:15:00Z"), t("2026-09-23T10:15:00.000001Z")),
        (t("2026-09-23T10:00:00Z"), t("2026-09-23T11:00:00Z"))
    );
}

#[test]
fn inclusive_single_instant_covers_its_hour() {
    assert_eq!(
        hour_range_inclusive(t("2026-07-02T00:00:00Z"), t("2026-07-02T00:00:00Z")),
        (t("2026-07-02T00:00:00Z"), t("2026-07-02T01:00:00Z"))
    );
}

#[test]
fn inclusive_end_on_an_hour_keeps_that_whole_hour() {
    assert_eq!(
        hour_range_inclusive(t("2026-07-01T10:30:00Z"), t("2026-07-02T01:00:00Z")),
        (t("2026-07-01T10:00:00Z"), t("2026-07-02T02:00:00Z"))
    );
}

#[test]
fn hours_before_1970_are_widened_the_same_way() {
    assert_eq!(
        hour_range(t("1969-12-31T22:30:00Z"), t("1969-12-31T23:00:00.5Z")),
        (t("1969-12-31T22:00:00Z"), t("1970-01-01T00:00:00Z"))
    );
}

#[test]
fn only_an_empty_page_past_the_end_is_counted() {
    assert_eq!(page_total(Some(41), 10), PageTotal::Known(41));
    assert_eq!(page_total(None, 0), PageTotal::Known(0));
    assert_eq!(page_total(None, 10), PageTotal::Count);
}
