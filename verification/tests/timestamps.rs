use ls_core::timeapi::{format_timestamp_fixed, format_timestamp_local};
use ls_core::timefmt::format_timestamp;

#[test]
fn components_render_zero_padded() {
    assert_eq!(format_timestamp(2024, 1, 2, 3, 4, 5), "2024-01-02 03:04:05");
    assert_eq!(format_timestamp(7, 12, 31, 23, 59, 59), "0007-12-31 23:59:59");
    assert_eq!(format_timestamp(0, 1, 1, 0, 0, 0), "0000-01-01 00:00:00");
}

#[test]
fn known_instant_under_utc() {
    // 1 000 000 000 seconds past the epoch.
    assert_eq!(
        format_timestamp_fixed(1_000_000_000, 0),
        Some("2001-09-09 01:46:40".to_string())
    );
}

#[test]
fn known_instant_under_fixed_offsets() {
    assert_eq!(format_timestamp_fixed(0, 0), Some("1970-01-01 00:00:00".to_string()));
    assert_eq!(format_timestamp_fixed(0, 3600), Some("1970-01-01 01:00:00".to_string()));
    assert_eq!(format_timestamp_fixed(0, -3600), Some("1969-12-31 23:00:00".to_string()));
}

#[test]
fn last_four_digit_second_formats_and_the_next_does_not() {
    assert_eq!(
        format_timestamp_fixed(253_402_300_799, 0),
        Some("9999-12-31 23:59:59".to_string())
    );
    // One second later the year no longer fits YYYY.
    assert_eq!(format_timestamp_fixed(253_402_300_800, 0), None);
}

#[test]
fn seconds_outside_supported_band_are_refused() {
    assert_eq!(format_timestamp_fixed(8_000_000_000_001, 0), None);
    assert_eq!(format_timestamp_fixed(-8_000_000_000_001, 0), None);
}

#[test]
fn local_rendering_owed_on_the_renderable_band() {
    // Both ends of the band render under every time zone.
    assert!(format_timestamp_local(-62_167_132_800).is_some());
    assert!(format_timestamp_local(253_402_214_399).is_some());
    // Outside the supported band the rendering is refused.
    assert!(format_timestamp_local(8_000_000_000_001).is_none());
    assert!(format_timestamp_local(-8_000_000_000_001).is_none());
}

#[test]
fn local_rendering_is_second_precise() {
    // The local zone of the machine decides the exact digits; the shape
    // is pinned regardless.
    let t = format_timestamp_local(1_000_000_000).unwrap();
    assert_eq!(t.len(), 19);
    let bytes = t.as_bytes();
    assert_eq!(bytes[4], b'-');
    assert_eq!(bytes[7], b'-');
    assert_eq!(bytes[10], b' ');
    assert_eq!(bytes[13], b':');
    assert_eq!(bytes[16], b':');
}
