use facegate::storage::format_unix_utc;

#[test]
fn format_unix_utc_known_values() {
    // 2024-01-01T00:00:00Z = 1704067200
    assert_eq!(format_unix_utc(1_704_067_200), "2024-01-01T00:00:00Z");
    // 2026-05-10T00:00:00Z = 1778371200
    assert_eq!(format_unix_utc(1_778_371_200), "2026-05-10T00:00:00Z");
    // Leap day: 2024-02-29T12:34:56Z = 1709210096
    assert_eq!(format_unix_utc(1_709_210_096), "2024-02-29T12:34:56Z");
}

#[test]
fn format_before_epoch_keeps_january_1970() {
    // Two days' worth of seconds before the epoch, less one: the day count is -2.
    assert_eq!(format_unix_utc(-86_401), "1970-01-4294967295T23:59:59Z");
    assert_eq!(format_unix_utc(-3 * 86_400 + 3_661), "1970-01-4294967294T01:01:01Z");
}
