use heimdall::timestamp::TimeSpan;
use heimdall::utils::{format_duration, format_size, mac_to_string, string_to_mac};

#[test]
fn test_mac_conversion() {
    let mac = [0x00, 0x11, 0x22, 0x33, 0x44, 0x55];
    let mac_str = mac_to_string(&mac);

    assert_eq!(mac_str, "00:11:22:33:44:55");

    let mac2 = string_to_mac(&mac_str).unwrap();
    assert_eq!(mac, mac2);
}

#[test]
fn test_format_size() {
    assert_eq!(format_size(1023), "1023 B");
    assert_eq!(format_size(1024), "1.00 KB");
    assert_eq!(format_size(1024 * 1024), "1.00 MB");
    assert_eq!(format_size(1024 * 1024 * 1024), "1.00 GB");
}

#[test]
fn test_format_duration() {
    assert_eq!(format_duration(TimeSpan::from_millis(500)), "500ms");
    assert_eq!(format_duration(TimeSpan::from_secs(5)), "5s 0ms");
    assert_eq!(format_duration(TimeSpan::from_secs(65)), "1m 5s");
    assert_eq!(format_duration(TimeSpan::from_secs(3665)), "1h 1m 5s");
}

#[test]
fn mac_upper_case_hex() {
    assert_eq!(mac_to_string(&[0xAB, 0xcd, 0xEF, 0x01, 0x9a, 0xff]), "AB:CD:EF:01:9A:FF");
}

#[test]
fn mac_parsing_rules() {
    assert_eq!(string_to_mac("ab:CD:ef:1:+2:0FF"), Ok([0xab, 0xcd, 0xef, 1, 2, 0xff]));
    assert!(string_to_mac("00:11:22:33:44").is_err());
    assert!(string_to_mac("00:11:22:33:44:55:66").is_err());
    assert!(string_to_mac("00:11:22:33:44:5G").is_err());
    assert!(string_to_mac("00:11:22:33:44:").is_err());
    assert!(string_to_mac("00:11:22:33:44:100").is_err());
    assert!(string_to_mac("00:11:22:33:44:+").is_err());
    assert!(string_to_mac("").is_err());
}

#[test]
fn size_rounding() {
    assert_eq!(format_size(0), "0 B");
    assert_eq!(format_size(1536), "1.50 KB");
    // 1152 / 1024 = 1.125 exactly: ties go to the even digit.
    assert_eq!(format_size(1152), "1.12 KB");
    assert_eq!(format_size(1_048_575), "1024.00 KB");
    assert_eq!(format_size(5 * 1024 * 1024 * 1024), "5.00 GB");
}

#[test]
fn duration_text_units() {
    assert_eq!(format_duration(TimeSpan::from_nanos(0)), "0ms");
    assert_eq!(format_duration(TimeSpan::from_millis(61_250)), "1m 1s");
    assert_eq!(format_duration(TimeSpan::from_millis(7_200_000)), "2h 0m 0s");
    assert_eq!(format_duration(TimeSpan::from_millis(1_999)), "1s 999ms");
}
