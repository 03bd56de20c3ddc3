use discord_announcements::rfc3339_time::{deserialize, from_parsed};
use discord_announcements::{FeedError, Timestamp};

#[test]
fn deserialize_reads_offset_time() {
    let t = deserialize("2022-01-01T00:00:00+02:00").unwrap();
    assert_eq!(t, Timestamp { secs: 1_640_988_000, nanos: 0 });
}

#[test]
fn deserialize_reads_utc_with_fraction() {
    let t = deserialize("1970-01-01T00:00:01.5Z").unwrap();
    assert_eq!(t, Timestamp { secs: 1, nanos: 500_000_000 });
}

#[test]
fn deserialize_rejects_malformed_text() {
    match deserialize("yesterday") {
        Err(FeedError::De(m)) => assert_eq!(m, "yesterday"),
        other => panic!("unexpected {other:?}"),
    }
}

#[test]
fn from_parsed_builds_or_reports() {
    assert_eq!(from_parsed(Some((12, 3)), "x").unwrap(), Timestamp { secs: 12, nanos: 3 });
    assert!(matches!(from_parsed(None, "bad"), Err(FeedError::De(m)) if m == "bad"));
    assert!(matches!(from_parsed(Some((1, 1_000_000_000)), "odd"), Err(FeedError::De(m)) if m == "odd"));
    assert_eq!(from_parsed(Some((1, 999_999_999)), "x").unwrap(), Timestamp { secs: 1, nanos: 999_999_999 });
}
