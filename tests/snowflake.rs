use home_mixer::snowflake::{
    age_millis_at, duration_since_creation_opt, from_timestamp, timestamp_millis, ID_EPOCH_MS,
};

#[test]
fn test_timestamp_extraction() {
    let tweet_id: i64 = 1234567890123456789;
    let ts = timestamp_millis(tweet_id);
    assert!(ts > ID_EPOCH_MS);
    assert_eq!(ts, (tweet_id >> 22) + ID_EPOCH_MS);
}

#[test]
fn test_roundtrip() {
    let now_ms = chrono::Utc::now().timestamp_millis();
    let snowflake = from_timestamp(now_ms);
    let extracted = timestamp_millis(snowflake);
    assert_eq!(now_ms, extracted);
}

#[test]
fn age_is_measured_from_the_embedded_time() {
    let id = from_timestamp(ID_EPOCH_MS + 5000);
    assert_eq!(age_millis_at(id, ID_EPOCH_MS + 7000), Some(2000));
    assert_eq!(age_millis_at(id, ID_EPOCH_MS + 5000), None);
    let recent = from_timestamp(chrono::Utc::now().timestamp_millis() - 60_000);
    let age = duration_since_creation_opt(recent).unwrap();
    assert!(age.as_millis() >= 60_000);
    let future = from_timestamp(chrono::Utc::now().timestamp_millis() + 3_600_000);
    assert!(duration_since_creation_opt(future).is_none());
}

#[test]
fn far_future_timestamps_round_trip() {
    let late = ID_EPOCH_MS + (1i64 << 41) - 1;
    assert_eq!(timestamp_millis(from_timestamp(late)), late);
    let early = ID_EPOCH_MS - (1i64 << 41);
    assert_eq!(timestamp_millis(from_timestamp(early)), early);
    let id: i64 = (1i64 << 62) + 12345;
    assert_eq!(from_timestamp(timestamp_millis(id)), id & !0x3f_ffff);
}
