use lcp::client_id::ClientId;
use lcp::height::{Height, RawHeight};
use lcp::store_key::{
    client_state, client_state_at_height, client_state_at_height_bytes, client_state_bytes, client_type,
    client_type_bytes, consensus_state, consensus_state_bytes, state_id, state_id_bytes,
};
use lcp::time::{nanos_to_duration, Duration, Time, MAX_UNIX_TIMESTAMP_NANOS};

#[test]
fn test_valid_client_id() {
    let cases = vec![
        ("testclient", "testclient-0"),
        ("testclient", "testclient-1"),
        ("testclient", "testclient-10"),
        ("07-tendermint", "07-tendermint-0"),
        ("07-tendermint", "07-tendermint-1"),
        ("07-tendermint", "07-tendermint-10"),
        ("testclient", "testclient-12345678901234567890"),
    ];
    for (i, (client_type, c)) in cases.iter().enumerate() {
        let cl = ClientId::from_str(c).unwrap();
        let res = cl.validate(client_type);
        assert!(res.is_ok(), "case: {}, error: {:?}", i, res);
    }
}

#[test]
fn test_invalid_client_id() {
    let cases = vec![
        ("testclient", "testclient"),
        ("testclient", "testclient1"),
        ("07-tendermint", "07-tendermint"),
        ("07-tendermint", "07-tendermint0"),
        ("07-tendermint", "07-tendermint1"),
        ("07-tendermint", "07-tendermint-01"),
        ("client", "client-0"),
        ("", ""),
        ("", "07-tendermint"),
        ("testclient", "testclient-123456789012345678901"),
    ];
    for (i, (client_type, c)) in cases.iter().enumerate() {
        let res = ClientId::from_str(c).and_then(|cl| cl.validate(client_type));
        assert!(res.is_err(), "case: {}, error: {:?}", i, res);
    }
}

#[test]
fn client_id_new_builds_type_and_counter() {
    let id = ClientId::new("07-tendermint", 7).unwrap();
    assert_eq!(id.as_str(), "07-tendermint-7");
    assert!(id.validate("07-tendermint").is_ok());
    assert!(id.validate("testclient").is_err());
    assert!(id.eq_str("07-tendermint-7"));
    assert_eq!(id.as_bytes(), b"07-tendermint-7");
}

#[test]
fn builds_client_store_keys() {
    let height = Height::new(1, 23);
    assert_eq!(client_type("07-tendermint-0"), "clients/07-tendermint-0/clientType");
    assert_eq!(client_state("07-tendermint-0"), "clients/07-tendermint-0/clientState");
    assert_eq!(
        client_state_at_height("07-tendermint-0", &height),
        "clients/07-tendermint-0/clientStates/1-23"
    );
    assert_eq!(
        consensus_state("07-tendermint-0", &height),
        "clients/07-tendermint-0/consensusStates/1-23"
    );
    assert_eq!(state_id("07-tendermint-0", &height), "clients/07-tendermint-0/stateIds/1-23");
}

#[test]
fn per_height_client_state_key_is_distinct_from_singleton() {
    let height = Height::new(0, 0);
    let singleton = client_state("c");
    let at_zero = client_state_at_height("c", &height);
    assert_ne!(singleton.as_bytes(), at_zero.as_bytes());
    assert!(at_zero.starts_with(&format!("{singleton}s/")));
}

#[test]
fn store_key_bytes_match_text_keys() {
    let h = Height::new(2, 5);
    assert_eq!(client_type_bytes("x-1"), client_type("x-1").into_bytes());
    assert_eq!(client_state_bytes("x-1"), client_state("x-1").into_bytes());
    assert_eq!(client_state_at_height_bytes("x-1", &h), client_state_at_height("x-1", &h).into_bytes());
    assert_eq!(state_id_bytes("x-1", &h), state_id("x-1", &h).into_bytes());
    assert_eq!(consensus_state_bytes("x-1", &h), consensus_state("x-1", &h).into_bytes());
}

#[test]
fn test_height() {
    let h = Height::zero();
    assert!(h.is_zero());
    assert!(h.sub(1).is_err());
    let raw = h.to_raw();
    assert_eq!(raw.revision_number, 0);
    assert_eq!(raw.revision_height, 0);

    let h = Height::new(u64::MAX, u64::MAX);
    assert!(h.add(1).is_err());
    let raw = h.to_raw();
    assert_eq!(raw.revision_number, u64::MAX);
    assert_eq!(raw.revision_height, u64::MAX);
}

#[test]
fn test_height_ordering() {
    let h1 = Height::new(0, 0);
    let h2 = Height::new(0, 1);
    let h3 = Height::new(1, 0);
    let h4 = Height::new(1, 1);

    assert!(h1 < h2);
    assert!(h1 < h3);
    assert!(h1 < h4);

    assert!(h2 < h3);
    assert!(h2 < h4);

    assert!(h3 < h4);

    assert!(h1.lt(&h2) && h2.lt(&h3) && h3.lt(&h4));
    assert!(!h4.lt(&h1));
}

#[test]
fn test_height_add_sub() {
    let h1 = Height::new(0, 0);
    let h2 = Height::new(0, 1);
    let h3 = Height::new(1, 0);
    let h4 = Height::new(1, 1);

    assert_eq!(h1.add(0).unwrap(), h1);
    assert_eq!(h1.sub(0).unwrap(), h1);

    assert_eq!(h1.add(1).unwrap(), h2);
    assert_eq!(h2.sub(1).unwrap(), h1);

    assert_eq!(h3.add(0).unwrap(), h3);
    assert_eq!(h3.sub(0).unwrap(), h3);

    assert_eq!(h3.add(1).unwrap(), h4);
    assert_eq!(h4.sub(1).unwrap(), h3);
}

#[test]
fn height_text_roundtrip() {
    for (a, b) in [(0u64, 0u64), (1, 23), (u64::MAX, 0), (7, u64::MAX)] {
        let h = Height::new(a, b);
        let s = h.to_string();
        assert_eq!(s, format!("{}-{}", a, b));
        assert_eq!(Height::try_from_str(&s).unwrap(), h);
    }
    assert!(Height::try_from_str("1-x").is_err());
    assert!(Height::try_from_str("12-").is_err());
}

#[test]
fn height_raw_roundtrip() {
    let raw = RawHeight { revision_number: 3, revision_height: 9 };
    let h = Height::from_raw(raw);
    assert_eq!(h.revision_number(), 3);
    assert_eq!(h.revision_height(), 9);
    assert_eq!(h.to_raw(), raw);
}

#[test]
fn test_time_range() {
    assert!(Time::from_unix_timestamp_nanos(MAX_UNIX_TIMESTAMP_NANOS).is_ok());
    assert!(Time::from_unix_timestamp_nanos(MAX_UNIX_TIMESTAMP_NANOS + 1).is_err());
    let max_time = Time::from_unix_timestamp_nanos(MAX_UNIX_TIMESTAMP_NANOS).unwrap();
    assert_eq!(max_time.as_unix_timestamp_nanos(), MAX_UNIX_TIMESTAMP_NANOS);
    assert!(max_time.add(Duration::new(0, 1)).is_err());

    assert!(Time::from_unix_timestamp(0, 999_999_999).is_ok());
    assert!(Time::from_unix_timestamp(i64::MAX, 0).is_err());
    assert!(Time::from_unix_timestamp(0, 1_000_000_000).is_err());

    assert!(Time::from_unix_timestamp(0, 0).is_ok());
    assert!(Time::from_unix_timestamp(-1, 0).is_err());
    assert!(Time::from_unix_timestamp(i64::MIN, 0).is_err());
}

#[test]
fn time_unix_conversions() {
    let t = Time::from_unix_timestamp_nanos(1_500_000_000_123).unwrap();
    assert_eq!(t.as_unix_timestamp_secs(), 1500);
    assert_eq!(t.as_unix_timestamp_nanos(), 1_500_000_000_123);
    let epoch = Time::unix_epoch();
    let d = t.duration_since(&epoch).unwrap();
    assert_eq!(d.as_secs(), 1500);
    assert_eq!(d.subsec_nanos(), 123);
    assert!(epoch.duration_since(&t).is_none());
    assert!(nanos_to_duration(MAX_UNIX_TIMESTAMP_NANOS + 1).is_err());
    assert!(nanos_to_duration(u128::MAX).is_err());
    assert_eq!(nanos_to_duration(MAX_UNIX_TIMESTAMP_NANOS).unwrap().as_nanos(), MAX_UNIX_TIMESTAMP_NANOS);
    assert_eq!(nanos_to_duration(2_000_000_001).unwrap().as_nanos(), 2_000_000_001);
}

#[test]
fn height_text_without_dash_is_refused() {
    assert!(matches!(Height::try_from_str("abc"), Err(lcp::errors::TypeError::HeightConversion { .. })));
    assert!(matches!(Height::try_from_str(""), Err(lcp::errors::TypeError::HeightConversion { .. })));
}
