use lcp::errors::TypeError;
use prost::Message;
use lcp::any::{Any as LcpAny, MAX_VALUE_LENGTH_FOR_DEBUG};

/// The same shape as the library's `Any`, to compare with `std`'s debug text.
#[derive(Debug)]
#[allow(dead_code)]
struct Any {
    type_url: String,
    value: Vec<u8>,
}

#[test]
fn test_debug_any() {
    let type_url = "type_url".to_string();
    let base = LcpAny::new(type_url.clone(), [0u8; MAX_VALUE_LENGTH_FOR_DEBUG].to_vec());
    let base_str = base.debug_string();
    {
        let value = [0u8; MAX_VALUE_LENGTH_FOR_DEBUG + 1].to_vec();
        let value_str = LcpAny::new(type_url.clone(), value).debug_string();
        assert_ne!(value_str, base_str);
        assert!(value_str.contains(&format!("({} bytes total)", MAX_VALUE_LENGTH_FOR_DEBUG + 1)));
    }
    {
        let value = [0u8; MAX_VALUE_LENGTH_FOR_DEBUG].to_vec();
        assert_eq!(base_str, LcpAny::new(type_url.clone(), value).debug_string());
    }
    {
        let value = [0u8; MAX_VALUE_LENGTH_FOR_DEBUG - 1].to_vec();
        let value_str = LcpAny::new(type_url.clone(), value).debug_string();
        assert_ne!(value_str, base_str);
        assert!(!value_str.contains("bytes total"));
    }
}

#[test]
fn debug_text_matches_std_for_short_values() {
    for (url, value) in [
        ("/ibc.lightclients.tendermint.v1.Header", vec![1u8, 2, 255]),
        ("quote\"back\\slash\ttab\nnl\u{1}\u{7f}é", vec![]),
        ("zero\u{200b}width\u{301}and\u{85}next", vec![0]),
    ] {
        let ours = LcpAny::new(url.to_string(), value.clone()).debug_string();
        let std_text = format!("{:?}", Any { type_url: url.to_string(), value });
        assert_eq!(ours, std_text);
    }
}

#[test]
fn long_values_are_shortened() {
    let value: Vec<u8> = (0..MAX_VALUE_LENGTH_FOR_DEBUG + 5).map(|i| (i % 7) as u8).collect();
    let text = LcpAny::new("t".to_string(), value.clone()).debug_string();
    let head = format!("{:?}", &value[..MAX_VALUE_LENGTH_FOR_DEBUG]);
    assert_eq!(
        text,
        format!("Any {{ type_url: \"t\", value: {} \u{2026} ({} bytes total) }}", head, MAX_VALUE_LENGTH_FOR_DEBUG + 5)
    );
}

#[test]
fn test_encoding_compatibility_with_proto_any() {
    for (type_url, value) in [
        ("", vec![]),
        ("/ibc.lightclients.tendermint.v1.ClientState", vec![1u8, 2, 3]),
        ("é/ü", vec![0u8; 300]),
        ("t", vec![]),
        ("", vec![7u8]),
    ] {
        let any1 = LcpAny::new(type_url.to_string(), value.clone());
        let bz = any1.encode_vec();
        let any2 = prost_types::Any { type_url: type_url.to_string(), value: value.clone() };
        assert_eq!(bz, any2.encode_to_vec());
        let any3 = LcpAny::try_from_vec(bz).unwrap();
        assert_eq!(any1, any3);
    }
}

#[test]
fn any_encoding_has_expected_bytes() {
    let bz = LcpAny::new("ab".to_string(), vec![9]).encode_vec();
    assert_eq!(bz, vec![0x0a, 2, b'a', b'b', 0x12, 1, 9]);
}

#[test]
fn any_decoding_rejects_malformed_bytes() {
    assert!(matches!(LcpAny::try_from_vec(vec![0x0a, 5, b'a']), Err(TypeError::ProtoError)));
    assert!(matches!(LcpAny::try_from_vec(vec![0x0a, 1, 0xff]), Err(TypeError::ProtoError)));
    let empty = LcpAny::try_from_vec(vec![]).unwrap();
    assert_eq!(empty, LcpAny::new(String::new(), vec![]));
}
