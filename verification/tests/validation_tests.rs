use lcp::time::{Duration, Time};
use lcp::validation_context::{
    validation_predicate, TendermintValidationOptions, TendermintValidationParams, TendermintValidationPredicate,
    ValidationContext, ValidationParams,
};
use std::time::{SystemTime, UNIX_EPOCH};

#[test]
fn serialization_validation_params() {
    let current_timestamp = SystemTime::now().duration_since(UNIX_EPOCH).unwrap();
    let untrusted_header_timestamp = current_timestamp.as_nanos() as u64;
    let trusted_consensus_state_timestamp = current_timestamp.as_nanos() as u64;

    let params = TendermintValidationParams {
        options: TendermintValidationOptions {
            trusting_period: Duration::new(60 * 60 * 24, 0),
            clock_drift: Duration::new(60 * 60, 0),
        },
        untrusted_header_timestamp,
        trusted_consensus_state_timestamp,
    };
    let bz = params.to_vec();
    let new_params = TendermintValidationParams::from_bytes(&bz);
    assert!(params == new_params);
}

fn sample_params() -> TendermintValidationParams {
    TendermintValidationParams {
        options: TendermintValidationOptions {
            trusting_period: Duration::new(86_400, 0),
            clock_drift: Duration::new(10, 0),
        },
        untrusted_header_timestamp: 1_700_000_055,
        trusted_consensus_state_timestamp: 1_700_000_000,
    }
}

#[test]
fn tendermint_params_encoding_matches_rlp() {
    let p = sample_params();
    let mut s = rlp::RlpStream::new_list(3);
    s.begin_list(2)
        .append(&p.options.trusting_period.as_nanos())
        .append(&p.options.clock_drift.as_nanos());
    s.append(&p.untrusted_header_timestamp);
    s.append(&p.trusted_consensus_state_timestamp);
    assert_eq!(p.to_vec(), s.out().to_vec());

    let zero = TendermintValidationParams {
        options: TendermintValidationOptions { trusting_period: Duration::new(0, 0), clock_drift: Duration::new(0, 5) },
        untrusted_header_timestamp: 0,
        trusted_consensus_state_timestamp: u64::MAX,
    };
    let mut s = rlp::RlpStream::new_list(3);
    s.begin_list(2).append(&0u128).append(&5u128);
    s.append(&0u64);
    s.append(&u64::MAX);
    assert_eq!(zero.to_vec(), s.out().to_vec());
    assert_eq!(TendermintValidationParams::try_from_bytes(&zero.to_vec()), Some(zero));
}

#[test]
fn tendermint_params_decoding_follows_rlp() {
    // an integer with a leading zero is refused, as the rlp crate refuses it
    let bad = vec![0xc6, 0xc2, 0x01, 0x02, 0x82, 0x00, 0x05, 0x01];
    assert_eq!(TendermintValidationParams::try_from_bytes(&bad), None);
    assert!(rlp::Rlp::new(&bad).val_at::<u64>(1).is_err());
    // extra items after the three that are read do not matter
    let mut s = rlp::RlpStream::new_list(4);
    s.begin_list(2).append(&7u64).append(&8u64);
    s.append(&9u64);
    s.append(&10u64);
    s.append(&11u64);
    let p = TendermintValidationParams::try_from_bytes(&s.out()).unwrap();
    assert_eq!(p.options.trusting_period.as_nanos(), 7);
    assert_eq!(p.options.clock_drift.as_nanos(), 8);
    assert_eq!(p.untrusted_header_timestamp, 9);
    assert_eq!(p.trusted_consensus_state_timestamp, 10);
    assert_eq!(TendermintValidationParams::try_from_bytes(&[]), None);
}

#[test]
fn validation_params_roundtrip_with_tag() {
    assert_eq!(ValidationParams::Empty.to_vec(), vec![0]);
    assert_eq!(ValidationParams::from_bytes(&[0]), ValidationParams::Empty);
    let p = ValidationParams::Tendermint(sample_params());
    let bz = p.to_vec();
    assert_eq!(bz[0], 1);
    assert_eq!(ValidationParams::from_bytes(&bz), p);
    assert_eq!(ValidationParams::try_from_bytes(&[2]), None);
    assert_eq!(ValidationParams::try_from_bytes(&[]), None);
    assert_eq!(ValidationParams::default(), ValidationParams::Empty);
}

#[test]
fn tendermint_predicate_checks_trust_period_and_clock_drift() {
    let now = Time::from_unix_timestamp(1_700_000_050, 0).unwrap();
    let vctx = ValidationContext::new(now);
    let params = sample_params();
    assert!(TendermintValidationPredicate::holds(&vctx, &params));
    assert_eq!(
        TendermintValidationPredicate::predicate(&vctx, &ValidationParams::Tendermint(params.clone())),
        Ok(true)
    );
    assert_eq!(validation_predicate(&vctx, &ValidationParams::Empty), Ok(true));

    let late = ValidationContext::new(Time::from_unix_timestamp(1_700_086_400, 0).unwrap());
    assert!(!TendermintValidationPredicate::holds(&late, &params));
    let early = ValidationContext::new(Time::from_unix_timestamp(1_700_000_040, 0).unwrap());
    assert!(!TendermintValidationPredicate::holds(&early, &params));

    assert!(TendermintValidationPredicate::is_within_trust_period(10, 5, 14));
    assert!(!TendermintValidationPredicate::is_within_trust_period(10, 5, 15));
    assert!(TendermintValidationPredicate::is_header_from_past(14, 5, 10));
    assert!(!TendermintValidationPredicate::is_header_from_past(15, 5, 10));
}
