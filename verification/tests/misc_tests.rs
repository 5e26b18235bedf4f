use lcp::client_lock::ClientUpdateLocks;
use lcp::digest::sha256_hex;
use lcp::settings::{SigningMethod, SIGNING_METHOD, SEALED_ENCLAVE_KEY_PATH, AVR_KEY_PATH};
use lcp::zkvm::{BonsaiProverOptions, EnvAction, Risc0ProverMode, ZkvmError};

#[test]
fn sha256_hex_of_known_inputs() {
    assert_eq!(sha256_hex(b""), "e3b0c44298fc1c149afbf4c8996fb92427ae41e4649b934ca495991b7852b855");
    assert_eq!(sha256_hex(b"abc"), "ba7816bf8f01cfea414140de5dae2223b00361a396177a9cb410ff61f20015ad");
}

#[test]
fn client_update_locks_forget_idle_clients() {
    let mut locks = ClientUpdateLocks::new();
    locks.enter("client-0");
    locks.enter("client-0");
    locks.enter("client-1");
    assert_eq!(locks.len(), 2);
    assert!(!locks.leave("client-0"));
    assert_eq!(locks.len(), 2);
    assert!(locks.leave("client-0"));
    assert_eq!(locks.len(), 1);
    assert!(locks.leave("client-1"));
    assert_eq!(locks.len(), 0);
}

#[test]
fn settings_defaults() {
    assert_eq!(SIGNING_METHOD, SigningMethod::MRENCLAVE);
    assert_eq!(SEALED_ENCLAVE_KEY_PATH, "ek_sealed");
    assert_eq!(AVR_KEY_PATH, "avr");
}

#[test]
fn prover_modes_and_environment() {
    assert!(Risc0ProverMode::Dev.is_dev_mode());
    assert!(!Risc0ProverMode::Local.is_dev_mode());
    assert_eq!(Risc0ProverMode::Dev.to_string(), "dev");
    assert_eq!(Risc0ProverMode::Local.to_string(), "local");
    let bonsai = Risc0ProverMode::Bonsai(BonsaiProverOptions { api_url: None, api_key: Some("k".to_string()) });
    assert_eq!(bonsai.to_string(), "bonsai");
    assert_eq!(bonsai.local_prover_name(), None);
    assert_eq!(Risc0ProverMode::Local.local_prover_name(), Some("local".to_string()));

    let actions = bonsai.env_actions(None, None).unwrap();
    assert_eq!(actions.len(), 3);
    match &actions[1] {
        EnvAction::SetVar { key, value } => {
            assert_eq!(key, "BONSAI_API_URL");
            assert_eq!(value, "https://api.bonsai.xyz/");
        }
        _ => panic!("the URL is set"),
    }
    let no_key = Risc0ProverMode::Bonsai(BonsaiProverOptions { api_url: None, api_key: None });
    assert_eq!(no_key.env_actions(None, None).unwrap_err(), ZkvmError::MissingBonsaiApiKey);
    assert!(no_key.env_actions(None, Some("env-key".to_string())).is_ok());

    let opts = BonsaiProverOptions { api_url: None, api_key: None };
    assert_eq!(opts.api_url(Some("https://env".to_string())), "https://env");
    assert_eq!(opts.api_key(Some("x".to_string())).unwrap(), "x");
    match &Risc0ProverMode::Dev.env_actions(None, None).unwrap()[0] {
        EnvAction::SetVar { key, value } => {
            assert_eq!(key, "RISC0_DEV_MODE");
            assert_eq!(value, "1");
        }
        _ => panic!("dev mode sets the flag"),
    }
}
