use vstd::prelude::*;

verus! {

/// Which measurement an enclave's sealing key is bound to.
#[derive(PartialEq, Eq, Debug, Clone, Copy, Structural)]
#[allow(non_camel_case_types, clippy::upper_case_acronyms)]
pub enum SigningMethod {
    MRSIGNER,
    MRENCLAVE,
    NONE,
}

/// The signing method of a build that is neither a production nor a test
/// build.
pub const SIGNING_METHOD: SigningMethod = SigningMethod::MRENCLAVE;

/// The file name of the sealed enclave key.
pub const SEALED_ENCLAVE_KEY_PATH: &'static str = "ek_sealed";

/// The file name of the attestation verification report.
pub const AVR_KEY_PATH: &'static str = "avr";

} // verus!
