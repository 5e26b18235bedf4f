use vstd::prelude::*;

verus! {

/// Errors of the basic types: heights, client identifiers, enclave measurements.
#[derive(Debug, Clone)]
pub enum TypeError {
    HeightBytesConversion { bz: Vec<u8> },
    HeightConversion { height: String },
    InvalidHeightResult,
    ClientIdContainSeparator { id: String },
    ClientIdInvalidLength { id: String, length: usize, min: usize, max: usize },
    ClientIdInvalidCharacter { id: String },
    ClientIdEmpty,
    ClientIdInvalidFormat { id: String },
    ClientIdInvalidClientType { id: String, client_type: String },
    ClientIdInvalidCounter { id: String },
    ClientIdInvalidCounterParseIntError { id: String },
    MrenclaveBytesConversion { bz: Vec<u8> },
    HexParseError,
    ProtoError,
}

/// Errors of timestamps.
#[derive(Debug, Clone, PartialEq, Eq, Structural)]
pub enum TimeError {
    InvalidDate,
    DurationOutOfRange,
    TryFromIntError,
}

} // verus!
