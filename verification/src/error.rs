use vstd::prelude::*;
use crate::address::Address;

verus! {

/// The reason a checkpoint document was rejected by the codec.
#[derive(Debug, Clone, PartialEq, Eq)]
pub enum CodecFault {
    /// The document, or a record inside it, is not a JSON object.
    NotAnObject,
    /// A required key is absent.
    MissingField,
    /// A required key is present but holds a value of the wrong type.
    WrongFieldType,
    /// A `dex_variant` tag names no supported protocol.
    UnknownVariant,
    /// An address string is not `0x` followed by 40 hex digits.
    BadAddress,
    /// The input text is not JSON at all.
    Malformed,
}

/// The error taxonomy of the synchronization engine.
///
/// `TransportFailure` is fatal to any loop in progress; `CallFailure` is
/// recoverable (the affected pool is skipped); `CodecFailure` aborts a whole
/// decode; `AggregationFailure` reports a parallel task that terminated
/// abnormally; `DomainInvariantFailure` reports a query for a token that is
/// not one of a pool's two tokens.
#[derive(Debug, Clone, PartialEq, Eq)]
pub enum CFMMError {
    TransportFailure,
    CallFailure,
    CodecFailure(CodecFault),
    AggregationFailure,
    DomainInvariantFailure(Address),
}

impl CFMMError {
    /// A short description of the error, for reporting outside the library.
    pub fn describe(&self) -> (r: String) {
        match self {
            CFMMError::TransportFailure => "transport failure: node unreachable".to_string(),
            CFMMError::CallFailure => "contract call failure".to_string(),
            CFMMError::CodecFailure(_) => "malformed checkpoint".to_string(),
            CFMMError::AggregationFailure => "a parallel task terminated abnormally".to_string(),
            CFMMError::DomainInvariantFailure(_) => {
                "token is not one of the pool's tokens".to_string()
            },
        }
    }
}

} // verus!
