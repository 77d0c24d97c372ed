use vstd::prelude::*;

verus! {

/// Why a step of the sender flow failed.
#[derive(Debug, PartialEq, Eq)]
pub enum TransferError {
    /// The statechain id has no backup transactions.
    NotFound,
    /// A backup transaction breaks the chain's rules (lock time, inputs, numbering).
    ProtocolViolation,
    /// Key bytes that do not encode a key.
    KeyFormat,
    /// A scalar that is out of range, or a tweak that gives the zero key.
    InvalidScalar,
    /// The co-signing entity answered with a status outside 2xx.
    ServiceError { status: u16, body: String },
    /// The co-signing entity could not be reached.
    TransportError,
    /// An encryption or signing primitive failed.
    CryptoError,
}

} // verus!
