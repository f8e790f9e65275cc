//! Error taxonomy of the client: transport faults, explicit remote call
//! failures (including missing or malformed response metadata), decode
//! failures on otherwise successful responses, and invalid local key sets.
use vstd::prelude::*;

verus! {

/// Why a remote call reported an explicit failure.
#[derive(Clone, Copy, Debug, PartialEq, Eq, Structural)]
pub enum CallFailure {
    /// The response does not include the expected block-hash metadata,
    /// or includes it with the wrong length.
    MissingMetadata,
    /// The block-hash metadata has the right length but is not valid
    /// hexadecimal; the anomaly is surfaced, never replaced by a zero hash.
    MalformedMetadata,
    /// The remote endpoint rejected the call itself.
    Rejected,
}

/// Why decoding a successful response into a domain value failed.
#[derive(Clone, Copy, Debug, PartialEq, Eq, Structural)]
pub enum DecodeFailure {
    /// A structurally required field was absent from the wire message.
    MissingField,
    /// A field was present but failed domain validation.
    MalformedValue,
}

/// An error surfaced to the caller of the client. Every failure propagates;
/// none is retried or silently defaulted by this crate.
#[derive(Clone, Copy, Debug, PartialEq, Eq, Structural)]
pub enum Error {
    /// The connection could not be established or the call not dispatched.
    Transport,
    /// The remote endpoint returned an explicit failure status.
    Call(CallFailure),
    /// A required sub-field was absent or a value failed validation.
    Decode(DecodeFailure),
    /// The local key set does not satisfy the on-chain signing threshold.
    InvalidKeys,
    /// The poll loop gave up: the transaction's own expiry, plus a grace
    /// margin, passed without finalization being observed, so the node
    /// has already rejected the transaction.
    ExpiredWithoutFinalization,
}

impl Error {
    /// Whether this error is an explicit remote-call failure.
    pub fn is_call_error(&self) -> (r: bool)
        ensures
            r == (self matches Error::Call(_)),
    {
        match self {
            Error::Call(_) => true,
            _ => false,
        }
    }
}

} // verus!
