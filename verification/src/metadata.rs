//! Extraction of the out-of-band block-hash metadata that the node attaches
//! to every per-block query response: the mechanism by which the client
//! learns which exact block a best/last-final query resolved to.
use vstd::prelude::*;
use crate::errors::{CallFailure, Error};
use crate::hex32::{decoded_hex, is_hex_seq, Hash32};

verus! {

/// The value of the block-hash response header, if the response carried one.
pub open spec fn header_view(header: Option<&Vec<u8>>) -> Option<Seq<u8>> {
    match header {
        Option::Some(v) => Option::Some(v@),
        Option::None => Option::None,
    }
}

/// Whether a block-hash header is structurally valid: present, exactly 64
/// characters long, and entirely hexadecimal.
pub open spec fn header_valid(h: Option<Seq<u8>>) -> bool {
    h matches Option::Some(v) && v.len() == 64 && is_hex_seq(v)
}

/// The exact error surfaced for an invalid block-hash header: an absent
/// header and one of the wrong length are structurally equivalent failures,
/// while a well-sized but non-hexadecimal value is surfaced as its own
/// anomaly rather than silently decoded to a zero hash.
pub open spec fn header_error(h: Option<Seq<u8>>) -> Error {
    match h {
        Option::Some(v) => if v.len() == 64 {
            Error::Call(CallFailure::MalformedMetadata)
        } else {
            Error::Call(CallFailure::MissingMetadata)
        },
        Option::None => Error::Call(CallFailure::MissingMetadata),
    }
}

/// Pulls the block-hash header out of a response's metadata and validates
/// and decodes it. Called exactly once per remote call, after the call
/// succeeds; fails with a call error whenever the header is absent,
/// wrongly sized, or not hexadecimal.
pub fn extract_metadata(header: Option<&Vec<u8>>) -> (r: Result<Hash32, Error>)
    ensures
        match r {
            Ok(h) => header_valid(header_view(header)) && h@ == decoded_hex(
                header_view(header)->0,
            ),
            Err(e) => !header_valid(header_view(header)) && e == header_error(
                header_view(header),
            ),
        },
{
    match header {
        Option::Some(value) => {
            if value.len() == 64 {
                match Hash32::from_hex(value) {
                    Option::Some(h) => Ok(h),
                    Option::None => Err(Error::Call(CallFailure::MalformedMetadata)),
                }
            } else {
                Err(Error::Call(CallFailure::MissingMetadata))
            }
        },
        Option::None => Err(Error::Call(CallFailure::MissingMetadata)),
    }
}

} // verus!
