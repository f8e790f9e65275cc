//! The response side of the query client: the envelope pairing every
//! decoded answer with the block hash it is relative to, the domain types
//! reconstructed from the explicitly optional wire format, and the
//! decoders for single-value and streamed responses.
use vstd::prelude::*;
use crate::errors::{DecodeFailure, Error};
use crate::hex32::Hash32;
use crate::identifiers::{AccountAddress, ADDRESS_BYTES};
use crate::metadata::{extract_metadata, header_error, header_valid, header_view};

verus! {

/// Pairs a decoded response with the block hash for which the query
/// applies: always the hash the node reported for this specific call,
/// never cached or reused across calls.
#[derive(Debug)]
pub struct QueryResponse<A> {
    /// Block hash for which the query applies.
    pub block_hash: Hash32,
    pub response: A,
}

/// One emission of the finalized-blocks feed.
#[derive(Debug)]
pub struct FinalizedBlockInfo {
    pub block_hash: Hash32,
    pub height: u64,
}

/// A reference to a deployed module: a 32-byte hash.
#[derive(Debug)]
pub struct ModuleRef {
    pub hash: Hash32,
}

/// Account state reconstructed from an account-info response.
#[derive(Debug)]
pub struct AccountInfo {
    /// The address of the account.
    pub address: AccountAddress,
    /// The current balance of the account.
    pub amount: u64,
    /// The next sequence number of the account.
    pub sequence_number: u64,
    /// The stable index of the account.
    pub index: u64,
}

/// Wire shape of an account-info response; every field is nullable.
#[derive(Debug)]
pub struct WireAccountInfo {
    pub address: Option<Vec<u8>>,
    pub amount: Option<u64>,
    pub sequence_number: Option<u64>,
    pub index: Option<u64>,
}

/// Wire shape of one finalized-blocks feed item; both fields are nullable.
#[derive(Debug)]
pub struct WireFinalizedBlock {
    pub hash: Option<Vec<u8>>,
    pub height: Option<u64>,
}

/// Turns an optional wire field into a required one: proto-style messages
/// make every field nullable, so each required-field check is made
/// explicit at its decode site through this function.
pub fn require_owned<A>(v: Option<A>) -> (r: Result<A, Error>)
    ensures
        match v {
            Option::Some(a) => r matches Ok(b) && b == a,
            Option::None => r matches Err(e) && e == Error::Decode(DecodeFailure::MissingField),
        },
{
    match v {
        Option::Some(a) => Ok(a),
        Option::None => Err(Error::Decode(DecodeFailure::MissingField)),
    }
}

/// As require_owned, for a borrowed field.
pub fn require<A>(v: &Option<A>) -> (r: Result<&A, Error>)
    ensures
        match v {
            Option::Some(a) => r matches Ok(b) && *b == a,
            Option::None => r matches Err(e) && e == Error::Decode(DecodeFailure::MissingField),
        },
{
    match v {
        Option::Some(a) => Ok(a),
        Option::None => Err(Error::Decode(DecodeFailure::MissingField)),
    }
}

/// Whether a wire account-info message decodes successfully: all four
/// required fields present and the address of the right length.
pub open spec fn wire_account_info_ok(w: WireAccountInfo) -> bool {
    &&& w.address is Some
    &&& w.amount is Some
    &&& w.sequence_number is Some
    &&& w.index is Some
    &&& w.address->0@.len() == ADDRESS_BYTES
}

/// Whether `info` is the decoding of the wire message `w`.
pub open spec fn account_info_matches(w: WireAccountInfo, info: AccountInfo) -> bool {
    &&& info.address@ == w.address->0@
    &&& info.amount == w.amount->0
    &&& info.sequence_number == w.sequence_number->0
    &&& info.index == w.index->0
}

/// The exact error surfaced for a wire account-info message that does not
/// decode: a missing required field, or a present but malformed address.
pub open spec fn account_info_error(w: WireAccountInfo) -> Error {
    if w.address is None || w.amount is None || w.sequence_number is None || w.index is None {
        Error::Decode(DecodeFailure::MissingField)
    } else {
        Error::Decode(DecodeFailure::MalformedValue)
    }
}

/// Decodes an account-info wire message: total but fallible, each required
/// field checked explicitly, the address validated by length; never
/// silently defaulted.
pub fn decode_account_info(w: WireAccountInfo) -> (r: Result<AccountInfo, Error>)
    ensures
        match r {
            Ok(info) => wire_account_info_ok(w) && account_info_matches(w, info),
            Err(e) => !wire_account_info_ok(w) && e == account_info_error(w),
        },
{
    let address_bytes = match require_owned(w.address) {
        Ok(b) => b,
        Err(e) => return Err(e),
    };
    let amount = match require_owned(w.amount) {
        Ok(a) => a,
        Err(e) => return Err(e),
    };
    let sequence_number = match require_owned(w.sequence_number) {
        Ok(s) => s,
        Err(e) => return Err(e),
    };
    let index = match require_owned(w.index) {
        Ok(ix) => ix,
        Err(e) => return Err(e),
    };
    match AccountAddress::from_bytes(address_bytes) {
        Option::Some(address) => Ok(AccountInfo { address, amount, sequence_number, index }),
        Option::None => Err(Error::Decode(DecodeFailure::MalformedValue)),
    }
}

/// Decodes one streamed account address: exactly the fixed number of raw
/// bytes, anything else a decode failure.
pub fn decode_account_address(bytes: Vec<u8>) -> (r: Result<AccountAddress, Error>)
    ensures
        match r {
            Ok(a) => bytes@.len() == ADDRESS_BYTES && a@ == bytes@,
            Err(e) => bytes@.len() != ADDRESS_BYTES && e == Error::Decode(
                DecodeFailure::MalformedValue,
            ),
        },
{
    match AccountAddress::from_bytes(bytes) {
        Option::Some(a) => Ok(a),
        Option::None => Err(Error::Decode(DecodeFailure::MalformedValue)),
    }
}

/// Decodes one streamed module reference: a 32-byte hash.
pub fn decode_module_ref(bytes: Vec<u8>) -> (r: Result<ModuleRef, Error>)
    ensures
        match r {
            Ok(m) => bytes@.len() == 32 && m.hash@ == bytes@,
            Err(e) => bytes@.len() != 32 && e == Error::Decode(DecodeFailure::MalformedValue),
        },
{
    match Hash32::from_bytes(bytes) {
        Option::Some(hash) => Ok(ModuleRef { hash }),
        Option::None => Err(Error::Decode(DecodeFailure::MalformedValue)),
    }
}

/// Decodes one streamed ancestor: a 32-byte block hash.
pub fn decode_block_hash(bytes: Vec<u8>) -> (r: Result<Hash32, Error>)
    ensures
        match r {
            Ok(h) => bytes@.len() == 32 && h@ == bytes@,
            Err(e) => bytes@.len() != 32 && e == Error::Decode(DecodeFailure::MalformedValue),
        },
{
    match Hash32::from_bytes(bytes) {
        Option::Some(h) => Ok(h),
        Option::None => Err(Error::Decode(DecodeFailure::MalformedValue)),
    }
}

/// Whether one finalized-blocks feed item decodes: both fields present and
/// the hash of the right length.
pub open spec fn wire_finalized_block_ok(w: WireFinalizedBlock) -> bool {
    &&& w.hash is Some
    &&& w.hash->0@.len() == 32
    &&& w.height is Some
}

/// The exact error surfaced for a feed item that does not decode, checked
/// in wire order: the hash before the height.
pub open spec fn finalized_block_error(w: WireFinalizedBlock) -> Error {
    if w.hash is None {
        Error::Decode(DecodeFailure::MissingField)
    } else if w.hash->0@.len() != 32 {
        Error::Decode(DecodeFailure::MalformedValue)
    } else {
        Error::Decode(DecodeFailure::MissingField)
    }
}

/// Decodes one finalized-blocks feed item by requiring both sub-fields:
/// an absent or malformed field fails the item, and in practice ends the
/// feed, rather than being silently accepted.
pub fn decode_finalized_block(w: &WireFinalizedBlock) -> (r: Result<FinalizedBlockInfo, Error>)
    ensures
        match r {
            Ok(info) => wire_finalized_block_ok(*w) && info.block_hash@ == w.hash->0@
                && info.height == w.height->0,
            Err(e) => !wire_finalized_block_ok(*w) && e == finalized_block_error(*w),
        },
{
    let hash_bytes = match require(&w.hash) {
        Ok(b) => crate::hex32::copy_bytes(b),
        Err(e) => return Err(e),
    };
    let block_hash = match decode_block_hash(hash_bytes) {
        Ok(h) => h,
        Err(e) => return Err(e),
    };
    let height = match require(&w.height) {
        Ok(h) => *h,
        Err(e) => return Err(e),
    };
    Ok(FinalizedBlockInfo { block_hash, height })
}

/// Wire shape of the next-update-sequence-numbers response, reduced to
/// the category this client updates; nullable like every wire field.
#[derive(Debug)]
pub struct WireUpdateSequenceNumbers {
    pub micro_ccd_per_euro: Option<u64>,
}

/// Composes the dedicated next-sequence-number operation from a call's
/// own response parts: validates the block-hash header, then requires the
/// category's sequence number to be present.
pub fn next_sequence_number_response(
    header: Option<&Vec<u8>>,
    payload: WireUpdateSequenceNumbers,
) -> (r: Result<QueryResponse<u64>, Error>)
    ensures
        match r {
            Ok(q) => header_valid(header_view(header)) && payload.micro_ccd_per_euro is Some
                && q.block_hash@ == crate::hex32::decoded_hex(header_view(header)->0)
                && q.response == payload.micro_ccd_per_euro->0,
            Err(e) => if !header_valid(header_view(header)) {
                e == header_error(header_view(header))
            } else {
                payload.micro_ccd_per_euro is None && e == Error::Decode(
                    DecodeFailure::MissingField,
                )
            },
        },
{
    let block_hash = match extract_metadata(header) {
        Ok(h) => h,
        Err(e) => return Err(e),
    };
    let response = match require_owned(payload.micro_ccd_per_euro) {
        Ok(n) => n,
        Err(e) => return Err(e),
    };
    Ok(QueryResponse { block_hash, response })
}

/// Composes the single-value account-info operation from a call's own
/// response parts: the block-hash header is validated first, then the
/// payload is decoded, and the two are paired in one envelope.
pub fn account_info_response(header: Option<&Vec<u8>>, payload: WireAccountInfo) -> (r: Result<
    QueryResponse<AccountInfo>,
    Error,
>)
    ensures
        match r {
            Ok(q) => header_valid(header_view(header)) && wire_account_info_ok(payload)
                && q.block_hash@ == crate::hex32::decoded_hex(header_view(header)->0)
                && account_info_matches(payload, q.response),
            Err(e) => if !header_valid(header_view(header)) {
                e == header_error(header_view(header))
            } else {
                !wire_account_info_ok(payload) && e == account_info_error(payload)
            },
        },
{
    let block_hash = match extract_metadata(header) {
        Ok(h) => h,
        Err(e) => return Err(e),
    };
    let response = match decode_account_info(payload) {
        Ok(info) => info,
        Err(e) => return Err(e),
    };
    Ok(QueryResponse { block_hash, response })
}

} // verus!
