//! Decoding of streamed responses. Each streamed wire item is decoded
//! independently; a decode failure does not abort earlier successfully
//! yielded items but is the terminal value before the stream ends. The
//! envelope block hash of an enveloped stream is computed once, from the
//! call's own response headers, before the first item is consumed.
use vstd::prelude::*;
use crate::errors::{DecodeFailure, Error};
use crate::hex32::{copy_bytes, decoded_hex, Hash32};
use crate::identifiers::{AccountAddress, ADDRESS_BYTES};
use crate::metadata::{extract_metadata, header_error, header_valid, header_view};
use crate::queries::{
    decode_account_address, decode_block_hash, decode_finalized_block, decode_module_ref,
    finalized_block_error, wire_finalized_block_ok, FinalizedBlockInfo, ModuleRef, QueryResponse,
    WireFinalizedBlock,
};

verus! {

/// Shape shared by every decoded stream: no more outputs than inputs, at
/// most one failure, and only as the terminal value; the stream is cut
/// short exactly when that terminal failure occurred.
pub open spec fn stream_decode_shape<T>(n_items: nat, r: Seq<Result<T, Error>>) -> bool {
    &&& r.len() <= n_items
    &&& forall|i: int| 0 <= i < r.len() - 1 ==> #[trigger] r[i] is Ok
    &&& r.len() < n_items ==> r.len() > 0 && r[r.len() - 1] is Err
}

/// Whether one decoded account-list item is the decoding of its wire item.
pub open spec fn addr_item_matches(bytes: Seq<u8>, r: Result<AccountAddress, Error>) -> bool {
    match r {
        Ok(a) => bytes.len() == ADDRESS_BYTES && a@ == bytes,
        Err(e) => bytes.len() != ADDRESS_BYTES && e == Error::Decode(DecodeFailure::MalformedValue),
    }
}

/// Whether one decoded module-list item is the decoding of its wire item.
pub open spec fn module_item_matches(bytes: Seq<u8>, r: Result<ModuleRef, Error>) -> bool {
    match r {
        Ok(m) => bytes.len() == 32 && m.hash@ == bytes,
        Err(e) => bytes.len() != 32 && e == Error::Decode(DecodeFailure::MalformedValue),
    }
}

/// Whether one decoded ancestor is the decoding of its wire item.
pub open spec fn hash_item_matches(bytes: Seq<u8>, r: Result<Hash32, Error>) -> bool {
    match r {
        Ok(h) => bytes.len() == 32 && h@ == bytes,
        Err(e) => bytes.len() != 32 && e == Error::Decode(DecodeFailure::MalformedValue),
    }
}

/// Whether one decoded feed item is the decoding of its wire item.
pub open spec fn finalized_item_matches(w: WireFinalizedBlock, r: Result<
    FinalizedBlockInfo,
    Error,
>) -> bool {
    match r {
        Ok(info) => wire_finalized_block_ok(w) && info.block_hash@ == w.hash->0@ && info.height
            == w.height->0,
        Err(e) => !wire_finalized_block_ok(w) && e == finalized_block_error(w),
    }
}

/// The complete contract of a decoded account-list stream.
pub open spec fn account_stream_decoded(items: Seq<Vec<u8>>, r: Seq<
    Result<AccountAddress, Error>,
>) -> bool {
    &&& stream_decode_shape(items.len(), r)
    &&& forall|i: int| 0 <= i < r.len() ==> addr_item_matches(items[i]@, #[trigger] r[i])
}

/// The complete contract of a decoded module-list stream.
pub open spec fn module_stream_decoded(items: Seq<Vec<u8>>, r: Seq<Result<ModuleRef, Error>>) -> bool {
    &&& stream_decode_shape(items.len(), r)
    &&& forall|i: int| 0 <= i < r.len() ==> module_item_matches(items[i]@, #[trigger] r[i])
}

/// The complete contract of a decoded ancestor-list stream.
pub open spec fn ancestor_stream_decoded(items: Seq<Vec<u8>>, r: Seq<Result<Hash32, Error>>) -> bool {
    &&& stream_decode_shape(items.len(), r)
    &&& forall|i: int| 0 <= i < r.len() ==> hash_item_matches(items[i]@, #[trigger] r[i])
}

/// The complete contract of a decoded finalized-blocks feed.
pub open spec fn finalized_stream_decoded(items: Seq<WireFinalizedBlock>, r: Seq<
    Result<FinalizedBlockInfo, Error>,
>) -> bool {
    &&& stream_decode_shape(items.len(), r)
    &&& forall|i: int| 0 <= i < r.len() ==> finalized_item_matches(items[i], #[trigger] r[i])
}

/// Decodes the items of an account-list stream in order, stopping after
/// the first item that fails to decode.
pub fn decode_account_stream(items: &Vec<Vec<u8>>) -> (r: Vec<Result<AccountAddress, Error>>)
    ensures
        account_stream_decoded(items@, r@),
{
    let mut out: Vec<Result<AccountAddress, Error>> = Vec::new();
    let mut i: usize = 0;
    let mut stopped = false;
    while i < items.len() && !stopped
        invariant
            i <= items@.len(),
            out@.len() == i,
            forall|k: int| 0 <= k < i ==> addr_item_matches(items@[k]@, #[trigger] out@[k]),
            forall|k: int| 0 <= k < i - 1 ==> #[trigger] out@[k] is Ok,
            stopped ==> i > 0 && out@[i - 1] is Err,
            !stopped ==> forall|k: int| 0 <= k < i ==> #[trigger] out@[k] is Ok,
        decreases items@.len() - i,
    {
        match decode_account_address(copy_bytes(&items[i])) {
            Ok(a) => out.push(Ok(a)),
            Err(e) => {
                out.push(Err(e));
                stopped = true;
            },
        }
        i = i + 1;
    }
    out
}

/// Decodes the items of a module-list stream in order, stopping after the
/// first item that fails to decode.
pub fn decode_module_stream(items: &Vec<Vec<u8>>) -> (r: Vec<Result<ModuleRef, Error>>)
    ensures
        module_stream_decoded(items@, r@),
{
    let mut out: Vec<Result<ModuleRef, Error>> = Vec::new();
    let mut i: usize = 0;
    let mut stopped = false;
    while i < items.len() && !stopped
        invariant
            i <= items@.len(),
            out@.len() == i,
            forall|k: int| 0 <= k < i ==> module_item_matches(items@[k]@, #[trigger] out@[k]),
            forall|k: int| 0 <= k < i - 1 ==> #[trigger] out@[k] is Ok,
            stopped ==> i > 0 && out@[i - 1] is Err,
            !stopped ==> forall|k: int| 0 <= k < i ==> #[trigger] out@[k] is Ok,
        decreases items@.len() - i,
    {
        match decode_module_ref(copy_bytes(&items[i])) {
            Ok(m) => out.push(Ok(m)),
            Err(e) => {
                out.push(Err(e));
                stopped = true;
            },
        }
        i = i + 1;
    }
    out
}

/// Decodes the items of an ancestor-list stream in order, stopping after
/// the first item that fails to decode. The server determines how many
/// ancestors actually exist: fewer items than the requested maximum are
/// decoded as they come, never reported as an error.
pub fn decode_ancestor_stream(items: &Vec<Vec<u8>>) -> (r: Vec<Result<Hash32, Error>>)
    ensures
        ancestor_stream_decoded(items@, r@),
{
    let mut out: Vec<Result<Hash32, Error>> = Vec::new();
    let mut i: usize = 0;
    let mut stopped = false;
    while i < items.len() && !stopped
        invariant
            i <= items@.len(),
            out@.len() == i,
            forall|k: int| 0 <= k < i ==> hash_item_matches(items@[k]@, #[trigger] out@[k]),
            forall|k: int| 0 <= k < i - 1 ==> #[trigger] out@[k] is Ok,
            stopped ==> i > 0 && out@[i - 1] is Err,
            !stopped ==> forall|k: int| 0 <= k < i ==> #[trigger] out@[k] is Ok,
        decreases items@.len() - i,
    {
        match decode_block_hash(copy_bytes(&items[i])) {
            Ok(h) => out.push(Ok(h)),
            Err(e) => {
                out.push(Err(e));
                stopped = true;
            },
        }
        i = i + 1;
    }
    out
}

/// Decodes the items of the finalized-blocks feed in order, stopping after
/// the first item that fails to decode: once a required field is absent no
/// further items can be produced, so the failure ends the feed.
pub fn decode_finalized_stream(items: &Vec<WireFinalizedBlock>) -> (r: Vec<
    Result<FinalizedBlockInfo, Error>,
>)
    ensures
        finalized_stream_decoded(items@, r@),
{
    let mut out: Vec<Result<FinalizedBlockInfo, Error>> = Vec::new();
    let mut i: usize = 0;
    let mut stopped = false;
    while i < items.len() && !stopped
        invariant
            i <= items@.len(),
            out@.len() == i,
            forall|k: int| 0 <= k < i ==> finalized_item_matches(items@[k], #[trigger] out@[k]),
            forall|k: int| 0 <= k < i - 1 ==> #[trigger] out@[k] is Ok,
            stopped ==> i > 0 && out@[i - 1] is Err,
            !stopped ==> forall|k: int| 0 <= k < i ==> #[trigger] out@[k] is Ok,
        decreases items@.len() - i,
    {
        match decode_finalized_block(&items[i]) {
            Ok(info) => out.push(Ok(info)),
            Err(e) => {
                out.push(Err(e));
                stopped = true;
            },
        }
        i = i + 1;
    }
    out
}

/// Composes an enveloped account-list response: the envelope block hash is
/// taken from the call's own headers, before any item, and the items are
/// decoded in order.
pub fn account_list_response(header: Option<&Vec<u8>>, items: &Vec<Vec<u8>>) -> (r: Result<
    QueryResponse<Vec<Result<AccountAddress, Error>>>,
    Error,
>)
    ensures
        match r {
            Ok(q) => header_valid(header_view(header)) && q.block_hash@ == decoded_hex(
                header_view(header)->0,
            ) && account_stream_decoded(items@, q.response@),
            Err(e) => !header_valid(header_view(header)) && e == header_error(header_view(header)),
        },
{
    let block_hash = match extract_metadata(header) {
        Ok(h) => h,
        Err(e) => return Err(e),
    };
    let response = decode_account_stream(items);
    Ok(QueryResponse { block_hash, response })
}

/// Composes an enveloped module-list response, as account_list_response.
pub fn module_list_response(header: Option<&Vec<u8>>, items: &Vec<Vec<u8>>) -> (r: Result<
    QueryResponse<Vec<Result<ModuleRef, Error>>>,
    Error,
>)
    ensures
        match r {
            Ok(q) => header_valid(header_view(header)) && q.block_hash@ == decoded_hex(
                header_view(header)->0,
            ) && module_stream_decoded(items@, q.response@),
            Err(e) => !header_valid(header_view(header)) && e == header_error(header_view(header)),
        },
{
    let block_hash = match extract_metadata(header) {
        Ok(h) => h,
        Err(e) => return Err(e),
    };
    let response = decode_module_stream(items);
    Ok(QueryResponse { block_hash, response })
}

/// Composes an enveloped ancestor-list response, as account_list_response.
pub fn ancestors_response(header: Option<&Vec<u8>>, items: &Vec<Vec<u8>>) -> (r: Result<
    QueryResponse<Vec<Result<Hash32, Error>>>,
    Error,
>)
    ensures
        match r {
            Ok(q) => header_valid(header_view(header)) && q.block_hash@ == decoded_hex(
                header_view(header)->0,
            ) && ancestor_stream_decoded(items@, q.response@),
            Err(e) => !header_valid(header_view(header)) && e == header_error(header_view(header)),
        },
{
    let block_hash = match extract_metadata(header) {
        Ok(h) => h,
        Err(e) => return Err(e),
    };
    let response = decode_ancestor_stream(items);
    Ok(QueryResponse { block_hash, response })
}

} // verus!
