//! Assembly of a signed governance-update transaction: the update payload,
//! its sequence number, effective time and expiry, the deterministic byte
//! message the signatures are computed over, and the signed block item
//! submitted to the node.
use vstd::prelude::*;
use crate::signer::{IndexedSignature, SignCapability, UpdateSigner};

verus! {

/// Payload tag of an exchange-rate update in the signable message.
pub const EXCHANGE_RATE_TAG: u8 = 1;

/// An exchange rate between the protocol's currency and its anchor,
/// as a fraction.
#[derive(Debug)]
pub struct ExchangeRate {
    pub numerator: u64,
    pub denominator: u64,
}

impl ExchangeRate {
    /// Builds the rate from its parts without reducing the fraction or
    /// rejecting a zero denominator: the chain applies its own checks.
    pub fn new_unchecked(numerator: u64, denominator: u64) -> (r: ExchangeRate)
        ensures
            r.numerator == numerator,
            r.denominator == denominator,
    {
        ExchangeRate { numerator, denominator }
    }
}

/// A governance-update payload: a privileged change of one network-wide
/// parameter.
#[derive(Debug)]
pub enum UpdatePayload {
    /// Update of the exchange rate between the protocol's currency and
    /// its anchor.
    MicroGtuPerEuro(ExchangeRate),
}

impl UpdatePayload {
    /// Explicit constructor of the exchange-rate variant.
    pub fn from_exchange_rate(rate: ExchangeRate) -> (r: UpdatePayload)
        ensures
            r matches UpdatePayload::MicroGtuPerEuro(e) && e == rate,
    {
        UpdatePayload::MicroGtuPerEuro(rate)
    }
}

/// The eight big-endian bytes of a 64-bit value.
pub open spec fn u64_be_bytes(x: u64) -> Seq<u8> {
    seq![
        (x >> 56) as u8,
        (x >> 48) as u8,
        (x >> 40) as u8,
        (x >> 32) as u8,
        (x >> 24) as u8,
        (x >> 16) as u8,
        (x >> 8) as u8,
        x as u8,
    ]
}

/// The byte encoding of a payload inside the signable message: its tag,
/// then its fields in big-endian order.
pub open spec fn payload_encoding(p: UpdatePayload) -> Seq<u8> {
    match p {
        UpdatePayload::MicroGtuPerEuro(rate) => seq![EXCHANGE_RATE_TAG] + u64_be_bytes(
            rate.numerator,
        ) + u64_be_bytes(rate.denominator),
    }
}

/// The byte message an update's signatures are computed over: the header
/// fields — sequence number, effective time, expiry, payload size — in
/// big-endian order, then the payload encoding.
pub open spec fn update_sign_encoding(
    sequence_number: u64,
    effective_time: u64,
    timeout: u64,
    p: UpdatePayload,
) -> Seq<u8> {
    u64_be_bytes(sequence_number) + u64_be_bytes(effective_time) + u64_be_bytes(timeout)
        + u64_be_bytes(payload_encoding(p).len() as u64) + payload_encoding(p)
}

/// Appends the eight big-endian bytes of `x`.
fn push_u64_be(out: &mut Vec<u8>, x: u64)
    ensures
        final(out)@ == old(out)@ + u64_be_bytes(x),
{
    out.push((x >> 56) as u8);
    out.push((x >> 48) as u8);
    out.push((x >> 40) as u8);
    out.push((x >> 32) as u8);
    out.push((x >> 24) as u8);
    out.push((x >> 16) as u8);
    out.push((x >> 8) as u8);
    out.push(x as u8);
    proof {
        assert(out@ =~= old(out)@ + u64_be_bytes(x));
    }
}

/// Builds the byte encoding of a payload.
pub fn payload_bytes(p: &UpdatePayload) -> (r: Vec<u8>)
    ensures
        r@ == payload_encoding(*p),
{
    match p {
        UpdatePayload::MicroGtuPerEuro(rate) => {
            let mut out: Vec<u8> = Vec::new();
            out.push(EXCHANGE_RATE_TAG);
            push_u64_be(&mut out, rate.numerator);
            push_u64_be(&mut out, rate.denominator);
            proof {
                assert(out@ =~= payload_encoding(*p));
            }
            out
        },
    }
}

/// Builds the byte message an update's signatures are computed over.
pub fn update_sign_message(
    sequence_number: u64,
    effective_time: u64,
    timeout: u64,
    p: &UpdatePayload,
) -> (r: Vec<u8>)
    ensures
        r@ == update_sign_encoding(sequence_number, effective_time, timeout, *p),
{
    let payload = payload_bytes(p);
    let mut out: Vec<u8> = Vec::new();
    push_u64_be(&mut out, sequence_number);
    push_u64_be(&mut out, effective_time);
    push_u64_be(&mut out, timeout);
    push_u64_be(&mut out, payload.len() as u64);
    let mut i: usize = 0;
    let ghost head = out@;
    while i < payload.len()
        invariant
            i <= payload@.len(),
            out@ =~= head + payload@.subrange(0, i as int),
        decreases payload@.len() - i,
    {
        out.push(payload[i]);
        i = i + 1;
    }
    proof {
        assert(payload@.subrange(0, payload@.len() as int) =~= payload@);
        assert(out@ =~= update_sign_encoding(sequence_number, effective_time, timeout, *p));
    }
    out
}

/// A signed governance-update transaction, immutable once constructed and
/// submitted exactly once.
#[derive(Debug)]
pub struct UpdateInstruction {
    /// Replay-preventing counter for the update category.
    pub sequence_number: u64,
    /// When the update takes effect; zero means immediately upon
    /// finalization.
    pub effective_time: u64,
    /// Wall-clock cutoff after which the node must reject the
    /// transaction.
    pub timeout: u64,
    /// The governance change itself.
    pub payload: UpdatePayload,
    /// The authorization block: one signature per held authorized index,
    /// ascending by index.
    pub signatures: Vec<IndexedSignature>,
}

/// A submittable block item.
#[derive(Debug)]
pub enum BlockItem {
    Update(UpdateInstruction),
}

impl BlockItem {
    /// Explicit constructor of the update variant.
    pub fn from_update(instruction: UpdateInstruction) -> (r: BlockItem)
        ensures
            r matches BlockItem::Update(u) && u == instruction,
    {
        BlockItem::Update(instruction)
    }
}

/// Combines a signer, a sequence number, an effective time, an expiry
/// time and an update payload into one signed update instruction: the
/// fields are taken over unchanged and the authorization block holds one
/// signature per index the signer holds, ascending by index, computed
/// over the deterministic signable message. Pure given its inputs.
pub fn update<C: SignCapability>(
    signer: &UpdateSigner,
    capability: &C,
    sequence_number: u64,
    effective_time: u64,
    timeout: u64,
    payload: UpdatePayload,
) -> (r: UpdateInstruction)
    ensures
        r.sequence_number == sequence_number,
        r.effective_time == effective_time,
        r.timeout == timeout,
        r.payload == payload,
        r.signatures@.len() == signer.keys_seq().len(),
        forall|i: int|
            0 <= i < r.signatures@.len() ==> #[trigger] r.signatures@[i].index
                == signer.keys_seq()[i].index,
        forall|a: int, b: int|
            0 <= a < b < r.signatures@.len() ==> r.signatures@[a].index < r.signatures@[b].index,
{
    let message = update_sign_message(sequence_number, effective_time, timeout, &payload);
    let signatures = signer.sign_message(capability, &message);
    UpdateInstruction { sequence_number, effective_time, timeout, payload, signatures }
}

} // verus!
