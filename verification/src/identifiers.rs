//! Identifiers used to pin queries: block identifiers (best block, last
//! finalized block, or an explicit hash) and account identifiers (address,
//! credential registration id, or account index), with their deterministic
//! conversion to the wire-request shapes consumed by the node.
use vstd::prelude::*;
use crate::hex32::Hash32;
use crate::hex32::copy_bytes;

verus! {

/// Byte length of an account address.
pub const ADDRESS_BYTES: usize = 32;

/// Byte length of a credential registration id (a curve-point encoding).
pub const CRED_ID_BYTES: usize = 48;

/// An account address: a fixed-length byte string derived from the
/// account's initial credential.
#[derive(Debug)]
pub struct AccountAddress {
    bytes: Vec<u8>,
}

impl View for AccountAddress {
    type V = Seq<u8>;

    closed spec fn view(&self) -> Seq<u8> {
        self.bytes@
    }
}

impl AccountAddress {
    #[verifier::type_invariant]
    spec fn type_inv(self) -> bool {
        self.bytes@.len() == ADDRESS_BYTES
    }

    /// Builds an address from exactly its fixed number of raw bytes.
    pub fn from_bytes(bytes: Vec<u8>) -> (r: Option<AccountAddress>)
        ensures
            match r {
                Some(a) => bytes@.len() == ADDRESS_BYTES && a@ == bytes@,
                None => bytes@.len() != ADDRESS_BYTES,
            },
    {
        if bytes.len() == ADDRESS_BYTES {
            Some(AccountAddress { bytes })
        } else {
            None
        }
    }

    /// The address as its raw bytes.
    pub fn as_bytes(&self) -> (r: &Vec<u8>)
        ensures
            r@ == self@,
            r@.len() == ADDRESS_BYTES,
    {
        proof {
            use_type_invariant(self);
        }
        &self.bytes
    }

    /// An owned copy of the address bytes.
    pub fn to_bytes_vec(&self) -> (r: Vec<u8>)
        ensures
            r@ == self@,
            r@.len() == ADDRESS_BYTES,
    {
        proof {
            use_type_invariant(self);
        }
        copy_bytes(&self.bytes)
    }
}

/// A credential registration id, identifying an account by the on-chain
/// registration id of one of its credentials.
#[derive(Debug)]
pub struct CredentialRegistrationID {
    bytes: Vec<u8>,
}

impl View for CredentialRegistrationID {
    type V = Seq<u8>;

    closed spec fn view(&self) -> Seq<u8> {
        self.bytes@
    }
}

impl CredentialRegistrationID {
    #[verifier::type_invariant]
    spec fn type_inv(self) -> bool {
        self.bytes@.len() == CRED_ID_BYTES
    }

    /// Builds a credential registration id from exactly its fixed number
    /// of raw bytes.
    pub fn from_bytes(bytes: Vec<u8>) -> (r: Option<CredentialRegistrationID>)
        ensures
            match r {
                Some(c) => bytes@.len() == CRED_ID_BYTES && c@ == bytes@,
                None => bytes@.len() != CRED_ID_BYTES,
            },
    {
        if bytes.len() == CRED_ID_BYTES {
            Some(CredentialRegistrationID { bytes })
        } else {
            None
        }
    }

    /// An owned copy of the credential registration id bytes.
    pub fn to_bytes_vec(&self) -> (r: Vec<u8>)
        ensures
            r@ == self@,
            r@.len() == CRED_ID_BYTES,
    {
        proof {
            use_type_invariant(self);
        }
        copy_bytes(&self.bytes)
    }
}

/// A block identifier used in queries.
#[derive(Debug)]
pub enum BlockIdentifier {
    /// Query in the context of the best block.
    Best,
    /// Query in the context of the last finalized block at the time of
    /// the query.
    LastFinal,
    /// Query in the context of a specific block hash.
    Given(Hash32),
}

/// An account identifier used in account queries.
#[derive(Debug)]
pub enum AccountIdentifier {
    /// Identify an account by an address.
    Address(AccountAddress),
    /// Identify an account by the credential registration id.
    CredId(CredentialRegistrationID),
    /// Identify an account by its account index.
    Index(u64),
}

/// Wire shape of a block identifier: one of the nullable oneof-arms of the
/// request message.
#[derive(Debug)]
pub enum BlockHashInput {
    Best,
    LastFinal,
    Given(Vec<u8>),
}

/// Wire shape of an account identifier.
#[derive(Debug)]
pub enum AccountIdentifierInput {
    Address(Vec<u8>),
    CredId(Vec<u8>),
    AccountIndex(u64),
}

/// Wire shape of an account-info request; every field is nullable on the
/// wire, and this client always fills both.
#[derive(Debug)]
pub struct AccountInfoRequest {
    pub block_hash: Option<BlockHashInput>,
    pub account_identifier: Option<AccountIdentifierInput>,
}

/// Wire shape of an ancestors request: a block to start from and the
/// maximum number of ancestors to return.
#[derive(Debug)]
pub struct AncestorsRequest {
    pub block_hash: Option<BlockHashInput>,
    pub amount: u64,
}

/// The empty wire request, used by the finalized-blocks feed.
#[derive(Debug)]
pub struct Empty {}

/// The unique wire shape that a block identifier converts to.
pub open spec fn block_input_for(bi: BlockIdentifier, r: BlockHashInput) -> bool {
    match bi {
        BlockIdentifier::Best => r is Best,
        BlockIdentifier::LastFinal => r is LastFinal,
        BlockIdentifier::Given(h) => r matches BlockHashInput::Given(v) && v@ == h@,
    }
}

/// The unique wire shape that an account identifier converts to.
pub open spec fn account_input_for(ai: AccountIdentifier, r: AccountIdentifierInput) -> bool {
    match ai {
        AccountIdentifier::Address(a) => r matches AccountIdentifierInput::Address(v) && v@ == a@,
        AccountIdentifier::CredId(c) => r matches AccountIdentifierInput::CredId(v) && v@ == c@,
        AccountIdentifier::Index(ix) => r matches AccountIdentifierInput::AccountIndex(j) && j == ix,
    }
}

impl BlockIdentifier {
    /// Converts the identifier to its wire-request shape: each variant
    /// maps deterministically to exactly one arm; no side effects.
    pub fn into_request(&self) -> (r: BlockHashInput)
        ensures
            block_input_for(*self, r),
    {
        match self {
            BlockIdentifier::Best => BlockHashInput::Best,
            BlockIdentifier::LastFinal => BlockHashInput::LastFinal,
            BlockIdentifier::Given(h) => BlockHashInput::Given(h.to_bytes_vec()),
        }
    }
}

impl AccountIdentifier {
    /// Converts the identifier to its wire-request shape: each variant
    /// maps deterministically to exactly one arm; no side effects.
    pub fn into_request(&self) -> (r: AccountIdentifierInput)
        ensures
            account_input_for(*self, r),
    {
        match self {
            AccountIdentifier::Address(a) => AccountIdentifierInput::Address(a.to_bytes_vec()),
            AccountIdentifier::CredId(c) => AccountIdentifierInput::CredId(c.to_bytes_vec()),
            AccountIdentifier::Index(ix) => AccountIdentifierInput::AccountIndex(*ix),
        }
    }
}

/// Assembles the wire request of an account-info query: both nullable
/// fields are filled, from the two identifiers.
pub fn account_info_request(acc: &AccountIdentifier, bi: &BlockIdentifier) -> (r:
    AccountInfoRequest)
    ensures
        r.block_hash matches Some(b) && block_input_for(*bi, b),
        r.account_identifier matches Some(a) && account_input_for(*acc, a),
{
    AccountInfoRequest {
        block_hash: Some(bi.into_request()),
        account_identifier: Some(acc.into_request()),
    }
}

/// Assembles the wire request of an ancestors query: the block field is
/// filled from the identifier and the amount is passed through unchanged.
pub fn ancestors_request(bi: &BlockIdentifier, amount: u64) -> (r: AncestorsRequest)
    ensures
        r.block_hash matches Some(b) && block_input_for(*bi, b),
        r.amount == amount,
{
    AncestorsRequest { block_hash: Some(bi.into_request()), amount }
}

} // verus!
