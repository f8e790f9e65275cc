//! Client-side model of a ledger node's query and governance-update
//! interface: block and account identifiers, response envelopes carrying
//! the block-hash metadata of each remote call, multi-signature signer
//! construction from on-chain authorizations, update-transaction assembly,
//! and the submit-then-poll transaction-status tracker.
//!
//! Network transport, wire (de)serialization and the signature primitive
//! are outside collaborators: this crate models their inputs and outputs
//! as plain values and verifies every decision taken on them.
pub mod errors;
pub mod hex32;
pub mod identifiers;
pub mod metadata;
pub mod queries;
pub mod signer;
pub mod status;
pub mod streams;
pub mod transaction;
