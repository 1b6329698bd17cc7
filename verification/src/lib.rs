//! A membership ledger core: role-gated issuance of fungible reward credits
//! and non-fungible membership certificates.
//!
//! A `Member` registry owns three resource kinds (reward tokens, dream tokens
//! and membership cards), a certificate-id counter, and a fee vault. All
//! minting is mediated by the registry: reward issuance demands proof that the
//! caller holds a membership card, certificate ids are allocated from a
//! monotonically increasing counter, and the fee vault is a permissionless,
//! write-only reserve.
//!
//! The hosting ledger runtime (address allocation, proof verification, the
//! clock, atomic transactions) stays outside this crate: callers hand in the
//! resource-kind addresses, the timestamp, and an already-verified
//! `CertificateProof`, and take plain bucket values back.

pub mod laws;
pub mod member;
pub mod resources;
