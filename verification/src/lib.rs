//! A delegated-authority proxy for an upstream margin/clearing ledger.
//!
//! A client-owned vault is operated by an external administrator without the
//! vault ever holding a private signing key: the vault's signing identity is
//! derived deterministically from the upstream program's identity and a bump
//! value, and every call forwarded upstream carries a proof reconstructed
//! from that seed material.  The library holds the derivation, the per-vault
//! configuration record, the pre-flight validation run before every
//! operation, and the construction of the forwarded calls; a host applies
//! the resulting actions and reports the upstream verdict back.

pub mod context;
pub mod error;
pub mod forward;
pub mod identity;
pub mod laws;
pub mod ops;
pub mod state;
