//! The durable per-vault configuration record.

use vstd::prelude::*;

use crate::identity::{spec_derive_identity, is_canonical_bump, Identity};

verus! {

/// The one configuration record of a vault, created once by `initialize`
/// and extended once by recording the upstream references.  `admin`,
/// `collateral_vault`, `authority` and `authority_nonce` are immutable
/// after creation; the two upstream references are write-once.
#[derive(Clone, Copy, PartialEq, Eq, Structural, Debug)]
pub struct Config {
    /// The identity permitted to invoke privileged operations.
    pub admin: Identity,
    /// The vault's local collateral holding account.
    pub collateral_vault: Identity,
    /// The derived identity that signs every forwarded call.
    pub authority: Identity,
    /// The bump that makes `authority` the canonical derivation.
    pub authority_nonce: u8,
    /// The vault's user record inside the upstream program.
    pub clearing_house_user: Identity,
    /// The vault's positions record inside the upstream program.
    pub clearing_house_user_positions: Identity,
}

/// Whether the record's upstream references are still unassigned.
pub open spec fn user_refs_unset(cfg: Config) -> bool {
    &&& cfg.clearing_house_user == (Identity { value: 0 })
    &&& cfg.clearing_house_user_positions == (Identity { value: 0 })
}

/// Well-formedness of a configuration record against the upstream
/// program's identity: the stored authority is exactly the canonical
/// derivation from that identity and the stored bump.
pub open spec fn config_wf(cfg: Config, upstream_program: Identity) -> bool {
    &&& cfg.authority == spec_derive_identity(upstream_program, cfg.authority_nonce)
    &&& is_canonical_bump(upstream_program, cfg.authority_nonce)
}

} // verus!
