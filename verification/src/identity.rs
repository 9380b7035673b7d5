//! Deterministic identity derivation and signature proofs.
//!
//! A vault signs upstream calls as a derived identity: a value computed from
//! the upstream program's identity (the seed) and a bump in `[0, 255]`.  The
//! derivation is a pure function, so the identity is recomputed and checked
//! on every use, never stored as a secret.  Exactly one bump is canonical:
//! the first one, counting down from 255, whose derived identity does not
//! collide with an independently keyed identity.

use vstd::prelude::*;

verus! {

/// Spacing between the identities derived from consecutive bump values.
pub const DERIVE_STEP: u64 = 0x0101_0101_0101_0101;

/// An account identity on the host ledger.
#[derive(Clone, Copy, PartialEq, Eq, Structural, Debug, Hash)]
pub struct Identity {
    pub value: u64,
}

impl Default for Identity {
    /// The all-zero identity, used for not-yet-assigned references.
    fn default() -> (r: Self)
        ensures
            r == (Identity { value: 0 }),
    {
        Identity { value: 0 }
    }
}

/// The identity derived from `seed` and `bump`: the seed displaced by
/// `bump` steps, wrapped to the identity space.
pub open spec fn spec_derive_identity(seed: Identity, bump: u8) -> Identity {
    Identity { value: ((seed.value + DERIVE_STEP * bump) % 0x1_0000_0000_0000_0000) as u64 }
}

/// Computes the identity derived from `seed` and `bump`.
pub fn derive_identity(seed: Identity, bump: u8) -> (r: Identity)
    ensures
        r == spec_derive_identity(seed, bump),
{
    let step: u64 = DERIVE_STEP * (bump as u64);
    if seed.value <= u64::MAX - step {
        Identity { value: seed.value + step }
    } else {
        Identity { value: seed.value - (u64::MAX - step) - 1 }
    }
}

/// Whether an identity collides with an independently keyed identity, in
/// which case it may not serve as a derived authority.
pub open spec fn spec_is_keyed(id: Identity) -> bool {
    id.value % 8 == 0
}

/// Decides whether `id` collides with an independently keyed identity.
pub fn is_keyed_identity(id: Identity) -> (r: bool)
    ensures
        r == spec_is_keyed(id),
{
    id.value % 8 == 0
}

/// A bump is canonical for a seed when its derived identity is not keyed
/// and every larger bump derives a keyed identity.
pub open spec fn is_canonical_bump(seed: Identity, bump: u8) -> bool {
    &&& !spec_is_keyed(spec_derive_identity(seed, bump))
    &&& forall|b: u8| bump < b ==> spec_is_keyed(spec_derive_identity(seed, b))
}

/// The first non-keyed bump at or below `bump`, counting down.
pub open spec fn canonical_search(seed: Identity, bump: u8) -> Option<u8>
    decreases bump,
{
    if !spec_is_keyed(spec_derive_identity(seed, bump)) {
        Some(bump)
    } else if bump == 0 {
        None
    } else {
        canonical_search(seed, (bump - 1) as u8)
    }
}

/// The canonical derived identity of a seed, with its bump.
pub open spec fn spec_find_derived_identity(seed: Identity) -> Option<(Identity, u8)> {
    match canonical_search(seed, 255) {
        Some(b) => Some((spec_derive_identity(seed, b), b)),
        None => None,
    }
}

fn find_from(seed: Identity, bump: u8) -> (r: Option<u8>)
    ensures
        r == canonical_search(seed, bump),
    decreases bump,
{
    if !is_keyed_identity(derive_identity(seed, bump)) {
        Some(bump)
    } else if bump == 0 {
        None
    } else {
        find_from(seed, bump - 1)
    }
}

/// Finds the canonical derived identity for `seed`: the one derived with
/// the largest bump whose identity is not keyed.  Returns `None` only when
/// every bump in range derives a keyed identity.
pub fn find_derived_identity(seed: Identity) -> (r: Option<(Identity, u8)>)
    ensures
        r == spec_find_derived_identity(seed),
        r matches Some(p) ==> p.0 == spec_derive_identity(seed, p.1) && is_canonical_bump(
            seed,
            p.1,
        ),
        r is None ==> forall|b: u8| spec_is_keyed(spec_derive_identity(seed, b)),
{
    proof {
        lemma_canonical_search_exact(seed, 255);
    }
    match find_from(seed, 255) {
        Some(b) => Some((derive_identity(seed, b), b)),
        None => None,
    }
}

/// What the countdown search finds: a canonical bump for the searched
/// range, or the guarantee that the whole range is keyed.
pub proof fn lemma_canonical_search_exact(seed: Identity, bump: u8)
    ensures
        match canonical_search(seed, bump) {
            Some(b) => b <= bump && !spec_is_keyed(spec_derive_identity(seed, b)) && forall|
                b2: u8,
            |
                b < b2 <= bump ==> spec_is_keyed(spec_derive_identity(seed, b2)),
            None => forall|b2: u8| b2 <= bump ==> spec_is_keyed(spec_derive_identity(seed, b2)),
        },
    decreases bump,
{
    if !spec_is_keyed(spec_derive_identity(seed, bump)) {
    } else if bump == 0 {
    } else {
        lemma_canonical_search_exact(seed, (bump - 1) as u8);
    }
}

/// A proof that a transaction is signed by the identity derived from the
/// proof's seed material; it is rebuilt on every call from the seed and the
/// stored bump, never cached.
#[derive(Clone, Copy, PartialEq, Eq, Structural, Debug)]
pub struct SignatureProof {
    pub seed: Identity,
    pub bump: u8,
}

/// The identity a signature proof signs for.
pub open spec fn signer_of(p: SignatureProof) -> Identity {
    spec_derive_identity(p.seed, p.bump)
}

/// Builds the signature proof for the identity derived from `seed` and
/// `bump`.
pub fn prove_as(seed: Identity, bump: u8) -> (r: SignatureProof)
    ensures
        r == (SignatureProof { seed, bump }),
        signer_of(r) == spec_derive_identity(seed, bump),
{
    SignatureProof { seed, bump }
}

} // verus!
