//! Deterministic derivation of sub-account identifiers.
//!
//! Every account the pool controls lives at a stable identifier computed by a
//! pure mapping from a seed label, a parent identifier and a uniqueness nonce.
//! The mapping is a collision-resistant composite key: two derived identifiers
//! coincide exactly when the label, the parent's root and the nonce all
//! coincide, so the sub-accounts of distinct pools can never collide.

use vstd::prelude::*;

verus! {

/// The seed labels under which the pool derives its record and sub-accounts.
#[derive(Clone, Copy, PartialEq, Eq, Structural, Debug)]
pub enum SeedLabel {
    /// The pool's persisted initialization record.
    PoolRecord,
    /// The program-controlled signer for the pool's custody accounts.
    Authority,
    /// Custody of the deposited base-asset units.
    BaseVault,
    /// Custody of the deposited native-value units.
    QuoteVault,
    /// Issuer of the pool's claim ("share") tokens.
    ShareMint,
}

/// A stable account identifier: either owned by the outside world (a caller's
/// account, the base-asset mint) or derived by the pool from a seed path.
///
/// A derived identifier records the seed label, the root (the external
/// identifier the seed path started from) and a uniqueness nonce. Chaining
/// derivations keeps the root, so everything derived under one pool carries
/// that pool's base-asset root.
#[derive(Clone, Copy, PartialEq, Eq, Structural, Debug)]
pub enum AccountId {
    External(u64),
    Derived(SeedLabel, u64, u64),
}

/// The external identifier at the start of an identifier's seed path.
pub open spec fn spec_id_root(id: AccountId) -> u64 {
    match id {
        AccountId::External(b) => b,
        AccountId::Derived(_, b, _) => b,
    }
}

/// The external identifier at the start of an identifier's seed path.
#[verifier::when_used_as_spec(spec_id_root)]
pub fn id_root(id: AccountId) -> (r: u64)
    ensures
        r == spec_id_root(id),
{
    match id {
        AccountId::External(b) => b,
        AccountId::Derived(_, b, _) => b,
    }
}

/// Pure mapping (seed label, parent identifier, nonce) -> stable sub-account
/// identifier. The result is rooted where the parent is rooted.
pub fn derive_address(label: SeedLabel, parent: AccountId, nonce: u64) -> (r: AccountId)
    ensures
        r == AccountId::Derived(label, spec_id_root(parent), nonce),
{
    AccountId::Derived(label, id_root(parent), nonce)
}

/// Collision resistance of the composite key: two derived identifiers are
/// equal exactly when their labels, parent roots and nonces are all equal.
pub proof fn lemma_derive_address_injective(
    l1: SeedLabel,
    p1: AccountId,
    n1: u64,
    l2: SeedLabel,
    p2: AccountId,
    n2: u64,
)
    ensures
        AccountId::Derived(l1, spec_id_root(p1), n1) == AccountId::Derived(
            l2,
            spec_id_root(p2),
            n2,
        ) <==> (l1 == l2 && spec_id_root(p1) == spec_id_root(p2) && n1 == n2),
{
}

} // verus!
