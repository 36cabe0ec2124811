//! A two-asset liquidity pool: a reserve pool between a base fungible asset
//! and a ledger's native value unit. Liquidity providers deposit both sides
//! and receive a proportional claim token ("share"); they redeem shares for a
//! fixed-rate mix of the two reserves. The pool's four sub-accounts live at
//! deterministically derived addresses and are controlled by a derived
//! authority credential that no external signer holds.
//!
//! Every operation executes as one atomic unit of work: it either applies its
//! full effect or reports a named error and leaves every account exactly as
//! it was. The pool holds no locks of its own; the caller serializes
//! operations that touch the same pool.

pub mod address;
pub mod token;
pub mod pool;
pub mod laws;
