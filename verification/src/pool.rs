//! The liquidity pool itself: the persisted pool record, its four derived
//! sub-accounts, and the three public operations `initialize`, `add_liquidity`
//! and `remove_liquidity`.
//!
//! Each operation's contract equates its result and its effect with a pure
//! specification function over the directory's mathematical view, so callers
//! reason about the operations by unfolding those functions. Every operation
//! is atomic: on any error the directory and the caller's accounts are
//! returned exactly as they were.

use vstd::prelude::*;

use crate::address::{derive_address, spec_id_root, id_root, AccountId, SeedLabel};
use crate::token::{
    burn, credit_native, debit_native, mint_to, native_transfer, spec_burn, spec_credit_native,
    spec_debit_native, spec_mint_to, spec_native_transfer, spec_transfer, transfer, ErrorCode,
    MintAccount, NativeAccount, TokenAccount,
};

verus! {

/// The fixed global exchange rate: a withdrawal of `n` shares pays out
/// `n` native units and `n * RATE` base-asset units. One constant for the
/// whole deployment, not a per-pool parameter.
pub const RATE: u64 = 10;

/// Fractional digits of precision of every pool's share mint.
pub const SHARE_DECIMALS: u8 = 9;

/// The seed-path nonce under which a pool derives its record and
/// sub-accounts. The seed labels already separate the five derived
/// identifiers, so one fixed nonce disambiguates nothing further.
pub const POOL_NONCE: u64 = 0;

/// The persisted initialization record of a pool. The flag transitions
/// false to true exactly once and never reverts; no other field exists.
#[derive(Clone, Copy, PartialEq, Eq, Structural, Debug)]
pub struct PoolState {
    pub is_initialized: bool,
}

/// One base-asset/native-asset reserve pair: the initialization record and
/// the three custody sub-accounts, all derived from the base-asset
/// identifier's root and controlled by the pool's derived authority.
#[derive(Clone, Copy, PartialEq, Eq, Structural, Debug)]
pub struct Pool {
    /// The base-asset mint this pool anchors.
    pub base_mint: AccountId,
    /// The persisted initialization record.
    pub state: PoolState,
    /// Custody of the deposited base-asset units.
    pub base_vault: TokenAccount,
    /// Custody of the deposited native-value units; a raw value-holding
    /// account whose balance is adjusted by privileged mutation.
    pub quote_vault: NativeAccount,
    /// Issuer of the pool's share tokens.
    pub share_mint: MintAccount,
}

/// The side table recording which pool records exist, keyed by the root of
/// each pool's base-asset identifier.
pub struct PoolDirectory {
    pub pools: Vec<Pool>,
}

/// The external root that a pool's seed paths start from.
pub open spec fn pool_root(p: Pool) -> u64 {
    spec_id_root(p.base_mint)
}

/// The derived credential that controls a pool's custody accounts. It is an
/// address with no stored payload: the program presents it, no external
/// signer can.
pub open spec fn authority_id(root: u64) -> AccountId {
    AccountId::Derived(SeedLabel::Authority, root, POOL_NONCE)
}

/// A pool whose anchor is an identifier of the outside world, whose
/// sub-accounts sit at their derived addresses and are controlled by the
/// pool's authority, and whose share mint has the fixed precision. Anchoring
/// on an external identifier keeps the composite key collision-resistant:
/// distinct external identifiers have distinct roots, so distinct base
/// assets can never share a pool record address.
pub open spec fn pool_wired(p: Pool) -> bool {
    let root = pool_root(p);
    &&& p.base_mint is External
    &&& p.base_vault.id == AccountId::Derived(SeedLabel::BaseVault, root, POOL_NONCE)
    &&& p.base_vault.owner == authority_id(root)
    &&& p.base_vault.mint == p.base_mint
    &&& p.quote_vault.id == AccountId::Derived(SeedLabel::QuoteVault, root, POOL_NONCE)
    &&& p.quote_vault.owner == authority_id(root)
    &&& p.share_mint.id == AccountId::Derived(SeedLabel::ShareMint, root, POOL_NONCE)
    &&& p.share_mint.authority == authority_id(root)
    &&& p.share_mint.decimals == SHARE_DECIMALS
}

/// The share supply always equals the quote vault's balance: shares are
/// issued one to one against deposited native units and burned one to one
/// against withdrawn ones.
pub open spec fn pool_balanced(p: Pool) -> bool {
    p.share_mint.supply == p.quote_vault.balance
}

/// No two pool records share a root, so every derived sub-account address
/// belongs to at most one pool.
pub open spec fn roots_unique(s: Seq<Pool>) -> bool {
    forall|i: int, j: int|
        0 <= i < s.len() && 0 <= j < s.len() && i != j ==> pool_root(s[i]) != pool_root(s[j])
}

/// Well-formedness of the whole directory.
pub open spec fn dir_wf(s: Seq<Pool>) -> bool {
    &&& roots_unique(s)
    &&& forall|i: int| 0 <= i < s.len() ==> pool_wired(#[trigger] s[i]) && pool_balanced(s[i])
}

/// Whether a pool record exists at the address derived from `root`.
pub open spec fn has_pool(s: Seq<Pool>, root: u64) -> bool {
    exists|i: int| 0 <= i < s.len() && pool_root(#[trigger] s[i]) == root
}

/// The index of the pool record rooted at `root`; meaningful when
/// [`has_pool`] holds (and unique when roots are unique).
pub open spec fn pool_index(s: Seq<Pool>, root: u64) -> int {
    choose|i: int| 0 <= i < s.len() && pool_root(#[trigger] s[i]) == root
}

/// Whether an initialized pool is ready for deposits and withdrawals.
pub open spec fn pool_ready(s: Seq<Pool>, root: u64) -> bool {
    has_pool(s, root) && s[pool_index(s, root)].state.is_initialized
}

impl PoolDirectory {
    /// The directory's well-formedness: every operation preserves it.
    pub open spec fn wf(self) -> bool {
        dir_wf(self.pools@)
    }

    /// An empty directory: no pool exists yet.
    pub fn new() -> (r: PoolDirectory)
        ensures
            r.pools@ == Seq::<Pool>::empty(),
            r.wf(),
    {
        PoolDirectory { pools: Vec::new() }
    }
}

/// Find the pool record rooted at `root`, if one exists.
fn find_pool(dir: &PoolDirectory, root: u64) -> (r: Option<usize>)
    requires
        roots_unique(dir.pools@),
    ensures
        match r {
            Some(i) => has_pool(dir.pools@, root) && i as int == pool_index(dir.pools@, root)
                && i < dir.pools@.len() && pool_root(dir.pools@[i as int]) == root,
            None => !has_pool(dir.pools@, root),
        },
{
    let n = dir.pools.len();
    let mut k: usize = 0;
    while k < n
        invariant
            n == dir.pools@.len(),
            k <= n,
            roots_unique(dir.pools@),
            forall|j: int| 0 <= j < k ==> pool_root(#[trigger] dir.pools@[j]) != root,
        decreases n - k,
    {
        if id_root(dir.pools[k].base_mint) == root {
            proof {
                assert(pool_root(dir.pools@[k as int]) == root);
                assert(has_pool(dir.pools@, root));
                assert(pool_index(dir.pools@, root) == k as int);
            }
            return Some(k);
        }
        k = k + 1;
    }
    None
}

/// The account set `initialize` takes: the base-asset mint anchoring the new
/// pool. Everything else is derived. The mint is an account of the outside
/// world, so its identifier is external — `initialize` requires that, which
/// keeps pool anchors injective.
#[derive(Clone, Copy, PartialEq, Eq, Structural, Debug)]
pub struct Initialize {
    pub base_mint: AccountId,
}

/// The pool created for `base_mint`: record flagged initialized, custody
/// accounts at their derived addresses with empty reserves, share mint with
/// zero supply, all controlled by the derived authority.
pub open spec fn spec_fresh_pool(base_mint: AccountId) -> Pool {
    let root = spec_id_root(base_mint);
    Pool {
        base_mint,
        state: PoolState { is_initialized: true },
        base_vault: TokenAccount {
            id: AccountId::Derived(SeedLabel::BaseVault, root, POOL_NONCE),
            mint: base_mint,
            owner: authority_id(root),
            balance: 0,
        },
        quote_vault: NativeAccount {
            id: AccountId::Derived(SeedLabel::QuoteVault, root, POOL_NONCE),
            owner: authority_id(root),
            balance: 0,
        },
        share_mint: MintAccount {
            id: AccountId::Derived(SeedLabel::ShareMint, root, POOL_NONCE),
            authority: authority_id(root),
            decimals: SHARE_DECIMALS,
            supply: 0,
        },
    }
}

/// What `initialize` does: create the pool record and its sub-accounts
/// exactly once; fail if a record already exists at the derived address.
pub open spec fn spec_initialize(s: Seq<Pool>, base_mint: AccountId) -> (Result<
    (),
    ErrorCode,
>, Seq<Pool>) {
    if has_pool(s, spec_id_root(base_mint)) {
        (Err(ErrorCode::PoolAlreadyInitialized), s)
    } else {
        (Ok(()), s.push(spec_fresh_pool(base_mint)))
    }
}

/// Create the pool anchoring `accounts.base_mint`: the record (flagged
/// initialized), the authority, both vaults and the share mint, each at its
/// derived address. Fails with `PoolAlreadyInitialized` when a record
/// already exists at the derived address — whether its stored flag is set
/// or the record merely occupies the address, a double safety net.
pub fn initialize(dir: &mut PoolDirectory, accounts: &Initialize) -> (r: Result<(), ErrorCode>)
    requires
        old(dir).wf(),
        accounts.base_mint is External,
    ensures
        final(dir).wf(),
        ({
            let step = spec_initialize(old(dir).pools@, accounts.base_mint);
            r == step.0 && final(dir).pools@ == step.1
        }),
{
    let root = id_root(accounts.base_mint);
    match find_pool(dir, root) {
        Some(_) => Err(ErrorCode::PoolAlreadyInitialized),
        None => {
            let record = derive_address(SeedLabel::PoolRecord, accounts.base_mint, POOL_NONCE);
            let authority = derive_address(SeedLabel::Authority, record, POOL_NONCE);
            let pool = Pool {
                base_mint: accounts.base_mint,
                state: PoolState { is_initialized: true },
                base_vault: TokenAccount {
                    id: derive_address(SeedLabel::BaseVault, record, POOL_NONCE),
                    mint: accounts.base_mint,
                    owner: authority,
                    balance: 0,
                },
                quote_vault: NativeAccount {
                    id: derive_address(SeedLabel::QuoteVault, record, POOL_NONCE),
                    owner: authority,
                    balance: 0,
                },
                share_mint: MintAccount {
                    id: derive_address(SeedLabel::ShareMint, record, POOL_NONCE),
                    authority,
                    decimals: SHARE_DECIMALS,
                    supply: 0,
                },
            };
            dir.pools.push(pool);
            proof {
                let s1 = dir.pools@;
                let s0 = old(dir).pools@;
                assert forall|i: int| 0 <= i < s1.len() implies pool_wired(#[trigger] s1[i])
                    && pool_balanced(s1[i]) by {
                    if i < s0.len() {
                        assert(s1[i] == s0[i]);
                    } else {
                        assert(s1[i] == spec_fresh_pool(accounts.base_mint));
                    }
                }
                assert forall|i: int, j: int|
                    0 <= i < s1.len() && 0 <= j < s1.len() && i != j implies pool_root(s1[i])
                    != pool_root(s1[j]) by {
                    if i < s0.len() && j < s0.len() {
                        assert(s1[i] == s0[i] && s1[j] == s0[j]);
                    } else if i < s0.len() {
                        assert(pool_root(s1[i]) != root);
                    } else {
                        assert(pool_root(s1[j]) != root);
                    }
                }
            }
            Ok(())
        },
    }
}

/// The account set `add_liquidity` takes: the pool record's address, the
/// caller's identity, and the caller's three holding accounts. The holding
/// accounts are owned by the caller, not by the pool; the pool references
/// them and hands them back updated.
#[derive(Clone, Copy, PartialEq, Eq, Structural, Debug)]
pub struct AddLiquidity {
    /// Address of the pool record the deposit targets.
    pub pool_state: AccountId,
    /// The caller's identity, authorizing movement out of the caller's
    /// accounts.
    pub owner: AccountId,
    /// The caller's native-value source.
    pub user_native: NativeAccount,
    /// The caller's base-asset holding account.
    pub user_base: TokenAccount,
    /// The caller's share-token holding account.
    pub user_share: TokenAccount,
}

/// What `add_liquidity` does: mint shares one to one against the native
/// deposit, pull the native units into the quote vault, and pull the
/// base-asset units into the base vault — or fail with the first failing
/// step's error and no effect. The caller must own the share-token
/// destination; a foreign account is rejected before any step. The base
/// amount is not validated against the native amount: no rate check ties
/// the two at deposit time.
pub open spec fn spec_add_liquidity(
    s: Seq<Pool>,
    a: AddLiquidity,
    native_amount: u64,
    base_amount: u64,
) -> (Result<(), ErrorCode>, Seq<Pool>, AddLiquidity) {
    let root = spec_id_root(a.pool_state);
    if !pool_ready(s, root) {
        (Err(ErrorCode::PoolNotInitialized), s, a)
    } else if a.user_share.owner != a.owner {
        (Err(ErrorCode::OwnerMismatch), s, a)
    } else {
        let i = pool_index(s, root);
        let p = s[i];
        let share_amount = native_amount;
        match spec_mint_to(p.share_mint, a.user_share, authority_id(root), share_amount) {
            Err(e) => (Err(e), s, a),
            Ok(minted) => match spec_native_transfer(
                a.user_native,
                p.quote_vault,
                a.owner,
                native_amount,
            ) {
                Err(e) => (Err(e), s, a),
                Ok(moved_native) => match spec_transfer(
                    a.user_base,
                    p.base_vault,
                    a.owner,
                    base_amount,
                ) {
                    Err(e) => (Err(e), s, a),
                    Ok(moved_base) => {
                        let p2 = Pool {
                            share_mint: minted.0,
                            quote_vault: moved_native.1,
                            base_vault: moved_base.1,
                            ..p
                        };
                        let a2 = AddLiquidity {
                            user_share: minted.1,
                            user_native: moved_native.0,
                            user_base: moved_base.0,
                            ..a
                        };
                        (Ok(()), s.update(i, p2), a2)
                    },
                },
            },
        }
    }
}

/// Deposit `native_amount` native units and `base_amount` base-asset units
/// into the pool; the caller receives `native_amount` shares. Atomic: all
/// three steps succeed or the directory and the caller's accounts are left
/// exactly as they were, with the first failing step's error.
pub fn add_liquidity(
    dir: &mut PoolDirectory,
    accounts: &mut AddLiquidity,
    native_amount: u64,
    base_amount: u64,
) -> (r: Result<(), ErrorCode>)
    requires
        old(dir).wf(),
    ensures
        final(dir).wf(),
        ({
            let step = spec_add_liquidity(
                old(dir).pools@,
                *old(accounts),
                native_amount,
                base_amount,
            );
            r == step.0 && final(dir).pools@ == step.1 && *final(accounts) == step.2
        }),
{
    let root = id_root(accounts.pool_state);
    let i = match find_pool(dir, root) {
        Some(i) => i,
        None => {
            return Err(ErrorCode::PoolNotInitialized);
        },
    };
    let p = dir.pools[i];
    if !p.state.is_initialized {
        return Err(ErrorCode::PoolNotInitialized);
    }
    // The caller must own the account the shares are minted into.
    if accounts.user_share.owner != accounts.owner {
        return Err(ErrorCode::OwnerMismatch);
    }
    let authority = derive_address(SeedLabel::Authority, accounts.pool_state, POOL_NONCE);
    // Shares are issued one to one against the native deposit.
    let share_amount = native_amount;
    let mut share_mint = p.share_mint;
    let mut user_share = accounts.user_share;
    if let Err(e) = mint_to(&mut share_mint, &mut user_share, authority, share_amount) {
        return Err(e);
    }
    let mut user_native = accounts.user_native;
    let mut quote_vault = p.quote_vault;
    if let Err(e) = native_transfer(&mut user_native, &mut quote_vault, accounts.owner,
        native_amount) {
        return Err(e);
    }
    let mut user_base = accounts.user_base;
    let mut base_vault = p.base_vault;
    if let Err(e) = transfer(&mut user_base, &mut base_vault, accounts.owner, base_amount) {
        return Err(e);
    }
    let updated = Pool { share_mint, quote_vault, base_vault, ..p };
    dir.pools[i] = updated;
    accounts.user_share = user_share;
    accounts.user_native = user_native;
    accounts.user_base = user_base;
    proof {
        let s0 = old(dir).pools@;
        let s1 = dir.pools@;
        let ii = i as int;
        assert forall|j: int| 0 <= j < s1.len() implies pool_wired(#[trigger] s1[j])
            && pool_balanced(s1[j]) by {
            if j == ii {
                assert(pool_wired(s0[ii]) && pool_balanced(s0[ii]));
            } else {
                assert(s1[j] == s0[j]);
            }
        }
        assert forall|x: int, y: int|
            0 <= x < s1.len() && 0 <= y < s1.len() && x != y implies pool_root(s1[x]) != pool_root(
            s1[y],
        ) by {
            assert(pool_root(s1[x]) == pool_root(s0[x]));
            assert(pool_root(s1[y]) == pool_root(s0[y]));
        }
    }
    Ok(())
}

/// The account set `remove_liquidity` takes: the same shape as a deposit's.
#[derive(Clone, Copy, PartialEq, Eq, Structural, Debug)]
pub struct RemoveLiquidity {
    /// Address of the pool record the withdrawal targets.
    pub pool_state: AccountId,
    /// The caller's identity, authorizing the burn from the caller's share
    /// account.
    pub owner: AccountId,
    /// The caller's native-value destination.
    pub user_native: NativeAccount,
    /// The caller's base-asset holding account.
    pub user_base: TokenAccount,
    /// The caller's share-token holding account.
    pub user_share: TokenAccount,
}

/// What `remove_liquidity` does: burn the shares, pay the caller one native
/// unit per share out of the quote vault (a privileged balance adjustment,
/// since the vault is a raw value account), and pay `share_amount * RATE`
/// base-asset units out of the base vault — or fail with the first failing
/// step's error and no effect. The caller must own the base-asset
/// destination; a foreign account is rejected before any step. `InvalidRate`
/// reports a quote reserve too small for the withdrawal; the name is kept
/// for compatibility.
pub open spec fn spec_remove_liquidity(
    s: Seq<Pool>,
    a: RemoveLiquidity,
    share_amount: u64,
) -> (Result<(), ErrorCode>, Seq<Pool>, RemoveLiquidity) {
    let root = spec_id_root(a.pool_state);
    if !pool_ready(s, root) {
        (Err(ErrorCode::PoolNotInitialized), s, a)
    } else if a.user_base.owner != a.owner {
        (Err(ErrorCode::OwnerMismatch), s, a)
    } else {
        let i = pool_index(s, root);
        let p = s[i];
        match spec_burn(p.share_mint, a.user_share, a.owner, share_amount) {
            Err(e) => (Err(e), s, a),
            Ok(burned) => if p.quote_vault.balance < share_amount {
                (Err(ErrorCode::InvalidRate), s, a)
            } else {
                match spec_debit_native(p.quote_vault, authority_id(root), share_amount) {
                    Err(e) => (Err(e), s, a),
                    Ok(debited) => match spec_credit_native(a.user_native, share_amount) {
                        Err(e) => (Err(e), s, a),
                        Ok(credited) => if share_amount * RATE > u64::MAX {
                            (Err(ErrorCode::BalanceOverflow), s, a)
                        } else {
                            let payout = (share_amount * RATE) as u64;
                            match spec_transfer(p.base_vault, a.user_base, authority_id(root),
                                payout) {
                                Err(e) => (Err(e), s, a),
                                Ok(paid) => {
                                    let p2 = Pool {
                                        share_mint: burned.0,
                                        quote_vault: debited,
                                        base_vault: paid.0,
                                        ..p
                                    };
                                    let a2 = RemoveLiquidity {
                                        user_share: burned.1,
                                        user_native: credited,
                                        user_base: paid.1,
                                        ..a
                                    };
                                    (Ok(()), s.update(i, p2), a2)
                                },
                            }
                        },
                    },
                }
            },
        }
    }
}

/// Redeem `share_amount` shares: burn them, pay out `share_amount` native
/// units and `share_amount * RATE` base-asset units to the caller. Atomic:
/// every step succeeds or the directory and the caller's accounts are left
/// exactly as they were, with the first failing step's error.
pub fn remove_liquidity(
    dir: &mut PoolDirectory,
    accounts: &mut RemoveLiquidity,
    share_amount: u64,
) -> (r: Result<(), ErrorCode>)
    requires
        old(dir).wf(),
    ensures
        final(dir).wf(),
        ({
            let step = spec_remove_liquidity(old(dir).pools@, *old(accounts), share_amount);
            r == step.0 && final(dir).pools@ == step.1 && *final(accounts) == step.2
        }),
{
    let root = id_root(accounts.pool_state);
    let i = match find_pool(dir, root) {
        Some(i) => i,
        None => {
            return Err(ErrorCode::PoolNotInitialized);
        },
    };
    let p = dir.pools[i];
    if !p.state.is_initialized {
        return Err(ErrorCode::PoolNotInitialized);
    }
    // The caller must own the account the base-asset payout goes to.
    if accounts.user_base.owner != accounts.owner {
        return Err(ErrorCode::OwnerMismatch);
    }
    let authority = derive_address(SeedLabel::Authority, accounts.pool_state, POOL_NONCE);
    let mut share_mint = p.share_mint;
    let mut user_share = accounts.user_share;
    if let Err(e) = burn(&mut share_mint, &mut user_share, accounts.owner, share_amount) {
        return Err(e);
    }
    // Reserve sufficiency: the quote vault must cover the withdrawal.
    if p.quote_vault.balance < share_amount {
        return Err(ErrorCode::InvalidRate);
    }
    let mut quote_vault = p.quote_vault;
    if let Err(e) = debit_native(&mut quote_vault, authority, share_amount) {
        return Err(e);
    }
    let mut user_native = accounts.user_native;
    if let Err(e) = credit_native(&mut user_native, share_amount) {
        return Err(e);
    }
    let payout = match share_amount.checked_mul(RATE) {
        Some(v) => v,
        None => {
            return Err(ErrorCode::BalanceOverflow);
        },
    };
    let mut base_vault = p.base_vault;
    let mut user_base = accounts.user_base;
    if let Err(e) = transfer(&mut base_vault, &mut user_base, authority, payout) {
        return Err(e);
    }
    let updated = Pool { share_mint, quote_vault, base_vault, ..p };
    dir.pools[i] = updated;
    accounts.user_share = user_share;
    accounts.user_native = user_native;
    accounts.user_base = user_base;
    proof {
        let s0 = old(dir).pools@;
        let s1 = dir.pools@;
        let ii = i as int;
        assert forall|j: int| 0 <= j < s1.len() implies pool_wired(#[trigger] s1[j])
            && pool_balanced(s1[j]) by {
            if j == ii {
                assert(pool_wired(s0[ii]) && pool_balanced(s0[ii]));
            } else {
                assert(s1[j] == s0[j]);
            }
        }
        assert forall|x: int, y: int|
            0 <= x < s1.len() && 0 <= y < s1.len() && x != y implies pool_root(s1[x]) != pool_root(
            s1[y],
        ) by {
            assert(pool_root(s1[x]) == pool_root(s0[x]));
            assert(pool_root(s1[y]) == pool_root(s0[y]));
        }
    }
    Ok(())
}

} // verus!
