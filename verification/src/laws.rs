//! The pool's laws, stated and proved once and for all over the
//! specification functions that the public operations' contracts equate
//! their behaviour with.

use vstd::prelude::*;

use crate::address::{spec_id_root, AccountId};
use crate::pool::{
    dir_wf, has_pool, pool_balanced, pool_index, pool_ready, pool_root, pool_wired,
    spec_add_liquidity, spec_fresh_pool, spec_initialize, spec_remove_liquidity, AddLiquidity,
    Pool, RemoveLiquidity, RATE,
};
use crate::token::{spec_burn, ErrorCode, MintAccount, NativeAccount, TokenAccount};

verus! {

/// Initializing the same base-asset pool twice: the first call succeeds and
/// the second fails with `PoolAlreadyInitialized`, leaving the directory as
/// the first call left it.
pub proof fn lemma_initialize_exactly_once(s: Seq<Pool>, base_mint: AccountId)
    requires
        !has_pool(s, spec_id_root(base_mint)),
    ensures
        ({
            let first = spec_initialize(s, base_mint);
            let second = spec_initialize(first.1, base_mint);
            &&& first.0 is Ok
            &&& second.0 == Err::<(), ErrorCode>(ErrorCode::PoolAlreadyInitialized)
            &&& second.1 == first.1
        }),
{
    let s1 = spec_initialize(s, base_mint).1;
    assert(pool_root(s1[s.len() as int]) == spec_id_root(base_mint));
    assert(has_pool(s1, spec_id_root(base_mint)));
}

/// Distinct base assets anchor distinct pools: two different external
/// base-asset identifiers have different roots, so initializing one never
/// occupies the other's derived record address and both initializations
/// succeed.
pub proof fn lemma_distinct_base_assets_distinct_pools(
    s: Seq<Pool>,
    first_mint: AccountId,
    second_mint: AccountId,
)
    requires
        first_mint is External,
        second_mint is External,
        first_mint != second_mint,
        !has_pool(s, spec_id_root(first_mint)),
        !has_pool(s, spec_id_root(second_mint)),
    ensures
        ({
            let first = spec_initialize(s, first_mint);
            let second = spec_initialize(first.1, second_mint);
            first.0 is Ok && second.0 is Ok
        }),
{
    let s1 = spec_initialize(s, first_mint).1;
    let other_root = spec_id_root(second_mint);
    assert forall|i: int| 0 <= i < s1.len() implies pool_root(#[trigger] s1[i]) != other_root by {
        if i < s.len() {
            assert(s1[i] == s[i]);
        }
    }
}

/// A deposit or a withdrawal invoked before the pool is initialized fails
/// with `PoolNotInitialized` and changes nothing.
pub proof fn lemma_operations_before_initialize_fail(
    s: Seq<Pool>,
    a: AddLiquidity,
    w: RemoveLiquidity,
    native_amount: u64,
    base_amount: u64,
    share_amount: u64,
)
    requires
        !pool_ready(s, spec_id_root(a.pool_state)),
        !pool_ready(s, spec_id_root(w.pool_state)),
    ensures
        spec_add_liquidity(s, a, native_amount, base_amount) == (
            Err::<(), ErrorCode>(ErrorCode::PoolNotInitialized),
            s,
            a,
        ),
        spec_remove_liquidity(s, w, share_amount) == (
            Err::<(), ErrorCode>(ErrorCode::PoolNotInitialized),
            s,
            w,
        ),
{
}

/// One successful public operation, projected to the amounts it moves
/// through the pool's own accounts.
pub enum LiquidityEvent {
    Deposit { native_amount: u64, base_amount: u64 },
    Withdraw { share_amount: u64 },
}

/// The effect of a successful deposit on the pool's own accounts: the share
/// supply and the quote vault grow by the native amount, the base vault by
/// the base amount.
pub open spec fn pool_deposit(p: Pool, native_amount: u64, base_amount: u64) -> Option<Pool> {
    if p.share_mint.supply + native_amount <= u64::MAX && p.quote_vault.balance + native_amount
        <= u64::MAX && p.base_vault.balance + base_amount <= u64::MAX {
        Some(
            Pool {
                share_mint: MintAccount {
                    supply: (p.share_mint.supply + native_amount) as u64,
                    ..p.share_mint
                },
                quote_vault: NativeAccount {
                    balance: (p.quote_vault.balance + native_amount) as u64,
                    ..p.quote_vault
                },
                base_vault: TokenAccount {
                    balance: (p.base_vault.balance + base_amount) as u64,
                    ..p.base_vault
                },
                ..p
            },
        )
    } else {
        None
    }
}

/// The effect of a successful withdrawal on the pool's own accounts: the
/// share supply and the quote vault shrink by the share amount, the base
/// vault by `share_amount * RATE`.
pub open spec fn pool_withdraw(p: Pool, share_amount: u64) -> Option<Pool> {
    if p.share_mint.supply >= share_amount && p.quote_vault.balance >= share_amount && share_amount
        * RATE <= u64::MAX && p.base_vault.balance >= share_amount * RATE {
        Some(
            Pool {
                share_mint: MintAccount {
                    supply: (p.share_mint.supply - share_amount) as u64,
                    ..p.share_mint
                },
                quote_vault: NativeAccount {
                    balance: (p.quote_vault.balance - share_amount) as u64,
                    ..p.quote_vault
                },
                base_vault: TokenAccount {
                    balance: (p.base_vault.balance - share_amount * RATE) as u64,
                    ..p.base_vault
                },
                ..p
            },
        )
    } else {
        None
    }
}

/// A successful deposit changes exactly the targeted pool, and changes it
/// exactly as [`pool_deposit`] says.
pub proof fn lemma_add_liquidity_refines_deposit(
    s: Seq<Pool>,
    a: AddLiquidity,
    native_amount: u64,
    base_amount: u64,
)
    requires
        spec_add_liquidity(s, a, native_amount, base_amount).0 is Ok,
    ensures
        ({
            let i = pool_index(s, spec_id_root(a.pool_state));
            let stepped = spec_add_liquidity(s, a, native_amount, base_amount).1;
            &&& pool_deposit(s[i], native_amount, base_amount) == Some(stepped[i])
            &&& stepped == s.update(i, stepped[i])
        }),
{
}

/// A successful withdrawal changes exactly the targeted pool, and changes it
/// exactly as [`pool_withdraw`] says.
pub proof fn lemma_remove_liquidity_refines_withdraw(
    s: Seq<Pool>,
    a: RemoveLiquidity,
    share_amount: u64,
)
    requires
        spec_remove_liquidity(s, a, share_amount).0 is Ok,
    ensures
        ({
            let i = pool_index(s, spec_id_root(a.pool_state));
            let stepped = spec_remove_liquidity(s, a, share_amount).1;
            &&& pool_withdraw(s[i], share_amount) == Some(stepped[i])
            &&& stepped == s.update(i, stepped[i])
        }),
{
}

/// A pool's state after a sequence of successful deposits and withdrawals,
/// or `None` when some step of the sequence cannot succeed.
pub open spec fn apply_events(p: Pool, events: Seq<LiquidityEvent>) -> Option<Pool>
    decreases events.len(),
{
    if events.len() == 0 {
        Some(p)
    } else {
        match apply_events(p, events.drop_last()) {
            None => None,
            Some(q) => match events.last() {
                LiquidityEvent::Deposit { native_amount, base_amount } => pool_deposit(
                    q,
                    native_amount,
                    base_amount,
                ),
                LiquidityEvent::Withdraw { share_amount } => pool_withdraw(q, share_amount),
            },
        }
    }
}

/// The sum of the native amounts deposited over a sequence of events.
pub open spec fn deposited_native_total(events: Seq<LiquidityEvent>) -> int
    decreases events.len(),
{
    if events.len() == 0 {
        0
    } else {
        deposited_native_total(events.drop_last()) + match events.last() {
            LiquidityEvent::Deposit { native_amount, .. } => native_amount as int,
            LiquidityEvent::Withdraw { .. } => 0,
        }
    }
}

/// The sum of the share amounts withdrawn over a sequence of events.
pub open spec fn withdrawn_share_total(events: Seq<LiquidityEvent>) -> int
    decreases events.len(),
{
    if events.len() == 0 {
        0
    } else {
        withdrawn_share_total(events.drop_last()) + match events.last() {
            LiquidityEvent::Deposit { .. } => 0,
            LiquidityEvent::Withdraw { share_amount } => share_amount as int,
        }
    }
}

/// Conservation: in every state reachable from a freshly initialized pool by
/// successful deposits and withdrawals, the share supply equals the total
/// native amount deposited minus the total share amount withdrawn, that
/// difference is never negative, and it sits exactly in the quote vault.
pub proof fn lemma_share_supply_conservation(base_mint: AccountId, events: Seq<LiquidityEvent>)
    ensures
        match apply_events(spec_fresh_pool(base_mint), events) {
            Some(p) => p.share_mint.supply == deposited_native_total(events)
                - withdrawn_share_total(events) && deposited_native_total(events)
                - withdrawn_share_total(events) >= 0 && p.quote_vault.balance
                == p.share_mint.supply,
            None => true,
        },
    decreases events.len(),
{
    if events.len() > 0 {
        lemma_share_supply_conservation(base_mint, events.drop_last());
    }
}

/// A withdrawal whose account set and burn step are in order fails with
/// `InvalidRate` exactly when the requested share amount exceeds the quote
/// vault's balance at call time; at equality it does not.
pub proof fn lemma_invalid_rate_exactly_on_reserve_shortfall(
    s: Seq<Pool>,
    a: RemoveLiquidity,
    share_amount: u64,
)
    requires
        pool_ready(s, spec_id_root(a.pool_state)),
        a.user_base.owner == a.owner,
        spec_burn(
            s[pool_index(s, spec_id_root(a.pool_state))].share_mint,
            a.user_share,
            a.owner,
            share_amount,
        ) is Ok,
    ensures
        spec_remove_liquidity(s, a, share_amount).0 == Err::<(), ErrorCode>(ErrorCode::InvalidRate)
            <==> share_amount > s[pool_index(s, spec_id_root(a.pool_state))].quote_vault.balance,
{
}

/// In a well-formed directory the reserve check is a pure safety net:
/// whatever amount the burn step accepts is already covered by the quote
/// vault, because the supply sits there in full. `InvalidRate` can only
/// surface after the vault was mutated out of band.
pub proof fn lemma_reserves_cover_burns(s: Seq<Pool>, a: RemoveLiquidity, share_amount: u64)
    requires
        dir_wf(s),
    ensures
        spec_remove_liquidity(s, a, share_amount).0 != Err::<(), ErrorCode>(
            ErrorCode::InvalidRate,
        ),
{
    let root = spec_id_root(a.pool_state);
    if pool_ready(s, root) {
        let i = pool_index(s, root);
        assert(0 <= i < s.len() && pool_root(s[i]) == root);
        assert(pool_balanced(s[i]));
    }
}

/// A withdrawal succeeds whenever the pool is initialized, the caller owns a
/// share account with enough shares of the pool's mint, the quote vault
/// covers the share amount (equality included), and the payout fits: the
/// base vault holds `share_amount * RATE` and neither caller account
/// overflows.
pub proof fn lemma_remove_liquidity_succeeds(s: Seq<Pool>, a: RemoveLiquidity, share_amount: u64)
    requires
        dir_wf(s),
        pool_ready(s, spec_id_root(a.pool_state)),
        ({
            let p = s[pool_index(s, spec_id_root(a.pool_state))];
            &&& a.user_share.owner == a.owner
            &&& a.user_base.owner == a.owner
            &&& a.user_share.mint == p.share_mint.id
            &&& a.user_share.balance >= share_amount
            &&& share_amount <= p.quote_vault.balance
            &&& a.user_native.balance + share_amount <= u64::MAX
            &&& share_amount * RATE <= u64::MAX
            &&& a.user_base.mint == p.base_vault.mint
            &&& p.base_vault.balance >= share_amount * RATE
            &&& a.user_base.balance + share_amount * RATE <= u64::MAX
        }),
    ensures
        spec_remove_liquidity(s, a, share_amount).0 is Ok,
{
    let root = spec_id_root(a.pool_state);
    let i = pool_index(s, root);
    assert(0 <= i < s.len() && pool_root(s[i]) == root);
    assert(pool_wired(s[i]) && pool_balanced(s[i]));
}

/// Deposit asymmetry: a deposit of `native_amount` succeeds with any
/// `base_amount` the caller can fund — no condition ties the base amount to
/// `native_amount * RATE` at deposit time.
pub proof fn lemma_deposit_amounts_untied(
    s: Seq<Pool>,
    a: AddLiquidity,
    native_amount: u64,
    base_amount: u64,
)
    requires
        dir_wf(s),
        pool_ready(s, spec_id_root(a.pool_state)),
        ({
            let p = s[pool_index(s, spec_id_root(a.pool_state))];
            &&& a.user_share.owner == a.owner
            &&& a.user_share.mint == p.share_mint.id
            &&& a.user_share.balance + native_amount <= u64::MAX
            &&& p.share_mint.supply + native_amount <= u64::MAX
            &&& a.user_native.owner == a.owner
            &&& a.user_native.balance >= native_amount
            &&& p.quote_vault.balance + native_amount <= u64::MAX
            &&& a.user_base.owner == a.owner
            &&& a.user_base.mint == p.base_vault.mint
            &&& a.user_base.balance >= base_amount
            &&& p.base_vault.balance + base_amount <= u64::MAX
        }),
    ensures
        spec_add_liquidity(s, a, native_amount, base_amount).0 is Ok,
{
    let root = spec_id_root(a.pool_state);
    let i = pool_index(s, root);
    assert(0 <= i < s.len() && pool_root(s[i]) == root);
    assert(pool_wired(s[i]) && pool_balanced(s[i]));
}

} // verus!
