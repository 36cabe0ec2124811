use remitano::address::{AccountId, SeedLabel};
use remitano::pool::{
    add_liquidity, initialize, remove_liquidity, AddLiquidity, Initialize, PoolDirectory,
    RemoveLiquidity, POOL_NONCE, RATE, SHARE_DECIMALS,
};
use remitano::token::{ErrorCode, NativeAccount, TokenAccount};

const BASE: u64 = 7;
const CALLER: u64 = 99;

fn base_mint() -> AccountId {
    AccountId::External(BASE)
}

fn pool_state_id() -> AccountId {
    AccountId::Derived(SeedLabel::PoolRecord, BASE, POOL_NONCE)
}

fn share_mint_id() -> AccountId {
    AccountId::Derived(SeedLabel::ShareMint, BASE, POOL_NONCE)
}

fn owner() -> AccountId {
    AccountId::External(CALLER)
}

fn initialized_dir() -> PoolDirectory {
    let mut dir = PoolDirectory::new();
    let r = initialize(&mut dir, &Initialize { base_mint: base_mint() });
    assert_eq!(r, Ok(()));
    dir
}

fn deposit_accounts(native_balance: u64, base_balance: u64, share_balance: u64) -> AddLiquidity {
    AddLiquidity {
        pool_state: pool_state_id(),
        owner: owner(),
        user_native: NativeAccount {
            id: AccountId::External(100),
            owner: owner(),
            balance: native_balance,
        },
        user_base: TokenAccount {
            id: AccountId::External(101),
            mint: base_mint(),
            owner: owner(),
            balance: base_balance,
        },
        user_share: TokenAccount {
            id: AccountId::External(102),
            mint: share_mint_id(),
            owner: owner(),
            balance: share_balance,
        },
    }
}

fn withdraw_accounts(a: &AddLiquidity) -> RemoveLiquidity {
    RemoveLiquidity {
        pool_state: a.pool_state,
        owner: a.owner,
        user_native: a.user_native,
        user_base: a.user_base,
        user_share: a.user_share,
    }
}

#[test]
fn initialize_creates_fresh_pool() {
    let dir = initialized_dir();
    assert_eq!(dir.pools.len(), 1);
    let p = &dir.pools[0];
    assert!(p.state.is_initialized);
    assert_eq!(p.base_vault.balance, 0);
    assert_eq!(p.quote_vault.balance, 0);
    assert_eq!(p.share_mint.supply, 0);
    assert_eq!(p.share_mint.decimals, SHARE_DECIMALS);
    assert_eq!(p.base_vault.mint, base_mint());
    let authority = AccountId::Derived(SeedLabel::Authority, BASE, POOL_NONCE);
    assert_eq!(p.base_vault.owner, authority);
    assert_eq!(p.quote_vault.owner, authority);
    assert_eq!(p.share_mint.authority, authority);
}

#[test]
fn initialize_twice_fails() {
    let mut dir = initialized_dir();
    let r = initialize(&mut dir, &Initialize { base_mint: base_mint() });
    assert_eq!(r, Err(ErrorCode::PoolAlreadyInitialized));
    assert_eq!(dir.pools.len(), 1);
    assert!(dir.pools[0].state.is_initialized);
}

#[test]
fn initialize_refuses_occupied_address_even_without_flag() {
    // The second safety net: a record occupying the derived address refuses
    // re-creation even when its stored flag was never set.
    let mut dir = initialized_dir();
    dir.pools[0].state.is_initialized = false;
    let r = initialize(&mut dir, &Initialize { base_mint: base_mint() });
    assert_eq!(r, Err(ErrorCode::PoolAlreadyInitialized));
}

#[test]
fn add_liquidity_before_initialize_fails() {
    let mut dir = PoolDirectory::new();
    let mut acc = deposit_accounts(1000, 1000, 0);
    let r = add_liquidity(&mut dir, &mut acc, 10, 10);
    assert_eq!(r, Err(ErrorCode::PoolNotInitialized));
    assert_eq!(acc.user_native.balance, 1000);
    assert_eq!(acc.user_base.balance, 1000);
    assert_eq!(acc.user_share.balance, 0);
}

#[test]
fn remove_liquidity_before_initialize_fails() {
    let mut dir = PoolDirectory::new();
    let mut acc = withdraw_accounts(&deposit_accounts(0, 0, 500));
    let r = remove_liquidity(&mut dir, &mut acc, 10);
    assert_eq!(r, Err(ErrorCode::PoolNotInitialized));
    assert_eq!(acc.user_share.balance, 500);
}

#[test]
fn operations_on_uninitialized_record_fail() {
    let mut dir = initialized_dir();
    dir.pools[0].state.is_initialized = false;
    let mut acc = deposit_accounts(1000, 1000, 0);
    assert_eq!(add_liquidity(&mut dir, &mut acc, 10, 10), Err(ErrorCode::PoolNotInitialized));
    let mut wacc = withdraw_accounts(&acc);
    assert_eq!(remove_liquidity(&mut dir, &mut wacc, 1), Err(ErrorCode::PoolNotInitialized));
}

#[test]
fn round_trip_deposit_then_withdraw() {
    let mut dir = initialized_dir();
    let mut acc = deposit_accounts(5000, 20000, 0);
    let r = add_liquidity(&mut dir, &mut acc, 1000, 10000);
    assert_eq!(r, Ok(()));
    assert_eq!(acc.user_share.balance, 1000);
    assert_eq!(dir.pools[0].quote_vault.balance, 1000);
    assert_eq!(dir.pools[0].base_vault.balance, 10000);
    assert_eq!(acc.user_native.balance, 4000);
    assert_eq!(acc.user_base.balance, 10000);

    let mut wacc = withdraw_accounts(&acc);
    let r = remove_liquidity(&mut dir, &mut wacc, 400);
    assert_eq!(r, Ok(()));
    // 400 native units and 400 * RATE = 4000 base-asset units paid out.
    assert_eq!(RATE, 10);
    assert_eq!(wacc.user_native.balance, 4400);
    assert_eq!(wacc.user_base.balance, 14000);
    assert_eq!(wacc.user_share.balance, 600);
    assert_eq!(dir.pools[0].share_mint.supply, 600);
    assert_eq!(dir.pools[0].quote_vault.balance, 600);
    assert_eq!(dir.pools[0].base_vault.balance, 6000);
}

#[test]
fn supply_tracks_net_deposits() {
    let mut dir = initialized_dir();
    let mut acc = deposit_accounts(10000, 50000, 0);
    assert_eq!(add_liquidity(&mut dir, &mut acc, 1000, 10000), Ok(()));
    assert_eq!(add_liquidity(&mut dir, &mut acc, 500, 1), Ok(()));
    let mut wacc = withdraw_accounts(&acc);
    assert_eq!(remove_liquidity(&mut dir, &mut wacc, 300), Ok(()));
    assert_eq!(remove_liquidity(&mut dir, &mut wacc, 200), Ok(()));
    // supply == 1000 + 500 - 300 - 200, and it sits in the quote vault
    assert_eq!(dir.pools[0].share_mint.supply, 1000);
    assert_eq!(dir.pools[0].quote_vault.balance, 1000);
    assert_eq!(wacc.user_share.balance, 1000);
}

#[test]
fn withdraw_everything_boundary() {
    // The reserve check passes at equality: withdrawing every issued share
    // empties both vaults.
    let mut dir = initialized_dir();
    let mut acc = deposit_accounts(500, 5000, 0);
    assert_eq!(add_liquidity(&mut dir, &mut acc, 500, 5000), Ok(()));
    let mut wacc = withdraw_accounts(&acc);
    assert_eq!(remove_liquidity(&mut dir, &mut wacc, 500), Ok(()));
    assert_eq!(dir.pools[0].share_mint.supply, 0);
    assert_eq!(dir.pools[0].quote_vault.balance, 0);
    assert_eq!(dir.pools[0].base_vault.balance, 0);
    assert_eq!(wacc.user_native.balance, 500);
    assert_eq!(wacc.user_base.balance, 5000);
}

#[test]
fn invalid_rate_exactly_when_reserves_short() {
    // Simulate a drained quote vault: the reserve-sufficiency check reports
    // InvalidRate exactly when the share amount exceeds the vault's balance,
    // and passes at equality.
    let mut dir = initialized_dir();
    let mut acc = deposit_accounts(500, 5000, 0);
    assert_eq!(add_liquidity(&mut dir, &mut acc, 500, 5000), Ok(()));
    dir.pools[0].quote_vault.balance = 400;
    let mut wacc = withdraw_accounts(&acc);
    assert_eq!(remove_liquidity(&mut dir, &mut wacc, 450), Err(ErrorCode::InvalidRate));
    // nothing changed on the failure
    assert_eq!(wacc.user_share.balance, 500);
    assert_eq!(dir.pools[0].share_mint.supply, 500);
    assert_eq!(remove_liquidity(&mut dir, &mut wacc, 400), Ok(()));
    assert_eq!(dir.pools[0].quote_vault.balance, 0);
}

#[test]
fn deposit_does_not_validate_base_against_rate() {
    // base_amount bears no required relation to native_amount * RATE.
    let mut dir = initialized_dir();
    let mut acc = deposit_accounts(10000, 10000, 0);
    assert_eq!(add_liquidity(&mut dir, &mut acc, 1000, 3), Ok(()));
    assert_eq!(add_liquidity(&mut dir, &mut acc, 5, 9000), Ok(()));
    assert_eq!(add_liquidity(&mut dir, &mut acc, 0, 997), Ok(()));
    assert_eq!(dir.pools[0].quote_vault.balance, 1005);
    assert_eq!(dir.pools[0].base_vault.balance, 10000);
    assert_eq!(acc.user_share.balance, 1005);
}

#[test]
fn deposit_with_foreign_base_account_fails() {
    let mut dir = initialized_dir();
    let mut acc = deposit_accounts(1000, 1000, 0);
    acc.user_base.owner = AccountId::External(55);
    let r = add_liquidity(&mut dir, &mut acc, 10, 10);
    assert_eq!(r, Err(ErrorCode::OwnerMismatch));
    assert_eq!(dir.pools[0].share_mint.supply, 0);
    assert_eq!(dir.pools[0].quote_vault.balance, 0);
    assert_eq!(acc.user_share.balance, 0);
    assert_eq!(acc.user_native.balance, 1000);
}

#[test]
fn deposit_into_foreign_share_account_fails() {
    // The mint destination must belong to the caller: no shares may be
    // minted into a third party's account.
    let mut dir = initialized_dir();
    let mut acc = deposit_accounts(1000, 1000, 0);
    acc.user_share.owner = AccountId::External(55);
    let r = add_liquidity(&mut dir, &mut acc, 10, 10);
    assert_eq!(r, Err(ErrorCode::OwnerMismatch));
    assert_eq!(acc.user_share.balance, 0);
    assert_eq!(dir.pools[0].share_mint.supply, 0);
    assert_eq!(dir.pools[0].quote_vault.balance, 0);
    assert_eq!(acc.user_native.balance, 1000);
}

#[test]
fn deposit_with_foreign_native_account_fails() {
    let mut dir = initialized_dir();
    let mut acc = deposit_accounts(1000, 1000, 0);
    acc.user_native.owner = AccountId::External(55);
    assert_eq!(add_liquidity(&mut dir, &mut acc, 10, 10), Err(ErrorCode::OwnerMismatch));
}

#[test]
fn deposit_into_wrong_share_account_fails() {
    let mut dir = initialized_dir();
    let mut acc = deposit_accounts(1000, 1000, 0);
    acc.user_share.mint = AccountId::External(1234);
    assert_eq!(add_liquidity(&mut dir, &mut acc, 10, 10), Err(ErrorCode::MintMismatch));
}

#[test]
fn deposit_from_wrong_base_account_fails() {
    let mut dir = initialized_dir();
    let mut acc = deposit_accounts(1000, 1000, 0);
    acc.user_base.mint = AccountId::External(1234);
    assert_eq!(add_liquidity(&mut dir, &mut acc, 10, 10), Err(ErrorCode::MintMismatch));
}

#[test]
fn deposit_beyond_native_balance_fails() {
    let mut dir = initialized_dir();
    let mut acc = deposit_accounts(9, 1000, 0);
    let r = add_liquidity(&mut dir, &mut acc, 10, 10);
    assert_eq!(r, Err(ErrorCode::InsufficientFunds));
    // atomic: the mint step's tentative effect was discarded
    assert_eq!(acc.user_share.balance, 0);
    assert_eq!(dir.pools[0].share_mint.supply, 0);
}

#[test]
fn deposit_beyond_base_balance_fails() {
    let mut dir = initialized_dir();
    let mut acc = deposit_accounts(1000, 9, 0);
    assert_eq!(add_liquidity(&mut dir, &mut acc, 10, 10), Err(ErrorCode::InsufficientFunds));
    assert_eq!(dir.pools[0].quote_vault.balance, 0);
    assert_eq!(acc.user_native.balance, 1000);
}

#[test]
fn deposit_overflowing_supply_fails() {
    let mut dir = initialized_dir();
    let mut acc = deposit_accounts(u64::MAX, 0, 0);
    assert_eq!(add_liquidity(&mut dir, &mut acc, u64::MAX, 0), Ok(()));
    assert_eq!(dir.pools[0].share_mint.supply, u64::MAX);
    let mut more = deposit_accounts(1, 0, 0);
    more.user_share.id = AccountId::External(202);
    assert_eq!(add_liquidity(&mut dir, &mut more, 1, 0), Err(ErrorCode::BalanceOverflow));
    assert_eq!(dir.pools[0].share_mint.supply, u64::MAX);
}

#[test]
fn withdraw_beyond_share_balance_fails() {
    let mut dir = initialized_dir();
    let mut acc = deposit_accounts(500, 5000, 0);
    assert_eq!(add_liquidity(&mut dir, &mut acc, 500, 5000), Ok(()));
    let mut wacc = withdraw_accounts(&acc);
    assert_eq!(remove_liquidity(&mut dir, &mut wacc, 501), Err(ErrorCode::InsufficientFunds));
    assert_eq!(wacc.user_share.balance, 500);
    assert_eq!(dir.pools[0].share_mint.supply, 500);
}

#[test]
fn withdraw_with_foreign_share_account_fails() {
    let mut dir = initialized_dir();
    let mut acc = deposit_accounts(500, 5000, 0);
    assert_eq!(add_liquidity(&mut dir, &mut acc, 500, 5000), Ok(()));
    let mut wacc = withdraw_accounts(&acc);
    wacc.owner = AccountId::External(55);
    wacc.user_native.owner = AccountId::External(55);
    assert_eq!(remove_liquidity(&mut dir, &mut wacc, 100), Err(ErrorCode::OwnerMismatch));
}

#[test]
fn withdraw_to_foreign_base_account_fails() {
    // The base-asset payout destination must belong to the caller.
    let mut dir = initialized_dir();
    let mut acc = deposit_accounts(500, 5000, 0);
    assert_eq!(add_liquidity(&mut dir, &mut acc, 500, 5000), Ok(()));
    let mut wacc = withdraw_accounts(&acc);
    wacc.user_base.owner = AccountId::External(55);
    assert_eq!(remove_liquidity(&mut dir, &mut wacc, 100), Err(ErrorCode::OwnerMismatch));
    assert_eq!(wacc.user_share.balance, 500);
    assert_eq!(wacc.user_base.balance, 0);
    assert_eq!(dir.pools[0].share_mint.supply, 500);
    assert_eq!(dir.pools[0].base_vault.balance, 5000);
}

#[test]
fn withdraw_overflowing_payout_fails() {
    let mut dir = initialized_dir();
    let mut acc = deposit_accounts(u64::MAX, 0, 0);
    assert_eq!(add_liquidity(&mut dir, &mut acc, u64::MAX, 0), Ok(()));
    acc.user_native.balance = 0;
    let mut wacc = withdraw_accounts(&acc);
    // u64::MAX * RATE does not fit: the payout computation reports overflow
    assert_eq!(remove_liquidity(&mut dir, &mut wacc, u64::MAX), Err(ErrorCode::BalanceOverflow));
    assert_eq!(dir.pools[0].share_mint.supply, u64::MAX);
    assert_eq!(wacc.user_native.balance, 0);
}

#[test]
fn withdraw_beyond_base_reserves_fails() {
    // The quote side covers the withdrawal but the base vault cannot pay
    // share_amount * RATE: the transfer step reports insufficient funds.
    let mut dir = initialized_dir();
    let mut acc = deposit_accounts(500, 100, 0);
    assert_eq!(add_liquidity(&mut dir, &mut acc, 500, 100), Ok(()));
    let mut wacc = withdraw_accounts(&acc);
    assert_eq!(remove_liquidity(&mut dir, &mut wacc, 500), Err(ErrorCode::InsufficientFunds));
    assert_eq!(dir.pools[0].quote_vault.balance, 500);
    assert_eq!(wacc.user_share.balance, 500);
}

#[test]
fn zero_amount_round_trip() {
    let mut dir = initialized_dir();
    let mut acc = deposit_accounts(0, 0, 0);
    assert_eq!(add_liquidity(&mut dir, &mut acc, 0, 0), Ok(()));
    assert_eq!(acc.user_share.balance, 0);
    let mut wacc = withdraw_accounts(&acc);
    assert_eq!(remove_liquidity(&mut dir, &mut wacc, 0), Ok(()));
    assert_eq!(dir.pools[0].share_mint.supply, 0);
}

#[test]
fn pools_with_distinct_base_assets_are_independent() {
    let mut dir = PoolDirectory::new();
    assert_eq!(initialize(&mut dir, &Initialize { base_mint: AccountId::External(1) }), Ok(()));
    assert_eq!(initialize(&mut dir, &Initialize { base_mint: AccountId::External(2) }), Ok(()));
    assert_eq!(dir.pools.len(), 2);
    assert_eq!(
        initialize(&mut dir, &Initialize { base_mint: AccountId::External(1) }),
        Err(ErrorCode::PoolAlreadyInitialized)
    );

    let owner = AccountId::External(CALLER);
    let mut acc = AddLiquidity {
        pool_state: AccountId::Derived(SeedLabel::PoolRecord, 2, POOL_NONCE),
        owner,
        user_native: NativeAccount { id: AccountId::External(100), owner, balance: 1000 },
        user_base: TokenAccount {
            id: AccountId::External(101),
            mint: AccountId::External(2),
            owner,
            balance: 1000,
        },
        user_share: TokenAccount {
            id: AccountId::External(102),
            mint: AccountId::Derived(SeedLabel::ShareMint, 2, POOL_NONCE),
            owner,
            balance: 0,
        },
    };
    assert_eq!(add_liquidity(&mut dir, &mut acc, 100, 200), Ok(()));
    // the other pool is untouched
    assert_eq!(dir.pools[0].share_mint.supply, 0);
    assert_eq!(dir.pools[1].share_mint.supply, 100);
}
