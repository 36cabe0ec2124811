//! The token-ledger interface the pool delegates to: fungible mints, token
//! custody accounts, native-value accounts, and the Mint / Transfer / Burn /
//! balance-adjustment operations on them, each authenticated by an authority
//! credential.
//!
//! The ledger is modelled in memory: an account is a plain record and every
//! operation is a total function that either applies its full effect or
//! returns a named error and leaves every account untouched. Authority is a
//! capability in the form of an [`AccountId`]: an operation that moves value
//! out of an account demands the credential that controls that account.

use vstd::prelude::*;

use crate::address::AccountId;

verus! {

/// Everything that can go wrong in the pool or in the ledger operations it
/// delegates to. The first three conditions are the pool's own; the rest are
/// surfaced unmodified from the ledger steps.
#[derive(Clone, Copy, PartialEq, Eq, Structural, Debug)]
pub enum ErrorCode {
    /// A pool record already exists at the derived address.
    PoolAlreadyInitialized,
    /// No initialized pool record exists at the derived address.
    PoolNotInitialized,
    /// The quote vault cannot cover the requested withdrawal (the name is
    /// kept for compatibility: the condition is reserve sufficiency, not an
    /// exchange-rate mismatch).
    InvalidRate,
    /// The presented credential does not control the debited account.
    OwnerMismatch,
    /// A token account does not reference the expected mint.
    MintMismatch,
    /// The debited account's balance is below the requested amount, or a burn
    /// exceeds the mint's recorded supply.
    InsufficientFunds,
    /// Crediting the amount would overflow a balance, a supply, or the
    /// base-asset payout computation.
    BalanceOverflow,
}

/// A custody account for units of one fungible token.
#[derive(Clone, Copy, PartialEq, Eq, Structural, Debug)]
pub struct TokenAccount {
    /// The account's stable identifier.
    pub id: AccountId,
    /// The mint whose units this account holds.
    pub mint: AccountId,
    /// The credential that may move value out of this account.
    pub owner: AccountId,
    pub balance: u64,
}

/// A fungible-token issuer.
#[derive(Clone, Copy, PartialEq, Eq, Structural, Debug)]
pub struct MintAccount {
    /// The mint's stable identifier.
    pub id: AccountId,
    /// The credential that may issue new units.
    pub authority: AccountId,
    /// Fractional digits of precision.
    pub decimals: u8,
    /// Total units in circulation.
    pub supply: u64,
}

/// An account holding the ledger's native value unit directly.
#[derive(Clone, Copy, PartialEq, Eq, Structural, Debug)]
pub struct NativeAccount {
    /// The account's stable identifier.
    pub id: AccountId,
    /// The credential that may debit this account.
    pub owner: AccountId,
    pub balance: u64,
}

/// What `mint_to` does: issue `amount` fresh units of `mint` into `dest`,
/// authenticated by the mint's issuing authority.
pub open spec fn spec_mint_to(
    mint: MintAccount,
    dest: TokenAccount,
    authority: AccountId,
    amount: u64,
) -> Result<(MintAccount, TokenAccount), ErrorCode> {
    if authority != mint.authority {
        Err(ErrorCode::OwnerMismatch)
    } else if dest.mint != mint.id {
        Err(ErrorCode::MintMismatch)
    } else if mint.supply + amount > u64::MAX || dest.balance + amount > u64::MAX {
        Err(ErrorCode::BalanceOverflow)
    } else {
        Ok(
            (
                MintAccount { supply: (mint.supply + amount) as u64, ..mint },
                TokenAccount { balance: (dest.balance + amount) as u64, ..dest },
            ),
        )
    }
}

/// Issue `amount` fresh units of `mint` into `dest`. Atomic: on any error
/// neither account changes.
pub fn mint_to(
    mint: &mut MintAccount,
    dest: &mut TokenAccount,
    authority: AccountId,
    amount: u64,
) -> (r: Result<(), ErrorCode>)
    ensures
        match spec_mint_to(*old(mint), *old(dest), authority, amount) {
            Ok(updated) => r is Ok && *final(mint) == updated.0 && *final(dest) == updated.1,
            Err(e) => r == Err::<(), ErrorCode>(e) && *final(mint) == *old(mint) && *final(dest)
                == *old(dest),
        },
{
    if authority != mint.authority {
        return Err(ErrorCode::OwnerMismatch);
    }
    if dest.mint != mint.id {
        return Err(ErrorCode::MintMismatch);
    }
    let new_supply = match mint.supply.checked_add(amount) {
        Some(s) => s,
        None => {
            return Err(ErrorCode::BalanceOverflow);
        },
    };
    let new_balance = match dest.balance.checked_add(amount) {
        Some(b) => b,
        None => {
            return Err(ErrorCode::BalanceOverflow);
        },
    };
    mint.supply = new_supply;
    dest.balance = new_balance;
    Ok(())
}

/// What `transfer` does: move `amount` token units from `source` to `dest`,
/// authenticated by the credential controlling `source`.
pub open spec fn spec_transfer(
    source: TokenAccount,
    dest: TokenAccount,
    authority: AccountId,
    amount: u64,
) -> Result<(TokenAccount, TokenAccount), ErrorCode> {
    if authority != source.owner {
        Err(ErrorCode::OwnerMismatch)
    } else if source.mint != dest.mint {
        Err(ErrorCode::MintMismatch)
    } else if source.balance < amount {
        Err(ErrorCode::InsufficientFunds)
    } else if dest.balance + amount > u64::MAX {
        Err(ErrorCode::BalanceOverflow)
    } else {
        Ok(
            (
                TokenAccount { balance: (source.balance - amount) as u64, ..source },
                TokenAccount { balance: (dest.balance + amount) as u64, ..dest },
            ),
        )
    }
}

/// Move `amount` token units from `source` to `dest`. Atomic: on any error
/// neither account changes.
pub fn transfer(
    source: &mut TokenAccount,
    dest: &mut TokenAccount,
    authority: AccountId,
    amount: u64,
) -> (r: Result<(), ErrorCode>)
    ensures
        match spec_transfer(*old(source), *old(dest), authority, amount) {
            Ok(updated) => r is Ok && *final(source) == updated.0 && *final(dest) == updated.1,
            Err(e) => r == Err::<(), ErrorCode>(e) && *final(source) == *old(source)
                && *final(dest) == *old(dest),
        },
{
    if authority != source.owner {
        return Err(ErrorCode::OwnerMismatch);
    }
    if source.mint != dest.mint {
        return Err(ErrorCode::MintMismatch);
    }
    if source.balance < amount {
        return Err(ErrorCode::InsufficientFunds);
    }
    let new_dest = match dest.balance.checked_add(amount) {
        Some(b) => b,
        None => {
            return Err(ErrorCode::BalanceOverflow);
        },
    };
    source.balance = source.balance - amount;
    dest.balance = new_dest;
    Ok(())
}

/// What `burn` does: destroy `amount` units of `mint` held in `source`,
/// authenticated by the holder's credential (burning requires the holder's
/// authorization, not the mint's).
pub open spec fn spec_burn(
    mint: MintAccount,
    source: TokenAccount,
    authority: AccountId,
    amount: u64,
) -> Result<(MintAccount, TokenAccount), ErrorCode> {
    if authority != source.owner {
        Err(ErrorCode::OwnerMismatch)
    } else if source.mint != mint.id {
        Err(ErrorCode::MintMismatch)
    } else if source.balance < amount || mint.supply < amount {
        Err(ErrorCode::InsufficientFunds)
    } else {
        Ok(
            (
                MintAccount { supply: (mint.supply - amount) as u64, ..mint },
                TokenAccount { balance: (source.balance - amount) as u64, ..source },
            ),
        )
    }
}

/// Destroy `amount` units of `mint` held in `source`. Atomic: on any error
/// neither account changes.
pub fn burn(
    mint: &mut MintAccount,
    source: &mut TokenAccount,
    authority: AccountId,
    amount: u64,
) -> (r: Result<(), ErrorCode>)
    ensures
        match spec_burn(*old(mint), *old(source), authority, amount) {
            Ok(updated) => r is Ok && *final(mint) == updated.0 && *final(source) == updated.1,
            Err(e) => r == Err::<(), ErrorCode>(e) && *final(mint) == *old(mint) && *final(source)
                == *old(source),
        },
{
    if authority != source.owner {
        return Err(ErrorCode::OwnerMismatch);
    }
    if source.mint != mint.id {
        return Err(ErrorCode::MintMismatch);
    }
    if source.balance < amount || mint.supply < amount {
        return Err(ErrorCode::InsufficientFunds);
    }
    mint.supply = mint.supply - amount;
    source.balance = source.balance - amount;
    Ok(())
}

/// What `native_transfer` does: move `amount` native units from `source` to
/// `dest`, authenticated by the credential controlling `source`.
pub open spec fn spec_native_transfer(
    source: NativeAccount,
    dest: NativeAccount,
    authority: AccountId,
    amount: u64,
) -> Result<(NativeAccount, NativeAccount), ErrorCode> {
    if authority != source.owner {
        Err(ErrorCode::OwnerMismatch)
    } else if source.balance < amount {
        Err(ErrorCode::InsufficientFunds)
    } else if dest.balance + amount > u64::MAX {
        Err(ErrorCode::BalanceOverflow)
    } else {
        Ok(
            (
                NativeAccount { balance: (source.balance - amount) as u64, ..source },
                NativeAccount { balance: (dest.balance + amount) as u64, ..dest },
            ),
        )
    }
}

/// Move `amount` native units from `source` to `dest`. Atomic: on any error
/// neither account changes.
pub fn native_transfer(
    source: &mut NativeAccount,
    dest: &mut NativeAccount,
    authority: AccountId,
    amount: u64,
) -> (r: Result<(), ErrorCode>)
    ensures
        match spec_native_transfer(*old(source), *old(dest), authority, amount) {
            Ok(updated) => r is Ok && *final(source) == updated.0 && *final(dest) == updated.1,
            Err(e) => r == Err::<(), ErrorCode>(e) && *final(source) == *old(source)
                && *final(dest) == *old(dest),
        },
{
    if authority != source.owner {
        return Err(ErrorCode::OwnerMismatch);
    }
    if source.balance < amount {
        return Err(ErrorCode::InsufficientFunds);
    }
    let new_dest = match dest.balance.checked_add(amount) {
        Some(b) => b,
        None => {
            return Err(ErrorCode::BalanceOverflow);
        },
    };
    source.balance = source.balance - amount;
    dest.balance = new_dest;
    Ok(())
}

/// What `debit_native` does: remove `amount` native units from `account`,
/// authenticated by the credential controlling it. Together with
/// [`spec_credit_native`] this is the privileged direct balance adjustment
/// used where the pool itself controls a raw native-value account.
pub open spec fn spec_debit_native(
    account: NativeAccount,
    authority: AccountId,
    amount: u64,
) -> Result<NativeAccount, ErrorCode> {
    if authority != account.owner {
        Err(ErrorCode::OwnerMismatch)
    } else if account.balance < amount {
        Err(ErrorCode::InsufficientFunds)
    } else {
        Ok(NativeAccount { balance: (account.balance - amount) as u64, ..account })
    }
}

/// Remove `amount` native units from `account`. Atomic: on error the account
/// is unchanged.
pub fn debit_native(account: &mut NativeAccount, authority: AccountId, amount: u64) -> (r: Result<
    (),
    ErrorCode,
>)
    ensures
        match spec_debit_native(*old(account), authority, amount) {
            Ok(updated) => r is Ok && *final(account) == updated,
            Err(e) => r == Err::<(), ErrorCode>(e) && *final(account) == *old(account),
        },
{
    if authority != account.owner {
        return Err(ErrorCode::OwnerMismatch);
    }
    if account.balance < amount {
        return Err(ErrorCode::InsufficientFunds);
    }
    account.balance = account.balance - amount;
    Ok(())
}

/// What `credit_native` does: add `amount` native units to `account`.
/// Receiving value needs no credential.
pub open spec fn spec_credit_native(account: NativeAccount, amount: u64) -> Result<
    NativeAccount,
    ErrorCode,
> {
    if account.balance + amount > u64::MAX {
        Err(ErrorCode::BalanceOverflow)
    } else {
        Ok(NativeAccount { balance: (account.balance + amount) as u64, ..account })
    }
}

/// Add `amount` native units to `account`. Atomic: on error the account is
/// unchanged.
pub fn credit_native(account: &mut NativeAccount, amount: u64) -> (r: Result<(), ErrorCode>)
    ensures
        match spec_credit_native(*old(account), amount) {
            Ok(updated) => r is Ok && *final(account) == updated,
            Err(e) => r == Err::<(), ErrorCode>(e) && *final(account) == *old(account),
        },
{
    let new_balance = match account.balance.checked_add(amount) {
        Some(b) => b,
        None => {
            return Err(ErrorCode::BalanceOverflow);
        },
    };
    account.balance = new_balance;
    Ok(())
}

} // verus!
