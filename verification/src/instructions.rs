//! The four operations of the ledger, each on the records it touches.
//!
//! An operation receives its records in a context, together with the identity
//! of the caller. It checks every condition before it writes anything, so a
//! refused operation leaves its context exactly as it found it.

use vstd::prelude::*;
use crate::error::ErrorCode;
use crate::identity::Identity;
use crate::state::{CoinAccount, CoinSettings};

verus! {

/// What `new` works on: the place of the supply record, empty until the
/// record is created, and the identity that is to become its authority.
#[derive(Clone, Copy, Debug, PartialEq, Eq)]
pub struct Constructor {
    pub settings: Option<CoinSettings>,
    pub authority: Identity,
}

/// What `initialize_account` works on: the place of one holder account,
/// empty until the account is created, and the identity that is to become
/// its authority.
#[derive(Clone, Copy, Debug, PartialEq, Eq)]
pub struct InitializeAccount {
    pub coin_account: Option<CoinAccount>,
    pub authority: Identity,
}

/// What `mint` works on: the supply record, the caller in `authority`, and
/// the account that receives the new coins.
#[derive(Clone, Copy, Debug, PartialEq, Eq)]
pub struct Mint {
    pub coin_settings: CoinSettings,
    pub authority: Identity,
    pub target_account: CoinAccount,
}

/// What `transfer` moves `amount` between: the source, the destination, and
/// the caller in `authority`.
#[derive(Clone, Copy, Debug, PartialEq, Eq)]
pub struct Transfer {
    pub from_account: CoinAccount,
    pub target_account: CoinAccount,
    pub authority: Identity,
}

/// Whether a transfer of `amount` goes through, and if not, why not.
///
/// The source must hold the amount, the caller must be the source's
/// authority, and the destination must have room for the amount, in this
/// order of precedence.
pub open spec fn transfer_verdict(ctx: Transfer, amount: u64) -> Result<(), ErrorCode> {
    if ctx.from_account.balance < amount {
        Err(ErrorCode::InsufficientBalance)
    } else if ctx.authority != ctx.from_account.authority {
        Err(ErrorCode::Unauthorized)
    } else if ctx.target_account.balance + amount > u64::MAX {
        Err(ErrorCode::Overflow)
    } else {
        Ok(())
    }
}

/// Moves `amount` from the source account to the destination account.
pub fn transfer(ctx: &mut Transfer, amount: u64) -> (r: Result<(), ErrorCode>)
    ensures
        r == transfer_verdict(*old(ctx), amount),
        r is Err ==> *final(ctx) == *old(ctx),
        r is Ok ==> {
            &&& final(ctx).from_account.balance == old(ctx).from_account.balance - amount
            &&& final(ctx).target_account.balance == old(ctx).target_account.balance + amount
            &&& final(ctx).from_account.authority == old(ctx).from_account.authority
            &&& final(ctx).target_account.authority == old(ctx).target_account.authority
            &&& final(ctx).authority == old(ctx).authority
        },
{
    let debited = match ctx.from_account.balance.checked_sub(amount) {
        Some(left) => left,
        None => {
            return Err(ErrorCode::InsufficientBalance);
        },
    };
    if !ctx.authority.same(&ctx.from_account.authority) {
        return Err(ErrorCode::Unauthorized);
    }
    let credited = match ctx.target_account.balance.checked_add(amount) {
        Some(sum) => sum,
        None => {
            return Err(ErrorCode::Overflow);
        },
    };
    ctx.from_account.balance = debited;
    ctx.target_account.balance = credited;
    Ok(())
}

/// Whether a mint of `amount` goes through, and if not, why not.
///
/// The caller must be the authority of the supply record; then both the
/// receiving balance and the total supply must have room for the amount.
pub open spec fn mint_verdict(ctx: Mint, amount: u64) -> Result<(), ErrorCode> {
    if ctx.authority != ctx.coin_settings.authority {
        Err(ErrorCode::Unauthorized)
    } else if ctx.target_account.balance + amount > u64::MAX
        || ctx.coin_settings.total_supply + amount > u64::MAX {
        Err(ErrorCode::Overflow)
    } else {
        Ok(())
    }
}

/// Issues `amount` new coins to the target account and counts them in the
/// total supply. Either both numbers grow or neither does.
pub fn mint(ctx: &mut Mint, amount: u64) -> (r: Result<(), ErrorCode>)
    ensures
        r == mint_verdict(*old(ctx), amount),
        r is Err ==> *final(ctx) == *old(ctx),
        r is Ok ==> {
            &&& final(ctx).target_account.balance == old(ctx).target_account.balance + amount
            &&& final(ctx).coin_settings.total_supply == old(ctx).coin_settings.total_supply
                + amount
            &&& final(ctx).target_account.authority == old(ctx).target_account.authority
            &&& final(ctx).coin_settings.authority == old(ctx).coin_settings.authority
            &&& final(ctx).authority == old(ctx).authority
        },
{
    if !ctx.authority.same(&ctx.coin_settings.authority) {
        return Err(ErrorCode::Unauthorized);
    }
    let balance = match ctx.target_account.balance.checked_add(amount) {
        Some(sum) => sum,
        None => {
            return Err(ErrorCode::Overflow);
        },
    };
    let supply = match ctx.coin_settings.total_supply.checked_add(amount) {
        Some(sum) => sum,
        None => {
            return Err(ErrorCode::Overflow);
        },
    };
    ctx.target_account.balance = balance;
    ctx.coin_settings.total_supply = supply;
    Ok(())
}

/// Creates the supply record with the given authority and nothing issued.
/// Where a supply record already exists, it is left as it is.
pub fn new(ctx: &mut Constructor) -> (r: Result<(), ErrorCode>)
    ensures
        old(ctx).settings is Some ==> {
            &&& r == Err::<(), ErrorCode>(ErrorCode::AlreadyInitialized)
            &&& *final(ctx) == *old(ctx)
        },
        old(ctx).settings is None ==> {
            &&& r == Ok::<(), ErrorCode>(())
            &&& final(ctx).settings == Some(
                (CoinSettings { authority: old(ctx).authority, total_supply: 0 }),
            )
            &&& final(ctx).authority == old(ctx).authority
        },
{
    if ctx.settings.is_some() {
        return Err(ErrorCode::AlreadyInitialized);
    }
    ctx.settings = Some(CoinSettings { authority: ctx.authority, total_supply: 0 });
    Ok(())
}

/// Creates a holder account with the given authority and a balance of zero.
/// Where the account already exists, it is left as it is.
pub fn initialize_account(ctx: &mut InitializeAccount) -> (r: Result<(), ErrorCode>)
    ensures
        old(ctx).coin_account is Some ==> {
            &&& r == Err::<(), ErrorCode>(ErrorCode::AlreadyInitialized)
            &&& *final(ctx) == *old(ctx)
        },
        old(ctx).coin_account is None ==> {
            &&& r == Ok::<(), ErrorCode>(())
            &&& final(ctx).coin_account == Some(
                (CoinAccount { authority: old(ctx).authority, balance: 0 }),
            )
            &&& final(ctx).authority == old(ctx).authority
        },
{
    if ctx.coin_account.is_some() {
        return Err(ErrorCode::AlreadyInitialized);
    }
    ctx.coin_account = Some(CoinAccount { authority: ctx.authority, balance: 0 });
    Ok(())
}

} // verus!
