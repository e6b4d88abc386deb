//! What holds of the ledger whatever is done with it.

use vstd::prelude::*;
use crate::error::ErrorCode;
use crate::identity::Identity;
use crate::instructions::{mint_verdict, transfer_verdict, Mint, Transfer};
use crate::model::{sum_of_balances, LedgerView, Operation};
use crate::state::CoinAccount;

verus! {

/// One more account adds its balance to the sum.
pub proof fn lemma_sum_push(accounts: Seq<CoinAccount>, account: CoinAccount)
    ensures
        sum_of_balances(accounts.push(account)) == sum_of_balances(accounts) + account.balance,
{
    assert(accounts.push(account).drop_last() =~= accounts);
}

/// Replacing one account changes the sum by the difference of the balances.
pub proof fn lemma_sum_update(accounts: Seq<CoinAccount>, at: int, account: CoinAccount)
    requires
        0 <= at < accounts.len(),
    ensures
        sum_of_balances(accounts.update(at, account)) == sum_of_balances(accounts)
            - accounts[at].balance + account.balance,
    decreases accounts.len(),
{
    let updated = accounts.update(at, account);
    if at == accounts.len() - 1 {
        assert(updated.drop_last() =~= accounts.drop_last());
    } else {
        assert(updated.drop_last() =~= accounts.drop_last().update(at, account));
        lemma_sum_update(accounts.drop_last(), at, account);
    }
}

/// Creating the supply record keeps a well-formed ledger well formed, as
/// long as no coins are held yet.
pub proof fn lemma_supply_record_created(ledger: LedgerView, authority: Identity)
    requires
        ledger.wf(),
        ledger.settings is None,
    ensures
        ledger.with_supply_record(authority).wf(),
{
}

/// Creating a holder account for an identity that has none keeps a
/// well-formed ledger well formed.
pub proof fn lemma_holder_account_created(ledger: LedgerView, authority: Identity)
    requires
        ledger.wf(),
        !ledger.holds(authority),
    ensures
        ledger.with_holder_account(authority).wf(),
{
    let account = CoinAccount { authority, balance: 0 };
    let after = ledger.with_holder_account(authority);
    lemma_sum_push(ledger.accounts, account);
    assert forall|i: int, j: int| 0 <= i < j < after.accounts.len() implies after.accounts[i].authority
        != after.accounts[j].authority by {
        if j == ledger.accounts.len() {
            assert(ledger.has(i));
            assert(ledger.accounts[i].authority != authority);
        }
    }
}

/// An accepted mint keeps a well-formed ledger well formed: the supply still
/// equals the sum of the balances, and it has grown by the amount minted.
pub proof fn lemma_mint_conserves(ledger: LedgerView, caller: Identity, target: int, amount: u64)
    requires
        ledger.wf(),
        ledger.has(target),
        ledger.mint_verdict(caller, target, amount) is Ok,
    ensures
        ledger.minted(target, amount).wf(),
        ledger.minted(target, amount).supply() == ledger.supply() + amount,
{
    let after = ledger.minted(target, amount);
    lemma_sum_update(ledger.accounts, target, after.accounts[target]);
}

/// An accepted transfer keeps a well-formed ledger well formed and leaves the
/// supply record as it was.
pub proof fn lemma_transfer_conserves(
    ledger: LedgerView,
    caller: Identity,
    from: int,
    to: int,
    amount: u64,
)
    requires
        ledger.wf(),
        ledger.has(from),
        ledger.has(to),
        ledger.transfer_verdict(caller, from, to, amount) is Ok,
    ensures
        ledger.transferred(from, to, amount).wf(),
        ledger.transferred(from, to, amount).settings == ledger.settings,
{
    if from != to {
        let after = ledger.transferred(from, to, amount);
        let debited = ledger.accounts.update(from, after.accounts[from]);
        assert(after.accounts =~= debited.update(to, after.accounts[to]));
        lemma_sum_update(ledger.accounts, from, after.accounts[from]);
        lemma_sum_update(debited, to, after.accounts[to]);
    }
}

/// No operation removes a record or changes the authority of one: every
/// account keeps its position and its authority, and the supply record, once
/// created, keeps its authority.
pub proof fn lemma_records_stay(ledger: LedgerView, op: Operation)
    requires
        ledger.admits(op),
    ensures
        forall|at: int|
            ledger.has(at) ==> ledger.after(op).has(at) && #[trigger] ledger.after(
                op,
            ).accounts[at].authority == ledger.accounts[at].authority,
        ledger.settings is Some ==> ledger.after(op).settings is Some && ledger.after(
            op,
        ).settings->Some_0.authority == ledger.settings->Some_0.authority,
{
}

/// Whatever one operation does, it keeps a well-formed ledger well formed,
/// and the supply grows by what the operation issues: by the amount of a mint
/// that goes through, and by nothing otherwise. The supply never shrinks, and
/// a refused operation changes nothing at all.
pub proof fn lemma_operation_conserves(ledger: LedgerView, op: Operation)
    requires
        ledger.wf(),
        ledger.admits(op),
    ensures
        ledger.after(op).wf(),
        ledger.after(op).supply() == ledger.supply() + ledger.issued_by(op),
        ledger.after(op).supply() >= ledger.supply(),
        ledger.verdict(op) is Err ==> ledger.after(op) == ledger,
{
    if ledger.verdict(op) is Ok {
        match op {
            Operation::CreateSupplyRecord { authority } => {
                lemma_supply_record_created(ledger, authority);
            },
            Operation::CreateHolderAccount { authority } => {
                lemma_holder_account_created(ledger, authority);
            },
            Operation::Mint { caller, target, amount } => {
                lemma_mint_conserves(ledger, caller, target as int, amount);
            },
            Operation::Transfer { caller, from, to, amount } => {
                lemma_transfer_conserves(ledger, caller, from as int, to as int, amount);
            },
        }
    }
}

/// After any history of operations, accepted or refused, the total supply
/// equals the sum of all balances, and it has grown by exactly the sum of the
/// amounts of the mints that went through. On a ledger that started empty,
/// the supply is therefore the sum of the amounts minted.
pub proof fn lemma_history_conserves(start: LedgerView, history: Seq<Operation>)
    requires
        start.wf(),
        start.admits_all(history),
    ensures
        start.after_all(history).wf(),
        start.after_all(history).supply() == sum_of_balances(start.after_all(history).accounts),
        start.after_all(history).supply() == start.supply() + start.issued_by_all(history),
        start == LedgerView::empty() ==> start.after_all(history).supply() == start.issued_by_all(
            history,
        ),
    decreases history.len(),
{
    if history.len() > 0 {
        lemma_history_conserves(start, history.drop_last());
        lemma_operation_conserves(start.after_all(history.drop_last()), history.last());
    }
}

/// A transfer between two different accounts that the source can pay, that
/// the source's authority asks for and that the destination has room for
/// goes through. It takes exactly the amount from the source and adds exactly
/// the amount to the destination; every other account and the supply record
/// stay as they were.
pub proof fn lemma_transfer_moves_amount(
    ledger: LedgerView,
    caller: Identity,
    from: int,
    to: int,
    amount: u64,
)
    requires
        ledger.has(from),
        ledger.has(to),
        from != to,
        amount <= ledger.accounts[from].balance,
        caller == ledger.accounts[from].authority,
        ledger.accounts[to].balance + amount <= u64::MAX,
    ensures
        ledger.transfer_verdict(caller, from, to, amount) is Ok,
        ledger.transferred(from, to, amount).accounts[from].balance == ledger.accounts[from].balance
            - amount,
        ledger.transferred(from, to, amount).accounts[to].balance == ledger.accounts[to].balance
            + amount,
        forall|at: int|
            ledger.has(at) && at != from && at != to ==> #[trigger] ledger.transferred(
                from,
                to,
                amount,
            ).accounts[at] == ledger.accounts[at],
        ledger.transferred(from, to, amount).accounts.len() == ledger.accounts.len(),
        ledger.transferred(from, to, amount).settings == ledger.settings,
{
}

/// A transfer that the source can pay, that the source's authority asks for
/// and that the destination has room for goes through.
pub proof fn lemma_transfer_goes_through(ctx: Transfer, amount: u64)
    requires
        amount <= ctx.from_account.balance,
        ctx.authority == ctx.from_account.authority,
        ctx.target_account.balance + amount <= u64::MAX,
    ensures
        transfer_verdict(ctx, amount) is Ok,
{
}

/// A transfer of more than the source holds is refused for want of balance,
/// whoever asks for it and whatever the destination holds.
pub proof fn lemma_transfer_needs_balance(ctx: Transfer, amount: u64)
    requires
        amount > ctx.from_account.balance,
    ensures
        transfer_verdict(ctx, amount) == Err::<(), ErrorCode>(ErrorCode::InsufficientBalance),
{
}

/// A mint by anyone but the authority of the supply record is refused as
/// unauthorized, whatever the amount.
pub proof fn lemma_mint_needs_authority(ctx: Mint, amount: u64)
    requires
        ctx.authority != ctx.coin_settings.authority,
    ensures
        mint_verdict(ctx, amount) == Err::<(), ErrorCode>(ErrorCode::Unauthorized),
{
}

/// A mint by the authority that would take the receiving balance or the total
/// supply beyond `u64::MAX` is refused as an overflow.
pub proof fn lemma_mint_refuses_overflow(ctx: Mint, amount: u64)
    requires
        ctx.authority == ctx.coin_settings.authority,
        ctx.target_account.balance + amount > u64::MAX || ctx.coin_settings.total_supply + amount
            > u64::MAX,
    ensures
        mint_verdict(ctx, amount) == Err::<(), ErrorCode>(ErrorCode::Overflow),
{
}

/// A transfer that the source can pay and its authority asks for, but that
/// would take the destination's balance beyond `u64::MAX`, is refused as an
/// overflow.
pub proof fn lemma_transfer_refuses_overflow(ctx: Transfer, amount: u64)
    requires
        amount <= ctx.from_account.balance,
        ctx.authority == ctx.from_account.authority,
        ctx.target_account.balance + amount > u64::MAX,
    ensures
        transfer_verdict(ctx, amount) == Err::<(), ErrorCode>(ErrorCode::Overflow),
{
}

} // verus!
