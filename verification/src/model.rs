//! The ledger as a mathematical value: the supply record, if it exists, and
//! the holder accounts in the order of their creation.
//!
//! The operations are given here as functions from one such value to the
//! next. Each has a verdict, which says whether the operation goes through,
//! and an effect, which is the ledger after an operation that went through.

use vstd::prelude::*;
use crate::error::ErrorCode;
use crate::identity::Identity;
use crate::instructions::{Mint, Transfer};
use crate::state::{CoinAccount, CoinSettings};

verus! {

/// All the records of a ledger.
#[verifier::ext_equal]
pub struct LedgerView {
    pub settings: Option<CoinSettings>,
    pub accounts: Seq<CoinAccount>,
}

/// One operation on a ledger. An account that exists is named by its
/// position.
#[derive(Clone, Copy, Debug, PartialEq, Eq)]
pub enum Operation {
    CreateSupplyRecord { authority: Identity },
    CreateHolderAccount { authority: Identity },
    Mint { caller: Identity, target: usize, amount: u64 },
    Transfer { caller: Identity, from: usize, to: usize, amount: u64 },
}

/// The sum of the balances of the given accounts.
pub open spec fn sum_of_balances(accounts: Seq<CoinAccount>) -> int
    decreases accounts.len(),
{
    if accounts.len() == 0 {
        0
    } else {
        sum_of_balances(accounts.drop_last()) + accounts.last().balance
    }
}

impl LedgerView {
    /// The ledger in which nothing has been created yet.
    pub open spec fn empty() -> LedgerView {
        LedgerView { settings: None, accounts: Seq::empty() }
    }

    /// The coins issued so far: none as long as there is no supply record.
    pub open spec fn supply(self) -> int {
        match self.settings {
            Some(settings) => settings.total_supply as int,
            None => 0,
        }
    }

    /// Whether `at` is the position of a holder account.
    pub open spec fn has(self, at: int) -> bool {
        0 <= at < self.accounts.len()
    }

    /// Whether some holder account belongs to `key`.
    pub open spec fn holds(self, key: Identity) -> bool {
        exists|at: int| self.has(at) && #[trigger] self.accounts[at].authority == key
    }

    /// No two holder accounts belong to the same identity.
    pub open spec fn distinct_keys(self) -> bool {
        forall|i: int, j: int|
            0 <= i < j < self.accounts.len() ==> #[trigger] self.accounts[i].authority
                != #[trigger] self.accounts[j].authority
    }

    /// The coins issued are exactly the coins held.
    pub open spec fn conserved(self) -> bool {
        self.supply() == sum_of_balances(self.accounts)
    }

    /// What holds of every ledger between two operations.
    pub open spec fn wf(self) -> bool {
        self.distinct_keys() && self.conserved()
    }

    /// The ledger once the supply record has been created for `authority`.
    pub open spec fn with_supply_record(self, authority: Identity) -> LedgerView {
        LedgerView {
            settings: Some(CoinSettings { authority, total_supply: 0 }),
            accounts: self.accounts,
        }
    }

    /// The ledger once a holder account has been created for `authority`.
    pub open spec fn with_holder_account(self, authority: Identity) -> LedgerView {
        LedgerView {
            settings: self.settings,
            accounts: self.accounts.push(CoinAccount { authority, balance: 0 }),
        }
    }

    /// Whether `caller` may mint `amount` to the account at `target`. As long
    /// as there is no supply record, nobody is its authority.
    pub open spec fn mint_verdict(self, caller: Identity, target: int, amount: u64) -> Result<
        (),
        ErrorCode,
    >
        recommends
            self.has(target),
    {
        match self.settings {
            Some(settings) => crate::instructions::mint_verdict(
                Mint {
                    coin_settings: settings,
                    authority: caller,
                    target_account: self.accounts[target],
                },
                amount,
            ),
            None => Err(ErrorCode::Unauthorized),
        }
    }

    /// The ledger after `amount` has been minted to the account at `target`.
    pub open spec fn minted(self, target: int, amount: u64) -> LedgerView
        recommends
            self.settings is Some,
            self.has(target),
    {
        let settings = self.settings->Some_0;
        let account = self.accounts[target];
        LedgerView {
            settings: Some(
                CoinSettings {
                    authority: settings.authority,
                    total_supply: (settings.total_supply + amount) as u64,
                },
            ),
            accounts: self.accounts.update(
                target,
                CoinAccount {
                    authority: account.authority,
                    balance: (account.balance + amount) as u64,
                },
            ),
        }
    }

    /// Whether `caller` may move `amount` from the account at `from` to the
    /// account at `to`. Where both are one account, the amount is taken out
    /// and put back, so the balance cannot run over.
    pub open spec fn transfer_verdict(
        self,
        caller: Identity,
        from: int,
        to: int,
        amount: u64,
    ) -> Result<(), ErrorCode>
        recommends
            self.has(from),
            self.has(to),
    {
        let source = self.accounts[from];
        if from == to {
            if source.balance < amount {
                Err(ErrorCode::InsufficientBalance)
            } else if caller != source.authority {
                Err(ErrorCode::Unauthorized)
            } else {
                Ok(())
            }
        } else {
            crate::instructions::transfer_verdict(
                Transfer {
                    from_account: source,
                    target_account: self.accounts[to],
                    authority: caller,
                },
                amount,
            )
        }
    }

    /// The ledger after `amount` has moved from the account at `from` to the
    /// account at `to`: unchanged where both are one account.
    pub open spec fn transferred(self, from: int, to: int, amount: u64) -> LedgerView
        recommends
            self.has(from),
            self.has(to),
    {
        let source = self.accounts[from];
        let target = self.accounts[to];
        if from == to {
            self
        } else {
            LedgerView {
                settings: self.settings,
                accounts: self.accounts.update(
                    from,
                    CoinAccount {
                        authority: source.authority,
                        balance: (source.balance - amount) as u64,
                    },
                ).update(
                    to,
                    CoinAccount {
                        authority: target.authority,
                        balance: (target.balance + amount) as u64,
                    },
                ),
            }
        }
    }

    /// Whether the positions that `op` names are positions of accounts.
    pub open spec fn admits(self, op: Operation) -> bool {
        match op {
            Operation::CreateSupplyRecord { .. } => true,
            Operation::CreateHolderAccount { .. } => true,
            Operation::Mint { target, .. } => self.has(target as int),
            Operation::Transfer { from, to, .. } => self.has(from as int) && self.has(to as int),
        }
    }

    /// Whether `op` goes through, and if not, why not.
    pub open spec fn verdict(self, op: Operation) -> Result<(), ErrorCode>
        recommends
            self.admits(op),
    {
        match op {
            Operation::CreateSupplyRecord { .. } => if self.settings is Some {
                Err(ErrorCode::AlreadyInitialized)
            } else {
                Ok(())
            },
            Operation::CreateHolderAccount { authority } => if self.holds(authority) {
                Err(ErrorCode::AlreadyInitialized)
            } else {
                Ok(())
            },
            Operation::Mint { caller, target, amount } => self.mint_verdict(
                caller,
                target as int,
                amount,
            ),
            Operation::Transfer { caller, from, to, amount } => self.transfer_verdict(
                caller,
                from as int,
                to as int,
                amount,
            ),
        }
    }

    /// The ledger after `op`: changed where `op` goes through, and as it was
    /// where `op` is refused.
    pub open spec fn after(self, op: Operation) -> LedgerView
        recommends
            self.admits(op),
    {
        if self.verdict(op) is Err {
            self
        } else {
            match op {
                Operation::CreateSupplyRecord { authority } => self.with_supply_record(authority),
                Operation::CreateHolderAccount { authority } => self.with_holder_account(
                    authority,
                ),
                Operation::Mint { target, amount, .. } => self.minted(target as int, amount),
                Operation::Transfer { from, to, amount, .. } => self.transferred(
                    from as int,
                    to as int,
                    amount,
                ),
            }
        }
    }

    /// What `op` adds to the coins issued: the amount of a mint that goes
    /// through, and nothing otherwise.
    pub open spec fn issued_by(self, op: Operation) -> int
        recommends
            self.admits(op),
    {
        match op {
            Operation::Mint { amount, .. } => if self.verdict(op) is Ok {
                amount as int
            } else {
                0
            },
            _ => 0,
        }
    }

    /// The ledger after the operations of `history`, one after the other.
    pub open spec fn after_all(self, history: Seq<Operation>) -> LedgerView
        recommends
            self.admits_all(history),
        decreases history.len(),
    {
        if history.len() == 0 {
            self
        } else {
            self.after_all(history.drop_last()).after(history.last())
        }
    }

    /// Whether each operation of `history` names positions of accounts that
    /// exist when its turn comes.
    pub open spec fn admits_all(self, history: Seq<Operation>) -> bool
        decreases history.len(),
    {
        history.len() == 0 || {
            &&& self.admits_all(history.drop_last())
            &&& self.after_all(history.drop_last()).admits(history.last())
        }
    }

    /// The coins that the operations of `history` issue, one after the
    /// other: the sum of the amounts of the mints that go through.
    pub open spec fn issued_by_all(self, history: Seq<Operation>) -> int
        recommends
            self.admits_all(history),
        decreases history.len(),
    {
        if history.len() == 0 {
            0
        } else {
            self.issued_by_all(history.drop_last()) + self.after_all(
                history.drop_last(),
            ).issued_by(history.last())
        }
    }
}

} // verus!
