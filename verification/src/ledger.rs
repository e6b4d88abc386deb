//! A ledger held in memory: one place for the supply record and a list of
//! holder accounts, at most one for each identity.
//!
//! The ledger finds the records that an operation names, lets the operation
//! work on them, and keeps what it wrote only when it went through. Between
//! two operations the coins issued are exactly the coins held.

use vstd::prelude::*;
use crate::error::ErrorCode;
use crate::identity::Identity;
use crate::instructions::{
    initialize_account, mint, new, transfer, Constructor, InitializeAccount, Mint, Transfer,
};
use crate::laws::{
    lemma_holder_account_created, lemma_mint_conserves, lemma_supply_record_created,
    lemma_transfer_conserves,
};
use crate::model::{LedgerView, Operation};
use crate::state::{CoinAccount, CoinSettings};

verus! {

/// The records of one ledger.
#[derive(Debug)]
pub struct Ledger {
    settings: Option<CoinSettings>,
    accounts: Vec<CoinAccount>,
}

impl View for Ledger {
    type V = LedgerView;

    closed spec fn view(&self) -> LedgerView {
        LedgerView { settings: self.settings, accounts: self.accounts@ }
    }
}

impl Ledger {
    /// What every operation expects of the ledger and leaves behind: no two
    /// accounts of one identity, and a supply equal to the sum of the
    /// balances.
    pub open spec fn wf(&self) -> bool {
        self@.wf()
    }

    /// A ledger without any record.
    pub fn empty() -> (ledger: Ledger)
        ensures
            ledger@ == LedgerView::empty(),
            ledger.wf(),
    {
        Ledger { settings: None, accounts: Vec::new() }
    }

    /// The supply record, once it has been created.
    pub fn supply_record(&self) -> (r: Option<CoinSettings>)
        ensures
            r == self@.settings,
    {
        self.settings
    }

    /// The holder account at position `at`, if there is one.
    pub fn holder_account(&self, at: usize) -> (r: Option<CoinAccount>)
        ensures
            r == (if self@.has(at as int) {
                Some(self@.accounts[at as int])
            } else {
                None
            }),
    {
        if at < self.accounts.len() {
            Some(self.accounts[at])
        } else {
            None
        }
    }

    /// The position of the holder account that belongs to `key`, if there is
    /// one: the first such position, which in a well-formed ledger is the
    /// only one.
    pub fn find_holder_account(&self, key: &Identity) -> (r: Option<usize>)
        ensures
            match r {
                Some(at) => {
                    &&& self@.has(at as int)
                    &&& self@.accounts[at as int].authority == *key
                    &&& forall|k: int| 0 <= k < at ==> self@.accounts[k].authority != *key
                },
                None => !self@.holds(*key),
            },
    {
        let mut at: usize = 0;
        while at < self.accounts.len()
            invariant
                at <= self.accounts.len(),
                forall|k: int| 0 <= k < at ==> self.accounts@[k].authority != *key,
            decreases self.accounts.len() - at,
        {
            if self.accounts[at].authority.same(key) {
                return Some(at);
            }
            at += 1;
        }
        None
    }

    /// Creates the supply record with `authority` as the one who may mint.
    /// There is only one supply record: a second creation is refused.
    pub fn create_supply_record(&mut self, authority: Identity) -> (r: Result<(), ErrorCode>)
        requires
            old(self).wf(),
        ensures
            final(self).wf(),
            old(self)@.settings is Some ==> {
                &&& r == Err::<(), ErrorCode>(ErrorCode::AlreadyInitialized)
                &&& final(self)@ == old(self)@
            },
            old(self)@.settings is None ==> {
                &&& r == Ok::<(), ErrorCode>(())
                &&& final(self)@ == old(self)@.with_supply_record(authority)
            },
    {
        let mut ctx = Constructor { settings: self.settings, authority };
        match new(&mut ctx) {
            Ok(()) => {
                proof {
                    lemma_supply_record_created(self@, authority);
                }
                self.settings = ctx.settings;
                Ok(())
            },
            Err(e) => Err(e),
        }
    }

    /// Creates the holder account of `authority` and returns its position,
    /// by which the other operations name it. An identity has only one
    /// account: a second creation is refused.
    pub fn create_holder_account(&mut self, authority: Identity) -> (r: Result<usize, ErrorCode>)
        requires
            old(self).wf(),
        ensures
            final(self).wf(),
            old(self)@.holds(authority) ==> {
                &&& r == Err::<usize, ErrorCode>(ErrorCode::AlreadyInitialized)
                &&& final(self)@ == old(self)@
            },
            !old(self)@.holds(authority) ==> {
                &&& r == Ok::<usize, ErrorCode>(old(self)@.accounts.len() as usize)
                &&& final(self)@ == old(self)@.with_holder_account(authority)
            },
    {
        let found = self.find_holder_account(&authority);
        let mut ctx = InitializeAccount {
            coin_account: match found {
                Some(at) => Some(self.accounts[at]),
                None => None,
            },
            authority,
        };
        match initialize_account(&mut ctx) {
            Ok(()) => {
                proof {
                    lemma_holder_account_created(self@, authority);
                }
                let at = self.accounts.len();
                self.accounts.push(ctx.coin_account.unwrap());
                Ok(at)
            },
            Err(e) => Err(e),
        }
    }

    /// Mints `amount` to the holder account at position `target` on behalf
    /// of `caller`. As long as there is no supply record, nobody may mint.
    pub fn mint(&mut self, caller: Identity, target: usize, amount: u64) -> (r: Result<
        (),
        ErrorCode,
    >)
        requires
            old(self).wf(),
            old(self)@.has(target as int),
        ensures
            final(self).wf(),
            r == old(self)@.mint_verdict(caller, target as int, amount),
            final(self)@ == (if r is Ok {
                old(self)@.minted(target as int, amount)
            } else {
                old(self)@
            }),
    {
        let settings = match self.settings {
            Some(settings) => settings,
            None => {
                return Err(ErrorCode::Unauthorized);
            },
        };
        let mut ctx = Mint {
            coin_settings: settings,
            authority: caller,
            target_account: self.accounts[target],
        };
        match mint(&mut ctx, amount) {
            Ok(()) => {
                proof {
                    lemma_mint_conserves(self@, caller, target as int, amount);
                }
                self.settings = Some(ctx.coin_settings);
                self.accounts[target] = ctx.target_account;
                Ok(())
            },
            Err(e) => Err(e),
        }
    }

    /// Moves `amount` from the holder account at position `from` to the one
    /// at position `to` on behalf of `caller`. Both may be the same account;
    /// then nothing changes, but the balance and the caller are checked all
    /// the same.
    pub fn transfer(&mut self, caller: Identity, from: usize, to: usize, amount: u64) -> (r:
        Result<(), ErrorCode>)
        requires
            old(self).wf(),
            old(self)@.has(from as int),
            old(self)@.has(to as int),
        ensures
            final(self).wf(),
            r == old(self)@.transfer_verdict(caller, from as int, to as int, amount),
            final(self)@ == (if r is Ok {
                old(self)@.transferred(from as int, to as int, amount)
            } else {
                old(self)@
            }),
    {
        let source = self.accounts[from];
        if from == to {
            if source.balance < amount {
                return Err(ErrorCode::InsufficientBalance);
            }
            if !caller.same(&source.authority) {
                return Err(ErrorCode::Unauthorized);
            }
            return Ok(());
        }
        let mut ctx = Transfer {
            from_account: source,
            target_account: self.accounts[to],
            authority: caller,
        };
        match transfer(&mut ctx, amount) {
            Ok(()) => {
                proof {
                    lemma_transfer_conserves(self@, caller, from as int, to as int, amount);
                }
                self.accounts[from] = ctx.from_account;
                self.accounts[to] = ctx.target_account;
                Ok(())
            },
            Err(e) => Err(e),
        }
    }

    /// Carries out one operation, whichever it is. The positions it names
    /// must be positions of accounts of this ledger.
    pub fn apply(&mut self, op: Operation) -> (r: Result<(), ErrorCode>)
        requires
            old(self).wf(),
            old(self)@.admits(op),
        ensures
            final(self).wf(),
            r == old(self)@.verdict(op),
            final(self)@ == old(self)@.after(op),
    {
        match op {
            Operation::CreateSupplyRecord { authority } => self.create_supply_record(authority),
            Operation::CreateHolderAccount { authority } => {
                match self.create_holder_account(authority) {
                    Ok(_) => Ok(()),
                    Err(e) => Err(e),
                }
            },
            Operation::Mint { caller, target, amount } => self.mint(caller, target, amount),
            Operation::Transfer { caller, from, to, amount } => self.transfer(
                caller,
                from,
                to,
                amount,
            ),
        }
    }
}

} // verus!
