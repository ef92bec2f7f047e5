use vstd::prelude::*;

use crate::bytes_util::bytes_clone;
use crate::bytes_util::bytes_eq;
use crate::errors::JobPlatformError;
use crate::table::Table;

verus! {

/// The balance book: how many base currency units each account address holds.
/// Accounts that were never touched hold zero.  All movements are atomic:
/// an operation either applies in full or leaves every balance unchanged.
pub struct EscrowLedger {
    accounts: Table<u64>,
}

impl EscrowLedger {
    pub closed spec fn wf(&self) -> bool {
        self.accounts.wf()
    }

    /// The spendable balance of `a`; zero for an account never credited.
    pub closed spec fn balance(self, a: Seq<u8>) -> u64 {
        if self.accounts@.contains_key(a) {
            self.accounts@[a]
        } else {
            0u64
        }
    }

    /// Why a transfer of `amount` from `from` to `to` would fail, if it would.
    pub open spec fn transfer_error(
        self,
        from: Seq<u8>,
        to: Seq<u8>,
        amount: u64,
    ) -> Option<JobPlatformError> {
        if self.balance(from) < amount {
            Some(JobPlatformError::InsufficientFunds)
        } else if from != to && self.balance(to) + amount > u64::MAX {
            Some(JobPlatformError::BalanceOverflow)
        } else {
            None
        }
    }

    pub fn new() -> (r: EscrowLedger)
        ensures
            r.wf(),
            forall|a: Seq<u8>| r.balance(a) == 0,
    {
        EscrowLedger { accounts: Table::new() }
    }

    pub fn balance_of(&self, a: &Vec<u8>) -> (r: u64)
        requires
            self.wf(),
        ensures
            r == self.balance(a@),
    {
        match self.accounts.get(a) {
            Some(v) => *v,
            None => 0,
        }
    }

    /// Credits `account` with freshly arriving funds (the host moving money in
    /// from outside this ledger's view).
    pub fn deposit(&mut self, account: &Vec<u8>, amount: u64) -> (r: Result<
        (),
        JobPlatformError,
    >)
        requires
            old(self).wf(),
        ensures
            final(self).wf(),
            match r {
                Ok(()) => old(self).balance(account@) + amount <= u64::MAX
                    && final(self).balance(account@) == old(self).balance(account@) + amount
                    && forall|x: Seq<u8>|
                        x != account@ ==> final(self).balance(x) == old(self).balance(x),
                Err(e) => e == JobPlatformError::BalanceOverflow
                    && old(self).balance(account@) + amount > u64::MAX
                    && *final(self) == *old(self),
            },
    {
        let cur = self.balance_of(account);
        if amount > u64::MAX - cur {
            return Err(JobPlatformError::BalanceOverflow);
        }
        self.accounts.insert(bytes_clone(account), cur + amount);
        Ok(())
    }

    /// Moves `amount` from `from` to `to`, all or nothing.
    pub fn transfer(&mut self, from: &Vec<u8>, to: &Vec<u8>, amount: u64) -> (r: Result<
        (),
        JobPlatformError,
    >)
        requires
            old(self).wf(),
        ensures
            final(self).wf(),
            match r {
                Ok(()) => old(self).transfer_error(from@, to@, amount) is None && (if from@ == to@ {
                    forall|x: Seq<u8>| final(self).balance(x) == old(self).balance(x)
                } else {
                    final(self).balance(from@) == old(self).balance(from@) - amount
                        && final(self).balance(to@) == old(self).balance(to@) + amount && forall|
                        x: Seq<u8>,
                    |
                        x != from@ && x != to@ ==> final(self).balance(x) == old(self).balance(x)
                }),
                Err(e) => Some(e) == old(self).transfer_error(from@, to@, amount) && *final(self)
                    == *old(self),
            },
    {
        let from_bal = self.balance_of(from);
        if from_bal < amount {
            return Err(JobPlatformError::InsufficientFunds);
        }
        if bytes_eq(from, to) {
            return Ok(());
        }
        let to_bal = self.balance_of(to);
        if amount > u64::MAX - to_bal {
            return Err(JobPlatformError::BalanceOverflow);
        }
        self.accounts.insert(bytes_clone(from), from_bal - amount);
        self.accounts.insert(bytes_clone(to), to_bal + amount);
        Ok(())
    }

    /// Moves the entire current balance of `from` to `to` in one atomic step.
    pub fn release_all(&mut self, from: &Vec<u8>, to: &Vec<u8>) -> (r: Result<
        u64,
        JobPlatformError,
    >)
        requires
            old(self).wf(),
        ensures
            final(self).wf(),
            match r {
                Ok(amt) => amt == old(self).balance(from@) && (if from@ == to@ {
                    forall|x: Seq<u8>| final(self).balance(x) == old(self).balance(x)
                } else {
                    final(self).balance(from@) == 0 && final(self).balance(to@) == old(
                        self,
                    ).balance(to@) + amt && forall|x: Seq<u8>|
                        x != from@ && x != to@ ==> final(self).balance(x) == old(self).balance(x)
                }),
                Err(e) => e == JobPlatformError::BalanceOverflow && from@ != to@ && old(
                    self,
                ).balance(to@) + old(self).balance(from@) > u64::MAX && *final(self) == *old(self),
            },
    {
        let amount = self.balance_of(from);
        match self.transfer(from, to, amount) {
            Ok(()) => Ok(amount),
            Err(e) => Err(e),
        }
    }
}

} // verus!
