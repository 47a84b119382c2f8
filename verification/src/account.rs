//! The balance of one client.

use vstd::prelude::*;
use crate::operation::ClientId;

verus! {

/// The balance of one client as the rules see it: unbounded integers,
/// in ten-thousandths of a unit.
pub struct AccountState {
    /// All funds of the client, held ones included. A chargeback may drive it
    /// below zero.
    pub total: int,
    /// Funds set aside by open disputes.
    pub held: int,
    /// Set by a chargeback, never cleared.
    pub locked: bool,
}

impl AccountState {
    /// The balance of an account on its first reference.
    pub open spec fn opened() -> AccountState {
        AccountState { total: 0, held: 0, locked: false }
    }

    /// Funds the client can spend: what is not held.
    pub open spec fn available(self) -> int {
        self.total - self.held
    }

    /// Whether both balances fit the integers that [`Account`] stores.
    pub open spec fn representable(self) -> bool {
        &&& i64::MIN <= self.total <= i64::MAX
        &&& i64::MIN <= self.held <= i64::MAX
    }
}

/// The stored balance of one client. It is a plain record: the ledger alone
/// decides how the fields change.
#[derive(Debug, Clone, Copy, PartialEq, Eq)]
pub struct Account {
    pub total: i64,
    pub held: i64,
    pub locked: bool,
}

impl View for Account {
    type V = AccountState;

    open spec fn view(&self) -> AccountState {
        AccountState { total: self.total as int, held: self.held as int, locked: self.locked }
    }
}

impl Account {
    /// An account with no funds, nothing held, not locked.
    pub fn new() -> (account: Account)
        ensures
            account@ == AccountState::opened(),
    {
        Account { total: 0, held: 0, locked: false }
    }

    /// Funds the client can spend. The result is wider than the fields, so
    /// that the difference is exact for every pair of balances.
    pub fn available(&self) -> (funds: i128)
        ensures
            funds == self@.available(),
    {
        self.total as i128 - self.held as i128
    }

    /// The line of the balance report for this account.
    pub fn report_line(&self, client_id: &ClientId) -> (row: AccountRow)
        ensures
            row == AccountRow::of(*client_id, *self),
    {
        AccountRow {
            client: *client_id,
            available: self.available(),
            held: self.held,
            total: self.total,
            locked: self.locked,
        }
    }
}

/// One line of the balance report: a client, the three balances in
/// ten-thousandths of a unit, and the lock.
#[derive(Debug, Clone, Copy, PartialEq, Eq)]
pub struct AccountRow {
    pub client: ClientId,
    pub available: i128,
    pub held: i64,
    pub total: i64,
    pub locked: bool,
}

impl AccountRow {
    /// The line that reports the account of a client.
    pub open spec fn of(client: ClientId, account: Account) -> AccountRow {
        AccountRow {
            client,
            available: (account.total - account.held) as i128,
            held: account.held,
            total: account.total,
            locked: account.locked,
        }
    }
}

} // verus!
