//! The rules of the ledger, over mathematical integers.
//!
//! A [`LedgerState`] is what the ledger knows between two operations.
//! [`LedgerState::verdict`] says whether the rules accept an operation, and
//! [`LedgerState::apply`] gives the state after it. Nothing here can
//! overflow: the executable ledger adds the one limit that machine integers
//! force.

use vstd::prelude::*;
use crate::account::AccountState;
use crate::error::LedgerError;
use crate::operation::{ClientId, OpType, Operation, TxId};

verus! {

/// The accounts and the recorded transactions.
#[verifier::ext_equal]
pub struct LedgerState {
    /// The accounts that were referred to so far.
    pub accounts: Map<ClientId, AccountState>,
    /// The completed deposits and withdrawals with their dispute state.
    pub log: Map<TxId, Operation>,
}

impl LedgerState {
    /// The state before the first operation.
    pub open spec fn empty() -> LedgerState {
        LedgerState { accounts: Map::empty(), log: Map::empty() }
    }

    /// The balance of a client. A client that was never referred to has the
    /// balance of a newly opened account.
    pub open spec fn account(self, client: ClientId) -> AccountState {
        if self.accounts.contains_key(client) {
            self.accounts[client]
        } else {
            AccountState::opened()
        }
    }

    /// The state with the client's balance replaced.
    pub open spec fn with_account(self, client: ClientId, account: AccountState) -> LedgerState {
        LedgerState { accounts: self.accounts.insert(client, account), ..self }
    }

    /// The state with the client's account opened, if it was not yet.
    pub open spec fn opened(self, client: ClientId) -> LedgerState {
        self.with_account(client, self.account(client))
    }

    /// The transaction recorded under an identifier, if there is one.
    pub open spec fn transaction(self, tx: TxId) -> Option<Operation> {
        if self.log.contains_key(tx) && self.log[tx].is_transaction() {
            Some(self.log[tx])
        } else {
            None
        }
    }

    /// Whether a dispute, resolve or chargeback may act on the transaction it
    /// names. The checks come in this order: the transaction exists, its dispute
    /// state allows the operation, the client is the transaction's own.
    pub open spec fn reference_verdict(self, operation: Operation) -> Result<(), LedgerError> {
        match self.transaction(operation.tx) {
            None => Err(LedgerError::UnknownTransaction),
            Some(entry) => {
                let state_allows = if operation.kind is Dispute {
                    !entry.under_dispute && !entry.charged_back
                } else {
                    entry.under_dispute
                };
                if !state_allows {
                    Err(LedgerError::InvalidDisputeState)
                } else if entry.client != operation.client {
                    Err(LedgerError::ClientMismatch)
                } else {
                    Ok(())
                }
            },
        }
    }

    /// Whether the rules accept the operation, and why not. A malformed
    /// operation is turned down first. A deposit or withdrawal is then turned
    /// down if the account is locked, and a withdrawal if it asks for more
    /// than is available. A dispute, resolve or chargeback is first held
    /// against the transaction it names, and turned down for a locked account
    /// only if that transaction is in order.
    pub open spec fn verdict(self, operation: Operation) -> Result<(), LedgerError> {
        if !operation.well_formed() {
            Err(LedgerError::MalformedOperation)
        } else if !operation.kind.moves_funds() && self.reference_verdict(operation) is Err {
            self.reference_verdict(operation)
        } else if self.account(operation.client).locked {
            Err(LedgerError::AccountLocked)
        } else if operation.kind is Withdrawal && operation.amount->0 > self.account(
            operation.client,
        ).available() {
            Err(LedgerError::InsufficientFunds)
        } else {
            Ok(())
        }
    }

    /// The client's balance after an operation that the rules accept.
    pub open spec fn balance_after(self, operation: Operation) -> AccountState {
        let account = self.account(operation.client);
        match operation.kind {
            OpType::Deposit => AccountState {
                total: account.total + operation.amount->0,
                ..account
            },
            OpType::Withdrawal => AccountState {
                total: account.total - operation.amount->0,
                ..account
            },
            OpType::Dispute => AccountState {
                held: account.held + self.log[operation.tx].amount->0,
                ..account
            },
            OpType::Resolve => AccountState {
                held: account.held - self.log[operation.tx].amount->0,
                ..account
            },
            OpType::Chargeback => AccountState {
                total: account.total - self.log[operation.tx].amount->0,
                held: account.held - self.log[operation.tx].amount->0,
                locked: true,
            },
        }
    }

    /// The log entry that an accepted operation writes: a deposit or
    /// withdrawal is recorded with no dispute open; the other kinds change the
    /// dispute state of the transaction they name, in place.
    pub open spec fn entry_after(self, operation: Operation) -> Operation {
        let entry = self.log[operation.tx];
        match operation.kind {
            OpType::Deposit => operation.recorded(),
            OpType::Withdrawal => operation.recorded(),
            OpType::Dispute => Operation { under_dispute: true, ..entry },
            OpType::Resolve => Operation { under_dispute: false, ..entry },
            OpType::Chargeback => Operation { under_dispute: false, charged_back: true, ..entry },
        }
    }

    /// The state after the operation. An accepted operation changes the
    /// client's balance and one log entry. A rejected one changes no balance
    /// and no entry: it opens the client's account if need be, and a malformed
    /// one does not even that.
    pub open spec fn apply(self, operation: Operation) -> LedgerState {
        if !operation.well_formed() {
            self
        } else if self.verdict(operation) is Err {
            self.opened(operation.client)
        } else {
            LedgerState {
                accounts: self.accounts.insert(operation.client, self.balance_after(operation)),
                log: self.log.insert(operation.tx, self.entry_after(operation)),
            }
        }
    }

    /// The state after a sequence of operations, applied in order.
    pub open spec fn replay(self, operations: Seq<Operation>) -> LedgerState
        decreases operations.len(),
    {
        if operations.len() == 0 {
            self
        } else {
            self.apply(operations[0]).replay(operations.drop_first())
        }
    }

    /// Whether the operation leaves the client's balance within the range of
    /// the stored integers.
    pub open spec fn fits(self, operation: Operation) -> bool {
        self.apply(operation).account(operation.client).representable()
    }
}

} // verus!
