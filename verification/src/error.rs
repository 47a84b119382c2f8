//! Why the ledger turns an operation down.

use vstd::prelude::*;

verus! {

/// The reason an operation was rejected. No rejection stops the replay: the
/// next operation is processed as usual.
#[derive(Debug, Clone, Copy, PartialEq, Eq)]
pub enum LedgerError {
    /// The operation type is not one of the five names, or a deposit or
    /// withdrawal carries no amount.
    MalformedOperation,
    /// The client's account was locked by a chargeback. A dispute, resolve
    /// or chargeback gets this answer only if the transaction it names is in
    /// order: what is wrong with the transaction is reported first.
    AccountLocked,
    /// A withdrawal asks for more than the available funds.
    InsufficientFunds,
    /// A dispute, resolve or chargeback names a transaction that was never
    /// recorded.
    UnknownTransaction,
    /// A dispute on a transaction that is under dispute or charged back, or a
    /// resolve or chargeback on one that is not under dispute.
    InvalidDisputeState,
    /// A dispute, resolve or chargeback by another client than the one of
    /// the transaction it names.
    ClientMismatch,
    /// The rules accept the operation, but a balance would leave the range of
    /// the stored integers.
    BalanceOutOfRange,
}

impl LedgerError {
    /// The text of [`LedgerError::message`].
    pub open spec fn message_text(self) -> Seq<char> {
        match self {
            LedgerError::MalformedOperation => "operation is malformed"@,
            LedgerError::AccountLocked => "account is locked"@,
            LedgerError::InsufficientFunds => "not enough available credit"@,
            LedgerError::UnknownTransaction => "referenced transaction doesn't exist"@,
            LedgerError::InvalidDisputeState => "transaction is not in a state that allows it"@,
            LedgerError::ClientMismatch => "client id inconsistent with referenced transaction"@,
            LedgerError::BalanceOutOfRange => "balance would leave the representable range"@,
        }
    }

    /// A short description for an operator.
    pub fn message(&self) -> (text: &'static str)
        ensures
            text@ == self.message_text(),
    {
        match self {
            LedgerError::MalformedOperation => "operation is malformed",
            LedgerError::AccountLocked => "account is locked",
            LedgerError::InsufficientFunds => "not enough available credit",
            LedgerError::UnknownTransaction => "referenced transaction doesn't exist",
            LedgerError::InvalidDisputeState => "transaction is not in a state that allows it",
            LedgerError::ClientMismatch => "client id inconsistent with referenced transaction",
            LedgerError::BalanceOutOfRange => "balance would leave the representable range",
        }
    }
}

} // verus!
