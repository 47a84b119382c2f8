//! The executable ledger.

use std::collections::HashMap;
use vstd::prelude::*;
use crate::account::{Account, AccountRow, AccountState};
use crate::bookkeeping::{
    lemma_apply_keeps_disputes_covered, lemma_apply_keeps_held_exact,
    lemma_empty_ledger_holds_nothing, lemma_opening_keeps_the_books,
};
use crate::error::LedgerError;
use crate::laws::lemma_rejection_changes_nothing;
use crate::operation::{ClientId, OpType, Operation};
use crate::rules::LedgerState;
use crate::transaction_log::{TransactionLog, TransactionLogInMemory};

verus! {

broadcast use vstd::std_specs::hash::group_hash_axioms;

/// The balances that a map of stored accounts stands for.
pub open spec fn balances_of(accounts: Map<ClientId, Account>) -> Map<ClientId, AccountState> {
    accounts.map_values(|account: Account| account@)
}

/// The ledger: the accounts by client, and the log of the transactions that
/// disputes can refer to. It keeps no hidden invariant: the rules say what
/// happens in every state that the two fields can be in.
pub struct Bank {
    /// The accounts, by client.
    pub accounts: HashMap<ClientId, Account>,
    /// The completed deposits and withdrawals with their dispute state.
    pub transaction_log: TransactionLogInMemory,
}

impl View for Bank {
    type V = LedgerState;

    open spec fn view(&self) -> LedgerState {
        LedgerState { accounts: balances_of(self.accounts@), log: self.transaction_log.entries() }
    }
}

impl Bank {
    /// A ledger with no account and no recorded transaction.
    pub fn new() -> (bank: Bank)
        ensures
            bank@ == LedgerState::empty(),
            bank@.holds_disputed_funds(),
    {
        let bank = Bank {
            accounts: HashMap::new(),
            transaction_log: TransactionLogInMemory::new(),
        };
        proof {
            assert(balances_of(bank.accounts@) =~= Map::<ClientId, AccountState>::empty());
            lemma_empty_ledger_holds_nothing();
        }
        bank
    }

    /// Applies one operation. Whenever the resulting balance fits the stored
    /// integers, the ledger does what the rules say: it returns their verdict
    /// and moves to the state they give. Otherwise the operation is turned
    /// down with [`LedgerError::BalanceOutOfRange`], and all it may do is open
    /// the client's account.
    ///
    /// The operation goes to the step of its kind: [`Bank::deposit`],
    /// [`Bank::withdrawal`], [`Bank::dispute`], [`Bank::resolve`] or
    /// [`Bank::chargeback`].
    ///
    /// The clauses after the first two spell out what follows from them:
    /// a rejection changes no balance and no log entry; a locked account
    /// rejects every operation; a withdrawal of more than is available is
    /// rejected; so is a dispute on a transaction that is unknown, under
    /// dispute or charged back; what is wrong with the transaction that a
    /// dispute, resolve or chargeback names is the reason given, whether the
    /// account is locked or not; and the books stay balanced: accounts that
    /// covered their open disputes still do, and they hold exactly the
    /// disputed amounts for as long as no deposit or withdrawal takes the
    /// identifier of a transaction under dispute.
    pub fn process_operation(&mut self, operation: &Operation) -> (res: Result<(), LedgerError>)
        ensures
            old(self)@.fits(*operation) ==> res == old(self)@.verdict(*operation) && final(self)@
                == old(self)@.apply(*operation),
            !old(self)@.fits(*operation) ==> res == Err::<(), LedgerError>(
                LedgerError::BalanceOutOfRange,
            ) && final(self)@ == old(self)@.opened(operation.client),
            res is Err ==> final(self)@.log == old(self)@.log && forall|client: ClientId| #[trigger]
                final(self)@.account(client) == old(self)@.account(client),
            old(self)@.account(operation.client).locked ==> res is Err,
            operation.kind is Withdrawal && operation.amount is Some && operation.amount->0 > old(
                self,
            )@.account(operation.client).available() ==> res is Err,
            operation.kind is Dispute && (old(self)@.transaction(operation.tx) matches Some(entry)
                ==> entry.under_dispute || entry.charged_back) ==> res is Err,
            !operation.kind.moves_funds() && old(self)@.reference_verdict(*operation) is Err
                ==> res == old(self)@.reference_verdict(*operation),
            old(self)@.covers_disputes() ==> final(self)@.covers_disputes(),
            old(self)@.holds_disputed_funds() && old(self)@.keeps_open_disputes(*operation)
                ==> final(self)@.holds_disputed_funds(),
    {
        let res = match operation.kind {
            OpType::Deposit => self.deposit(operation),
            OpType::Withdrawal => self.withdrawal(operation),
            OpType::Dispute => self.dispute(operation),
            OpType::Resolve => self.resolve(operation),
            OpType::Chargeback => self.chargeback(operation),
        };
        proof {
            if old(self)@.verdict(*operation) is Err {
                lemma_rejection_changes_nothing(old(self)@, *operation);
            }
            if old(self)@.fits(*operation) {
                if old(self)@.covers_disputes() {
                    lemma_apply_keeps_disputes_covered(old(self)@, *operation);
                }
                if old(self)@.holds_disputed_funds() && old(self)@.keeps_open_disputes(*operation) {
                    lemma_apply_keeps_held_exact(old(self)@, *operation);
                }
            } else {
                lemma_opening_keeps_the_books(old(self)@, operation.client);
            }
        }
        res
    }

    /// Applies the operation as a deposit, whatever kind it says it is: adds
    /// the amount to the client's total and records the deposit.
    pub fn deposit(&mut self, operation: &Operation) -> (res: Result<(), LedgerError>)
        ensures
            old(self)@.fits(operation.as_kind(OpType::Deposit)) ==> res == old(self)@.verdict(
                operation.as_kind(OpType::Deposit),
            ) && final(self)@ == old(self)@.apply(operation.as_kind(OpType::Deposit)),
            !old(self)@.fits(operation.as_kind(OpType::Deposit)) ==> res == Err::<
                (),
                LedgerError,
            >(LedgerError::BalanceOutOfRange) && final(self)@ == old(self)@.opened(
                operation.client,
            ),
    {
        let amount: u32 = match operation.amount {
            Some(amount) => amount,
            None => {
                return Err(LedgerError::MalformedOperation);
            },
        };
        let account = Bank::get_account(&mut self.accounts, &operation.client);
        if account.locked {
            return Err(LedgerError::AccountLocked);
        }
        if account.total > i64::MAX - amount as i64 {
            return Err(LedgerError::BalanceOutOfRange);
        }
        let credited = Account { total: account.total + amount as i64, ..account };
        self.settle(operation.client, credited);
        self.transaction_log.tx_add(
            &Operation::new(OpType::Deposit, operation.client, operation.tx, operation.amount),
        );
        Ok(())
    }

    /// Applies the operation as a withdrawal, whatever kind it says it is:
    /// takes the amount from the client's total, if that much is available,
    /// and records the withdrawal. No withdrawal that the rules accept can
    /// leave the range of the stored integers.
    pub fn withdrawal(&mut self, operation: &Operation) -> (res: Result<(), LedgerError>)
        ensures
            old(self)@.fits(operation.as_kind(OpType::Withdrawal)),
            res == old(self)@.verdict(operation.as_kind(OpType::Withdrawal)),
            final(self)@ == old(self)@.apply(operation.as_kind(OpType::Withdrawal)),
    {
        let amount: u32 = match operation.amount {
            Some(amount) => amount,
            None => {
                return Err(LedgerError::MalformedOperation);
            },
        };
        let account = Bank::get_account(&mut self.accounts, &operation.client);
        if account.locked {
            return Err(LedgerError::AccountLocked);
        }
        if amount as i128 > account.available() {
            return Err(LedgerError::InsufficientFunds);
        }
        let debited = Account { total: account.total - amount as i64, ..account };
        self.settle(operation.client, debited);
        self.transaction_log.tx_add(
            &Operation::new(OpType::Withdrawal, operation.client, operation.tx, operation.amount),
        );
        Ok(())
    }

    /// Applies the operation as a dispute, whatever kind it says it is: the
    /// amount of the transaction it names is held.
    pub fn dispute(&mut self, operation: &Operation) -> (res: Result<(), LedgerError>)
        ensures
            old(self)@.fits(operation.as_kind(OpType::Dispute)) ==> res == old(self)@.verdict(
                operation.as_kind(OpType::Dispute),
            ) && final(self)@ == old(self)@.apply(operation.as_kind(OpType::Dispute)),
            !old(self)@.fits(operation.as_kind(OpType::Dispute)) ==> res == Err::<
                (),
                LedgerError,
            >(LedgerError::BalanceOutOfRange) && final(self)@ == old(self)@.opened(
                operation.client,
            ),
    {
        let account = Bank::get_account(&mut self.accounts, &operation.client);
        let (entry, amount) = match self.referenced(&OpType::Dispute, operation) {
            Ok(reference) => reference,
            Err(reason) => {
                return Err(reason);
            },
        };
        if account.locked {
            return Err(LedgerError::AccountLocked);
        }
        if account.held > i64::MAX - amount as i64 {
            return Err(LedgerError::BalanceOutOfRange);
        }
        let holding = Account { held: account.held + amount as i64, ..account };
        self.settle(operation.client, holding);
        self.transaction_log.tx_add(&Operation { under_dispute: true, ..entry });
        Ok(())
    }

    /// Applies the operation as a resolve, whatever kind it says it is: the
    /// dispute is closed in the client's favour and the held amount released.
    pub fn resolve(&mut self, operation: &Operation) -> (res: Result<(), LedgerError>)
        ensures
            old(self)@.fits(operation.as_kind(OpType::Resolve)) ==> res == old(self)@.verdict(
                operation.as_kind(OpType::Resolve),
            ) && final(self)@ == old(self)@.apply(operation.as_kind(OpType::Resolve)),
            !old(self)@.fits(operation.as_kind(OpType::Resolve)) ==> res == Err::<
                (),
                LedgerError,
            >(LedgerError::BalanceOutOfRange) && final(self)@ == old(self)@.opened(
                operation.client,
            ),
    {
        let account = Bank::get_account(&mut self.accounts, &operation.client);
        let (entry, amount) = match self.referenced(&OpType::Resolve, operation) {
            Ok(reference) => reference,
            Err(reason) => {
                return Err(reason);
            },
        };
        if account.locked {
            return Err(LedgerError::AccountLocked);
        }
        if account.held < i64::MIN + amount as i64 {
            return Err(LedgerError::BalanceOutOfRange);
        }
        let released = Account { held: account.held - amount as i64, ..account };
        self.settle(operation.client, released);
        self.transaction_log.tx_add(&Operation { under_dispute: false, ..entry });
        Ok(())
    }

    /// Applies the operation as a chargeback, whatever kind it says it is:
    /// the dispute is closed by reversing the transaction. The amount leaves
    /// both the held funds and the total, and the account is locked.
    pub fn chargeback(&mut self, operation: &Operation) -> (res: Result<(), LedgerError>)
        ensures
            old(self)@.fits(operation.as_kind(OpType::Chargeback)) ==> res == old(self)@.verdict(
                operation.as_kind(OpType::Chargeback),
            ) && final(self)@ == old(self)@.apply(operation.as_kind(OpType::Chargeback)),
            !old(self)@.fits(operation.as_kind(OpType::Chargeback)) ==> res == Err::<
                (),
                LedgerError,
            >(LedgerError::BalanceOutOfRange) && final(self)@ == old(self)@.opened(
                operation.client,
            ),
    {
        let account = Bank::get_account(&mut self.accounts, &operation.client);
        let (entry, amount) = match self.referenced(&OpType::Chargeback, operation) {
            Ok(reference) => reference,
            Err(reason) => {
                return Err(reason);
            },
        };
        if account.locked {
            return Err(LedgerError::AccountLocked);
        }
        if account.held < i64::MIN + amount as i64 || account.total < i64::MIN + amount as i64 {
            return Err(LedgerError::BalanceOutOfRange);
        }
        let reversed = Account {
            total: account.total - amount as i64,
            held: account.held - amount as i64,
            locked: true,
        };
        self.settle(operation.client, reversed);
        self.transaction_log.tx_add(
            &Operation { under_dispute: false, charged_back: true, ..entry },
        );
        Ok(())
    }

    /// The balance report: one line for each account, in no particular
    /// order. Rendering and printing the lines is left to the caller.
    pub fn print_accounts(&self) -> (rows: Vec<AccountRow>)
        ensures
            rows@.len() == self.accounts@.len(),
            forall|i: int|
                0 <= i < rows@.len() ==> self.accounts@.contains_key((#[trigger] rows@[i]).client)
                    && rows@[i] == AccountRow::of(
                    rows@[i].client,
                    self.accounts@[rows@[i].client],
                ),
            forall|i: int, j: int|
                0 <= i < j < rows@.len() ==> (#[trigger] rows@[i]).client != (
                #[trigger] rows@[j]).client,
            forall|client: ClientId| #[trigger]
                self.accounts@.contains_key(client) ==> exists|i: int|
                    0 <= i < rows@.len() && (#[trigger] rows@[i]).client == client,
    {
        let mut rows: Vec<AccountRow> = Vec::new();
        for entry in iter: self.accounts.iter()
            invariant
                rows@.len() == iter.index(),
                iter.seq().len() == self.accounts@.len(),
                iter.seq().no_duplicates(),
                forall|i: int|
                    0 <= i < iter.seq().len() ==> self.accounts@.contains_key(
                        *(#[trigger] iter.seq()[i]).0,
                    ) && self.accounts@[*iter.seq()[i].0] == *iter.seq()[i].1,
                forall|client: ClientId| #[trigger]
                    self.accounts@.contains_key(client) ==> exists|i: int|
                        0 <= i < iter.seq().len() && *(#[trigger] iter.seq()[i]).0 == client,
                forall|i: int|
                    #![trigger rows@[i]]
                    #![trigger iter.seq()[i]]
                    0 <= i < rows@.len() ==> rows@[i] == AccountRow::of(
                        *iter.seq()[i].0,
                        *iter.seq()[i].1,
                    ),
        {
            let (client_id, account) = entry;
            rows.push(account.report_line(client_id));
        }
        rows
    }

    /// Looks up the transaction that a dispute, resolve or chargeback names,
    /// and tests whether an operation of that kind may act on it. On success
    /// the recorded entry comes back with its amount.
    fn referenced(&self, kind: &OpType, operation: &Operation) -> (found: Result<
        (Operation, u32),
        LedgerError,
    >)
        requires
            !kind.moves_funds(),
        ensures
            match found {
                Ok((entry, amount)) => {
                    &&& self@.reference_verdict(operation.as_kind(*kind)) is Ok
                    &&& entry == self@.log[operation.tx]
                    &&& entry.tx == operation.tx
                    &&& entry.amount == Some(amount)
                },
                Err(reason) => self@.reference_verdict(operation.as_kind(*kind)) == Err::<
                    (),
                    LedgerError,
                >(reason),
            },
    {
        let entry = match self.transaction_log.tx_search(&operation.tx) {
            Some(entry) => entry,
            None => {
                return Err(LedgerError::UnknownTransaction);
            },
        };
        if !entry.kind.moves_funds() {
            return Err(LedgerError::UnknownTransaction);
        }
        let amount: u32 = match entry.amount {
            Some(amount) => amount,
            None => {
                return Err(LedgerError::UnknownTransaction);
            },
        };
        let state_allows = match kind {
            OpType::Dispute => !entry.under_dispute && !entry.charged_back,
            _ => entry.under_dispute,
        };
        if !state_allows {
            return Err(LedgerError::InvalidDisputeState);
        }
        if entry.client != operation.client {
            return Err(LedgerError::ClientMismatch);
        }
        Ok((entry, amount))
    }

    /// Stores a client's new balance.
    fn settle(&mut self, client: ClientId, account: Account)
        ensures
            final(self)@ == old(self)@.with_account(client, account@),
    {
        self.accounts.insert(client, account);
        assert(balances_of(self.accounts@) =~= balances_of(old(self).accounts@).insert(
            client,
            account@,
        ));
    }

    /// The client's account, opened first if the client is new.
    pub fn get_account(accounts: &mut HashMap<ClientId, Account>, client_id: &ClientId) -> (account:
        Account)
        ensures
            final(accounts)@ == old(accounts)@.insert(*client_id, account),
            old(accounts)@.contains_key(*client_id) ==> account == old(accounts)@[*client_id],
            !old(accounts)@.contains_key(*client_id) ==> account@ == AccountState::opened(),
    {
        if !accounts.contains_key(client_id) {
            accounts.insert(*client_id, Account::new());
        }
        let account = accounts.get(client_id);
        match account {
            Some(account) => {
                assert(accounts@ =~= old(accounts)@.insert(*client_id, *account));
                *account
            },
            None => Account::new(),
        }
    }
}

} // verus!
