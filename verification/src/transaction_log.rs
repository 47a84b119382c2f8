//! The record of completed deposits and withdrawals.

use std::collections::HashMap;
use vstd::prelude::*;
use crate::operation::{Operation, TxId};

verus! {

broadcast use vstd::std_specs::hash::group_hash_axioms;

/// What the ledger asks of a transaction log: to record an operation under
/// its identifier, and to find it again with its dispute state. The ledger
/// changes a recorded operation by recording the changed copy again.
pub trait TransactionLog {
    /// The recorded operations, by identifier.
    spec fn entries(&self) -> Map<TxId, Operation>;

    /// Records a copy of the operation under its own identifier. An earlier
    /// entry with that identifier is replaced.
    fn tx_add(&mut self, operation: &Operation)
        ensures
            final(self).entries() == old(self).entries().insert(operation.tx, *operation),
    ;

    /// The operation recorded under `id`, as it was last recorded.
    fn tx_search(&self, id: &TxId) -> (found: Option<Operation>)
        ensures
            self.entries().contains_key(*id) ==> found == Some(self.entries()[*id]),
            !self.entries().contains_key(*id) ==> found is None,
            found matches Some(entry) ==> entry.tx == *id,
    ;
}

/// A transaction log held in memory: enough for inputs that fit there.
pub struct TransactionLogInMemory {
    history: HashMap<TxId, Operation>,
}

impl TransactionLogInMemory {
    /// Every entry sits under its own identifier.
    #[verifier::type_invariant]
    spec fn keyed_by_identifier(self) -> bool {
        forall|id: TxId| #[trigger]
            self.history@.contains_key(id) ==> self.history@[id].tx == id
    }

    /// An empty log.
    pub fn new() -> (log: TransactionLogInMemory)
        ensures
            log.entries() == Map::<TxId, Operation>::empty(),
    {
        TransactionLogInMemory { history: HashMap::new() }
    }
}

impl TransactionLog for TransactionLogInMemory {
    closed spec fn entries(&self) -> Map<TxId, Operation> {
        self.history@
    }

    fn tx_add(&mut self, operation: &Operation) {
        proof {
            use_type_invariant(&*self);
        }
        // The map is taken out while it changes, and put back once every
        // entry sits under its identifier again.
        let mut history: HashMap<TxId, Operation> = HashMap::new();
        std::mem::swap(&mut history, &mut self.history);
        history.insert(operation.tx, *operation);
        self.history = history;
    }

    fn tx_search(&self, id: &TxId) -> (found: Option<Operation>) {
        proof {
            use_type_invariant(self);
        }
        let operation = self.history.get(id);
        match operation {
            Some(entry) => Some(*entry),
            None => None,
        }
    }
}

} // verus!
