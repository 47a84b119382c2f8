//! The bookkeeping invariant: what an account holds is what its open disputes
//! amount to.

use vstd::prelude::*;
use crate::operation::{ClientId, Operation, TxId};
use crate::rules::LedgerState;

verus! {

/// One more than the largest transaction identifier.
pub open spec fn identifier_bound() -> nat {
    0x1_0000_0000
}

/// What the entry under one identifier holds of a client's funds: its
/// amount, while it is a transaction of that client under dispute.
pub open spec fn held_by(log: Map<TxId, Operation>, client: ClientId, tx: TxId) -> int {
    if log.contains_key(tx) && log[tx].is_transaction() && log[tx].client == client
        && log[tx].under_dispute {
        log[tx].amount->0 as int
    } else {
        0
    }
}

/// What the entries with an identifier below the bound hold of a client's
/// funds.
pub open spec fn held_below(log: Map<TxId, Operation>, client: ClientId, bound: nat) -> int
    decreases bound,
{
    if bound == 0 {
        0
    } else {
        held_below(log, client, (bound - 1) as nat) + held_by(log, client, (bound - 1) as TxId)
    }
}

/// The sum of the amounts of a client's transactions that are under
/// dispute.
pub open spec fn disputed_funds(log: Map<TxId, Operation>, client: ClientId) -> int {
    held_below(log, client, identifier_bound())
}

impl LedgerState {
    /// Every account holds at least what its open disputes amount to.
    pub open spec fn covers_disputes(self) -> bool {
        forall|client: ClientId| #[trigger]
            self.account(client).held >= disputed_funds(self.log, client)
    }

    /// Every account holds exactly what its open disputes amount to.
    pub open spec fn holds_disputed_funds(self) -> bool {
        forall|client: ClientId| #[trigger]
            self.account(client).held == disputed_funds(self.log, client)
    }

    /// Whether the operation leaves open disputes alone that it does not
    /// name: it is no deposit or withdrawal under the identifier of a
    /// transaction that is under dispute.
    pub open spec fn keeps_open_disputes(self, operation: Operation) -> bool {
        operation.kind.moves_funds() ==> !(self.transaction(operation.tx) matches Some(entry)
            && entry.under_dispute)
    }

    /// Whether the deposits and withdrawals of the sequence come under
    /// identifiers that are new: not in the log, and not used twice.
    pub open spec fn identifiers_are_new(self, operations: Seq<Operation>) -> bool {
        &&& forall|i: int|
            0 <= i < operations.len() && (#[trigger] operations[i]).kind.moves_funds()
                ==> !self.log.contains_key(operations[i].tx)
        &&& forall|i: int, j: int|
            0 <= i < j < operations.len() && (#[trigger] operations[i]).kind.moves_funds() && (
            #[trigger] operations[j]).kind.moves_funds() ==> operations[i].tx != operations[j].tx
    }
}

/// No open dispute holds a negative amount.
pub proof fn lemma_disputed_funds_are_not_negative(
    log: Map<TxId, Operation>,
    client: ClientId,
    bound: nat,
)
    ensures
        held_below(log, client, bound) >= 0,
    decreases bound,
{
    if bound > 0 {
        lemma_disputed_funds_are_not_negative(log, client, (bound - 1) as nat);
    }
}

/// An empty log holds nothing.
pub proof fn lemma_empty_log_holds_nothing(client: ClientId, bound: nat)
    ensures
        held_below(Map::<TxId, Operation>::empty(), client, bound) == 0,
    decreases bound,
{
    if bound > 0 {
        lemma_empty_log_holds_nothing(client, (bound - 1) as nat);
    }
}

/// Two logs that differ under one identifier at most hold the same for a
/// client, but for what the entry under that identifier holds.
pub proof fn lemma_one_entry_changes_the_sum(
    before: Map<TxId, Operation>,
    after: Map<TxId, Operation>,
    client: ClientId,
    tx: TxId,
    bound: nat,
)
    requires
        bound <= identifier_bound(),
        forall|other: TxId|
            other != tx ==> #[trigger] held_by(after, client, other) == held_by(
                before,
                client,
                other,
            ),
    ensures
        held_below(after, client, bound) == held_below(before, client, bound) + if tx < bound {
            held_by(after, client, tx) - held_by(before, client, tx)
        } else {
            0
        },
    decreases bound,
{
    if bound > 0 {
        lemma_one_entry_changes_the_sum(before, after, client, tx, (bound - 1) as nat);
    }
}

/// How one operation moves what is held and what is under dispute, for any
/// client: both move by the same amount, unless the operation is a deposit
/// or withdrawal that replaces a transaction under dispute. Then the
/// dispute is gone and its amount stays held.
pub proof fn lemma_held_moves_with_disputed_funds(
    state: LedgerState,
    operation: Operation,
    client: ClientId,
)
    ensures
        state.keeps_open_disputes(operation) ==> state.apply(operation).account(client).held
            - state.account(client).held == disputed_funds(state.apply(operation).log, client)
            - disputed_funds(state.log, client),
        state.apply(operation).account(client).held - state.account(client).held
            >= disputed_funds(state.apply(operation).log, client) - disputed_funds(
            state.log,
            client,
        ),
{
    let after = state.apply(operation);
    assert forall|other: TxId| other != operation.tx implies #[trigger] held_by(
        after.log,
        client,
        other,
    ) == held_by(state.log, client, other) by {}
    lemma_one_entry_changes_the_sum(
        state.log,
        after.log,
        client,
        operation.tx,
        identifier_bound(),
    );
}

/// Every operation keeps the accounts covering their open disputes.
pub proof fn lemma_apply_keeps_disputes_covered(state: LedgerState, operation: Operation)
    requires
        state.covers_disputes(),
    ensures
        state.apply(operation).covers_disputes(),
{
    let after = state.apply(operation);
    assert forall|client: ClientId| #[trigger]
        after.account(client).held >= disputed_funds(after.log, client) by {
        lemma_held_moves_with_disputed_funds(state, operation, client);
        assert(state.account(client).held >= disputed_funds(state.log, client));
    }
}

/// Opening an account changes nothing of what is held or under dispute.
pub proof fn lemma_opening_keeps_the_books(state: LedgerState, client: ClientId)
    ensures
        state.covers_disputes() ==> state.opened(client).covers_disputes(),
        state.holds_disputed_funds() ==> state.opened(client).holds_disputed_funds(),
{
    let after = state.opened(client);
    assert forall|other: ClientId|
        #![trigger after.account(other)]
        after.account(other) == state.account(other) by {}
    if state.covers_disputes() {
        assert forall|other: ClientId| #[trigger]
            after.account(other).held >= disputed_funds(after.log, other) by {
            assert(state.account(other).held >= disputed_funds(state.log, other));
        }
    }
    if state.holds_disputed_funds() {
        assert forall|other: ClientId| #[trigger]
            after.account(other).held == disputed_funds(after.log, other) by {
            assert(state.account(other).held == disputed_funds(state.log, other));
        }
    }
}

/// An operation that leaves the open disputes alone which it does not name
/// keeps every account holding exactly what is under dispute.
pub proof fn lemma_apply_keeps_held_exact(state: LedgerState, operation: Operation)
    requires
        state.holds_disputed_funds(),
        state.keeps_open_disputes(operation),
    ensures
        state.apply(operation).holds_disputed_funds(),
{
    let after = state.apply(operation);
    assert forall|client: ClientId| #[trigger]
        after.account(client).held == disputed_funds(after.log, client) by {
        lemma_held_moves_with_disputed_funds(state, operation, client);
        assert(state.account(client).held == disputed_funds(state.log, client));
    }
}

/// In the empty ledger nothing is held and nothing is under dispute.
pub proof fn lemma_empty_ledger_holds_nothing()
    ensures
        LedgerState::empty().holds_disputed_funds(),
        LedgerState::empty().covers_disputes(),
{
    assert forall|client: ClientId| #[trigger]
        LedgerState::empty().account(client).held == disputed_funds(
            LedgerState::empty().log,
            client,
        ) by {
        lemma_empty_log_holds_nothing(client, identifier_bound());
    }
}

/// Whatever the operations, the accounts go on covering their open
/// disputes, and so no account that did holds less than nothing.
pub proof fn lemma_replay_keeps_disputes_covered(state: LedgerState, operations: Seq<Operation>)
    requires
        state.covers_disputes(),
    ensures
        state.replay(operations).covers_disputes(),
        forall|client: ClientId| #[trigger] state.replay(operations).account(client).held >= 0,
    decreases operations.len(),
{
    if operations.len() == 0 {
        assert forall|client: ClientId| #[trigger] state.account(client).held >= 0 by {
            lemma_disputed_funds_are_not_negative(state.log, client, identifier_bound());
            assert(state.account(client).held >= disputed_funds(state.log, client));
        }
    } else {
        lemma_apply_keeps_disputes_covered(state, operations[0]);
        lemma_replay_keeps_disputes_covered(state.apply(operations[0]), operations.drop_first());
    }
}

/// While deposits and withdrawals come under new identifiers, every account
/// holds exactly the sum of the amounts of its open disputes.
pub proof fn lemma_replay_keeps_held_exact(state: LedgerState, operations: Seq<Operation>)
    requires
        state.holds_disputed_funds(),
        state.identifiers_are_new(operations),
    ensures
        state.replay(operations).holds_disputed_funds(),
    decreases operations.len(),
{
    if operations.len() > 0 {
        let first = operations[0];
        let rest = operations.drop_first();
        let next = state.apply(first);
        lemma_apply_keeps_held_exact(state, first);
        assert(next.identifiers_are_new(rest)) by {
            assert forall|i: int|
                0 <= i < rest.len() && (#[trigger] rest[i]).kind.moves_funds()
                    implies !next.log.contains_key(rest[i].tx) by {
                assert(rest[i] == operations[i + 1]);
            }
            assert forall|i: int, j: int|
                0 <= i < j < rest.len() && (#[trigger] rest[i]).kind.moves_funds() && (
                #[trigger] rest[j]).kind.moves_funds() implies rest[i].tx != rest[j].tx by {
                assert(rest[i] == operations[i + 1]);
                assert(rest[j] == operations[j + 1]);
            }
        }
        lemma_replay_keeps_held_exact(next, rest);
    }
}

} // verus!
