//! What follows from the rules: laws of the ledger, proved for every state
//! and every operation.

use vstd::prelude::*;
use crate::account::AccountState;
use crate::error::LedgerError;
use crate::operation::{ClientId, OpType, Operation, TxId};
use crate::rules::LedgerState;

verus! {

/// What an operation adds to its client's total when it is accepted: a
/// deposit its amount, a withdrawal its amount taken away, a chargeback the
/// amount of the transaction it names taken away, a dispute or resolve
/// nothing.
pub open spec fn signed_amount(state: LedgerState, operation: Operation) -> int {
    match operation.kind {
        OpType::Deposit => operation.amount->0 as int,
        OpType::Withdrawal => -(operation.amount->0 as int),
        OpType::Chargeback => -(state.log[operation.tx].amount->0 as int),
        _ => 0,
    }
}

/// The sum of the signed amounts of those operations of the client that the
/// rules accept, each one judged in the state that its predecessors left.
pub open spec fn applied_sum(
    state: LedgerState,
    operations: Seq<Operation>,
    client: ClientId,
) -> int
    decreases operations.len(),
{
    if operations.len() == 0 {
        0
    } else {
        let first = operations[0];
        let share = if first.client == client && state.verdict(first) is Ok {
            signed_amount(state, first)
        } else {
            0
        };
        share + applied_sum(state.apply(first), operations.drop_first(), client)
    }
}

/// Whether every operation of the sequence is a deposit or a withdrawal.
pub open spec fn only_moves_funds(operations: Seq<Operation>) -> bool {
    forall|i: int| 0 <= i < operations.len() ==> (#[trigger] operations[i]).kind.moves_funds()
}

/// An operation touches no account but its client's.
pub proof fn lemma_other_accounts_untouched(
    state: LedgerState,
    operation: Operation,
    client: ClientId,
)
    requires
        client != operation.client,
    ensures
        state.apply(operation).account(client) == state.account(client),
        state.apply(operation).accounts.contains_key(client) == state.accounts.contains_key(client),
{
}

/// An operation writes no log entry but the one under its identifier.
pub proof fn lemma_other_entries_untouched(state: LedgerState, operation: Operation, tx: TxId)
    requires
        tx != operation.tx,
    ensures
        state.apply(operation).log.contains_key(tx) == state.log.contains_key(tx),
        state.apply(operation).log.contains_key(tx) ==> state.apply(operation).log[tx]
            == state.log[tx],
{
}

/// When the rules accept an operation: it is well formed, its client's
/// account is not locked, and
/// - a withdrawal asks for no more than is available;
/// - a dispute names a recorded transaction of the same client that is
///   neither under dispute nor charged back;
/// - a resolve or chargeback names a recorded transaction of the same client
///   that is under dispute.
pub proof fn lemma_when_the_rules_accept(state: LedgerState, operation: Operation)
    ensures
        state.verdict(operation) is Ok <==> {
            &&& operation.well_formed()
            &&& !state.account(operation.client).locked
            &&& match operation.kind {
                OpType::Deposit => true,
                OpType::Withdrawal => operation.amount->0 <= state.account(
                    operation.client,
                ).available(),
                OpType::Dispute => state.transaction(operation.tx) matches Some(entry)
                    && !entry.under_dispute && !entry.charged_back && entry.client
                    == operation.client,
                _ => state.transaction(operation.tx) matches Some(entry) && entry.under_dispute
                    && entry.client == operation.client,
            }
        },
{
}

/// What the rules turn down always fits: a rejection moves no balance, so
/// it cannot take one out of the range of the stored integers.
pub proof fn lemma_rejection_fits(state: LedgerState, operation: Operation)
    requires
        state.verdict(operation) is Err,
        state.account(operation.client).representable(),
    ensures
        state.fits(operation),
{
}

/// A rejected operation changes no balance and no log entry, whatever the
/// reason. All it may do is open its client's account.
pub proof fn lemma_rejection_changes_nothing(state: LedgerState, operation: Operation)
    requires
        state.verdict(operation) is Err,
    ensures
        state.apply(operation).log == state.log,
        forall|client: ClientId| #[trigger]
            state.apply(operation).account(client) == state.account(client),
        state.apply(operation) == state || state.apply(operation) == state.opened(
            operation.client,
        ),
{
}

/// An accepted operation changes its client's balance as its kind says:
/// a deposit adds its amount to the total, a withdrawal takes it away, a
/// dispute holds the amount of the transaction it names, a resolve releases
/// it, and a chargeback takes it from both balances and locks the account.
pub proof fn lemma_acceptance_moves_the_amount(state: LedgerState, operation: Operation)
    requires
        state.verdict(operation) is Ok,
    ensures
        ({
            let before = state.account(operation.client);
            let after = state.apply(operation).account(operation.client);
            let named = state.log[operation.tx].amount->0;
            match operation.kind {
                OpType::Deposit => after == (AccountState {
                    total: before.total + operation.amount->0,
                    ..before
                }),
                OpType::Withdrawal => after == (AccountState {
                    total: before.total - operation.amount->0,
                    ..before
                }),
                OpType::Dispute => after == (AccountState { held: before.held + named, ..before }),
                OpType::Resolve => after == (AccountState { held: before.held - named, ..before }),
                OpType::Chargeback => after == (AccountState {
                    total: before.total - named,
                    held: before.held - named,
                    locked: true,
                }),
            }
        }),
        operation.kind.moves_funds() ==> state.apply(operation).transaction(operation.tx) == Some(
            operation.recorded(),
        ),
{
}

/// A client's total moves by the signed sum of the amounts that were
/// applied, whatever the operations. Over deposits and withdrawals alone,
/// the held funds and the lock do not move at all.
pub proof fn lemma_total_is_sum_of_applied_amounts(
    state: LedgerState,
    operations: Seq<Operation>,
    client: ClientId,
)
    ensures
        state.replay(operations).account(client).total == state.account(client).total
            + applied_sum(state, operations, client),
        only_moves_funds(operations) ==> state.replay(operations).account(client).held
            == state.account(client).held,
        only_moves_funds(operations) ==> state.replay(operations).account(client).locked
            == state.account(client).locked,
    decreases operations.len(),
{
    if operations.len() > 0 {
        let first = operations[0];
        let rest = operations.drop_first();
        if only_moves_funds(operations) {
            assert(first.kind.moves_funds());
            assert forall|i: int| 0 <= i < rest.len() implies (
            #[trigger] rest[i]).kind.moves_funds() by {
                assert(rest[i] == operations[i + 1]);
            }
        }
        lemma_total_is_sum_of_applied_amounts(state.apply(first), rest, client);
    }
}

/// From an empty ledger, after deposits and withdrawals alone, every
/// client's total is the signed sum of the applied amounts and nothing is
/// held.
pub proof fn lemma_total_from_empty_ledger(operations: Seq<Operation>, client: ClientId)
    requires
        only_moves_funds(operations),
    ensures
        LedgerState::empty().replay(operations).account(client).total == applied_sum(
            LedgerState::empty(),
            operations,
            client,
        ),
        LedgerState::empty().replay(operations).account(client).held == 0,
        !LedgerState::empty().replay(operations).account(client).locked,
{
    lemma_total_is_sum_of_applied_amounts(LedgerState::empty(), operations, client);
}

/// A withdrawal of more than the available funds is rejected, and the
/// client's balance stays as it was.
pub proof fn lemma_overdraw_is_rejected(state: LedgerState, withdrawal: Operation)
    requires
        withdrawal.kind is Withdrawal,
        withdrawal.amount is Some,
        withdrawal.amount->0 > state.account(withdrawal.client).available(),
    ensures
        state.verdict(withdrawal) == Err::<(), LedgerError>(
            if state.account(withdrawal.client).locked {
                LedgerError::AccountLocked
            } else {
                LedgerError::InsufficientFunds
            },
        ),
        state.apply(withdrawal).account(withdrawal.client) == state.account(withdrawal.client),
{
}

/// A dispute on a transaction that is unknown, already under dispute or
/// already charged back is rejected for that reason, whether the account is
/// locked or not, and every balance stays as it was.
pub proof fn lemma_dispute_out_of_turn_is_rejected(state: LedgerState, dispute: Operation)
    requires
        dispute.kind is Dispute,
        state.transaction(dispute.tx) matches Some(entry) ==> entry.under_dispute
            || entry.charged_back,
    ensures
        state.verdict(dispute) == Err::<(), LedgerError>(
            if state.transaction(dispute.tx) is None {
                LedgerError::UnknownTransaction
            } else {
                LedgerError::InvalidDisputeState
            },
        ),
        state.apply(dispute).log == state.log,
        forall|client: ClientId| #[trigger]
            state.apply(dispute).account(client) == state.account(client),
{
}

/// A dispute, resolve or chargeback that the transaction it names does not
/// allow is rejected for that reason, whether the account is locked or not:
/// the transaction is looked at before the lock.
pub proof fn lemma_reference_is_judged_first(state: LedgerState, operation: Operation)
    requires
        !operation.kind.moves_funds(),
        state.reference_verdict(operation) is Err,
    ensures
        state.verdict(operation) == state.reference_verdict(operation),
        state.apply(operation).log == state.log,
        forall|client: ClientId| #[trigger]
            state.apply(operation).account(client) == state.account(client),
{
}

/// A resolve after a dispute puts the held funds back to what they were
/// and leaves the total alone; the whole state is as before the dispute,
/// but for the client's account being open. A second resolve is rejected.
/// The resolve fits the stored integers whenever the balance before the
/// dispute did.
pub proof fn lemma_resolve_undoes_dispute(
    state: LedgerState,
    dispute: Operation,
    resolve: Operation,
)
    requires
        dispute.kind is Dispute,
        resolve.kind is Resolve,
        resolve.client == dispute.client,
        resolve.tx == dispute.tx,
        state.verdict(dispute) is Ok,
    ensures
        state.apply(dispute).verdict(resolve) is Ok,
        state.apply(dispute).apply(resolve).account(dispute.client).held == state.account(
            dispute.client,
        ).held,
        state.apply(dispute).apply(resolve).account(dispute.client).total == state.account(
            dispute.client,
        ).total,
        state.apply(dispute).apply(resolve) == state.opened(dispute.client),
        state.apply(dispute).apply(resolve).verdict(resolve) == Err::<(), LedgerError>(
            LedgerError::InvalidDisputeState,
        ),
        state.account(dispute.client).representable() ==> state.apply(dispute).fits(resolve),
{
    let disputed = state.apply(dispute);
    let resolved = disputed.apply(resolve);
    assert(disputed.verdict(resolve) is Ok);
    assert(resolved.log =~= state.log);
    assert(resolved.accounts =~= state.opened(dispute.client).accounts);
}

/// A chargeback after a dispute takes the disputed amount from the total,
/// leaves the held funds where they were before the dispute, and locks the
/// account. The transaction is marked as charged back. The chargeback fits
/// the stored integers unless it takes the total below their range.
pub proof fn lemma_chargeback_after_dispute(
    state: LedgerState,
    dispute: Operation,
    chargeback: Operation,
)
    requires
        dispute.kind is Dispute,
        chargeback.kind is Chargeback,
        chargeback.client == dispute.client,
        chargeback.tx == dispute.tx,
        state.verdict(dispute) is Ok,
    ensures
        state.apply(dispute).verdict(chargeback) is Ok,
        state.apply(dispute).account(dispute.client).held == state.account(dispute.client).held
            + state.log[dispute.tx].amount->0,
        state.apply(dispute).apply(chargeback).account(dispute.client) == (AccountState {
            total: state.account(dispute.client).total - state.log[dispute.tx].amount->0,
            held: state.account(dispute.client).held,
            locked: true,
        }),
        state.apply(dispute).apply(chargeback).log[dispute.tx].charged_back,
        !state.apply(dispute).apply(chargeback).log[dispute.tx].under_dispute,
        state.account(dispute.client).representable() ==> (state.apply(dispute).fits(chargeback)
            <==> state.account(dispute.client).total - state.log[dispute.tx].amount->0
            >= i64::MIN),
{
}

/// Every operation of a client whose account is locked is rejected, and the
/// client's balance stays as it was. The reason is the lock for a deposit or
/// withdrawal that is well formed, and for a dispute, resolve or chargeback
/// whose transaction is in order; otherwise it is what is wrong with the
/// operation or with the transaction it names.
pub proof fn lemma_locked_account_rejects(state: LedgerState, operation: Operation)
    requires
        state.account(operation.client).locked,
    ensures
        state.verdict(operation) is Err,
        state.verdict(operation) == if !operation.well_formed() {
            Err::<(), LedgerError>(LedgerError::MalformedOperation)
        } else if !operation.kind.moves_funds() && state.reference_verdict(operation) is Err {
            state.reference_verdict(operation)
        } else {
            Err::<(), LedgerError>(LedgerError::AccountLocked)
        },
        state.apply(operation).account(operation.client) == state.account(operation.client),
        state.apply(operation).log == state.log,
{
}

/// The balance of a locked account is frozen: no sequence of operations, of
/// this client or of others, changes it.
pub proof fn lemma_locked_account_is_frozen(
    state: LedgerState,
    operations: Seq<Operation>,
    client: ClientId,
)
    requires
        state.account(client).locked,
    ensures
        state.replay(operations).account(client) == state.account(client),
    decreases operations.len(),
{
    if operations.len() > 0 {
        let first = operations[0];
        if first.client == client {
            lemma_locked_account_rejects(state, first);
        } else {
            lemma_other_accounts_untouched(state, first, client);
        }
        lemma_locked_account_is_frozen(state.apply(first), operations.drop_first(), client);
    }
}

/// After a dispute was resolved, the same transaction can be disputed anew,
/// with the effect of the first dispute. It fits the stored integers if the
/// first one did.
pub proof fn lemma_dispute_again_after_resolve(
    state: LedgerState,
    dispute: Operation,
    resolve: Operation,
)
    requires
        dispute.kind is Dispute,
        resolve.kind is Resolve,
        resolve.client == dispute.client,
        resolve.tx == dispute.tx,
        state.verdict(dispute) is Ok,
    ensures
        state.apply(dispute).apply(resolve).verdict(dispute) is Ok,
        state.apply(dispute).apply(resolve).apply(dispute).account(dispute.client)
            == state.apply(dispute).account(dispute.client),
        state.fits(dispute) ==> state.apply(dispute).apply(resolve).fits(dispute),
{
    lemma_resolve_undoes_dispute(state, dispute, resolve);
}

/// A transaction that is charged back stays so under every operation but a
/// deposit or withdrawal that takes its identifier.
pub proof fn lemma_charged_back_stays(state: LedgerState, operation: Operation, tx: TxId)
    requires
        state.transaction(tx) matches Some(entry) && entry.charged_back,
        !(operation.kind.moves_funds() && operation.tx == tx),
    ensures
        state.apply(operation).transaction(tx) matches Some(entry) && entry.charged_back,
{
}

/// A transaction that is charged back can never be disputed again: after
/// any operations that do not take its identifier for a new deposit or
/// withdrawal, a dispute on it is rejected.
pub proof fn lemma_charged_back_is_final(
    state: LedgerState,
    operations: Seq<Operation>,
    dispute: Operation,
)
    requires
        dispute.kind is Dispute,
        state.transaction(dispute.tx) matches Some(entry) && entry.charged_back,
        forall|i: int|
            0 <= i < operations.len() ==> !((#[trigger] operations[i]).kind.moves_funds()
                && operations[i].tx == dispute.tx),
    ensures
        state.replay(operations).transaction(dispute.tx) matches Some(entry) && entry.charged_back,
        state.replay(operations).verdict(dispute) is Err,
    decreases operations.len(),
{
    if operations.len() > 0 {
        let rest = operations.drop_first();
        lemma_charged_back_stays(state, operations[0], dispute.tx);
        assert forall|i: int| 0 <= i < rest.len() implies !((#[trigger] rest[i]).kind.moves_funds()
            && rest[i].tx == dispute.tx) by {
            assert(rest[i] == operations[i + 1]);
        }
        lemma_charged_back_is_final(state.apply(operations[0]), rest, dispute);
    }
}

} // verus!
