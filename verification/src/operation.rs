//! One entry of the operation stream.

use vstd::prelude::*;
use vstd::string::StringSliceAdditionalSpecFns;
use vstd::utf8::encode_utf8_decode_utf8;
use crate::error::LedgerError;

verus! {

/// Identifies one client account.
pub type ClientId = u16;

/// Identifies one deposit or withdrawal. A dispute, resolve or chargeback
/// carries the identifier of the transaction it refers to.
pub type TxId = u32;

/// How many stored units make one unit of money.
pub const AMOUNT_SCALE: u32 = 10_000;

/// The five kinds of operation.
#[derive(Debug, Clone, Copy, PartialEq, Eq)]
pub enum OpType {
    Deposit,
    Withdrawal,
    Dispute,
    Resolve,
    Chargeback,
}

impl OpType {
    /// Deposits and withdrawals move funds and are recorded; the other three
    /// refer to a recorded transaction.
    pub open spec fn spec_moves_funds(&self) -> bool {
        self is Deposit || self is Withdrawal
    }

    /// The name of the kind in the input.
    pub open spec fn name_text(self) -> Seq<char> {
        match self {
            OpType::Deposit => "deposit"@,
            OpType::Withdrawal => "withdrawal"@,
            OpType::Dispute => "dispute"@,
            OpType::Resolve => "resolve"@,
            OpType::Chargeback => "chargeback"@,
        }
    }

    /// The kind that a name of the input stands for, if any.
    pub open spec fn named(name: Seq<char>) -> Option<OpType> {
        if name == OpType::Deposit.name_text() {
            Some(OpType::Deposit)
        } else if name == OpType::Withdrawal.name_text() {
            Some(OpType::Withdrawal)
        } else if name == OpType::Dispute.name_text() {
            Some(OpType::Dispute)
        } else if name == OpType::Resolve.name_text() {
            Some(OpType::Resolve)
        } else if name == OpType::Chargeback.name_text() {
            Some(OpType::Chargeback)
        } else {
            None
        }
    }

    /// The five names are distinct: each kind is read back from its own name.
    pub proof fn lemma_name_round_trip(self)
        ensures
            OpType::named(self.name_text()) == Some(self),
    {
        reveal_strlit("deposit");
        reveal_strlit("withdrawal");
        reveal_strlit("dispute");
        reveal_strlit("resolve");
        reveal_strlit("chargeback");
        let deposit = "deposit"@;
        let withdrawal = "withdrawal"@;
        let dispute = "dispute"@;
        let resolve = "resolve"@;
        let chargeback = "chargeback"@;
        assert(deposit[1] == 'e' && dispute[1] == 'i' && resolve[1] == 'e');
        assert(deposit[0] == 'd' && dispute[0] == 'd' && resolve[0] == 'r');
        assert(withdrawal[0] == 'w' && chargeback[0] == 'c');
        assert(deposit.len() == 7 && dispute.len() == 7 && resolve.len() == 7);
        assert(withdrawal.len() == 10 && chargeback.len() == 10);
    }

    /// Whether the kind is a deposit or a withdrawal.
    #[verifier::when_used_as_spec(spec_moves_funds)]
    pub fn moves_funds(&self) -> (moves: bool)
        ensures
            moves == self.spec_moves_funds(),
    {
        match self {
            OpType::Deposit => true,
            OpType::Withdrawal => true,
            _ => false,
        }
    }

    /// The name of the kind in the input.
    pub fn name(&self) -> (text: &'static str)
        ensures
            text@ == self.name_text(),
    {
        match self {
            OpType::Deposit => "deposit",
            OpType::Withdrawal => "withdrawal",
            OpType::Dispute => "dispute",
            OpType::Resolve => "resolve",
            OpType::Chargeback => "chargeback",
        }
    }

    /// Reads a kind from its name. Names are matched exactly: no trimming,
    /// no change of case.
    pub fn from_name(name: &str) -> (kind: Option<OpType>)
        ensures
            kind == OpType::named(name@),
    {
        if same_text(name, "deposit") {
            Some(OpType::Deposit)
        } else if same_text(name, "withdrawal") {
            Some(OpType::Withdrawal)
        } else if same_text(name, "dispute") {
            Some(OpType::Dispute)
        } else if same_text(name, "resolve") {
            Some(OpType::Resolve)
        } else if same_text(name, "chargeback") {
            Some(OpType::Chargeback)
        } else {
            None
        }
    }
}

/// Whether two strings hold the same characters. The bytes are compared:
/// two strings have the same encoding only if they are the same.
fn same_text(left: &str, right: &str) -> (same: bool)
    ensures
        same == (left@ == right@),
{
    let left_bytes = left.as_bytes();
    let right_bytes = right.as_bytes();
    if left_bytes.len() != right_bytes.len() {
        return false;
    }
    let mut at: usize = 0;
    while at < left_bytes.len()
        invariant
            at <= left_bytes@.len(),
            left_bytes@.len() == right_bytes@.len(),
            left_bytes@ == left.spec_bytes(),
            right_bytes@ == right.spec_bytes(),
            forall|i: int| 0 <= i < at ==> left_bytes@[i] == right_bytes@[i],
        decreases left_bytes@.len() - at,
    {
        if left_bytes[at] != right_bytes[at] {
            return false;
        }
        at += 1;
    }
    proof {
        assert(left_bytes@ =~= right_bytes@);
        encode_utf8_decode_utf8(left@);
        encode_utf8_decode_utf8(right@);
    }
    true
}

/// One ledger event. The two flags are the dispute state of a recorded
/// transaction; they are false on every operation that enters the ledger.
#[derive(Debug, Clone, Copy, PartialEq, Eq)]
pub struct Operation {
    pub kind: OpType,
    pub client: ClientId,
    pub tx: TxId,
    /// In ten-thousandths of a unit. Read for deposits and withdrawals only.
    pub amount: Option<u32>,
    pub under_dispute: bool,
    pub charged_back: bool,
}

impl Operation {
    /// A deposit or withdrawal is well formed when it carries an amount; the
    /// other kinds always are.
    pub open spec fn well_formed(self) -> bool {
        self.kind.moves_funds() ==> self.amount is Some
    }

    /// A completed deposit or withdrawal: what a dispute can refer to.
    pub open spec fn is_transaction(self) -> bool {
        self.kind.moves_funds() && self.amount is Some
    }

    /// The operation taken as one of the given kind.
    pub open spec fn as_kind(self, kind: OpType) -> Operation {
        Operation { kind, ..self }
    }

    /// The operation as the log first records it: no dispute open, not
    /// charged back.
    pub open spec fn recorded(self) -> Operation {
        Operation { under_dispute: false, charged_back: false, ..self }
    }

    /// The operation that one record of the input describes, where it
    /// describes one.
    pub open spec fn read(
        name: Seq<char>,
        client: ClientId,
        tx: TxId,
        amount: Option<u32>,
    ) -> Result<Operation, LedgerError> {
        match OpType::named(name) {
            None => Err(LedgerError::MalformedOperation),
            Some(kind) => {
                let operation = Operation {
                    kind,
                    client,
                    tx,
                    amount,
                    under_dispute: false,
                    charged_back: false,
                };
                if operation.well_formed() {
                    Ok(operation)
                } else {
                    Err(LedgerError::MalformedOperation)
                }
            },
        }
    }

    /// An operation with both flags cleared. Nothing is checked: see
    /// [`Operation::from_record`] for input that may be malformed.
    pub fn new(kind: OpType, client: ClientId, tx: TxId, amount: Option<u32>) -> (operation:
        Operation)
        ensures
            operation == (Operation {
                kind,
                client,
                tx,
                amount,
                under_dispute: false,
                charged_back: false,
            }),
    {
        Operation { kind, client, tx, amount, under_dispute: false, charged_back: false }
    }

    /// Builds the operation of one input record. The record is malformed when
    /// the name is none of the five kinds, or when a deposit or withdrawal has
    /// no amount. An amount on one of the other kinds is kept and never read.
    pub fn from_record(name: &str, client: ClientId, tx: TxId, amount: Option<u32>) -> (operation:
        Result<Operation, LedgerError>)
        ensures
            operation == Operation::read(name@, client, tx, amount),
    {
        match OpType::from_name(name) {
            None => Err(LedgerError::MalformedOperation),
            Some(kind) => {
                if kind.moves_funds() && amount.is_none() {
                    Err(LedgerError::MalformedOperation)
                } else {
                    Ok(Operation::new(kind, client, tx, amount))
                }
            },
        }
    }
}

} // verus!
