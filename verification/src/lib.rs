//! A single-pass ledger: it replays deposits, withdrawals, disputes, resolves
//! and chargebacks in order, and keeps one balance per client.
//!
//! Amounts are fixed-point integers: one stored unit is a ten-thousandth.
//!
//! - [`operation`]: the operations of the input, and how a record becomes one.
//! - [`account`]: the balance of a client, stored and as the rules see it.
//! - [`transaction_log`]: the record of the transactions that disputes name.
//! - [`rules`]: what the ledger does, stated over mathematical integers.
//! - [`bank`]: the executable ledger, proved to follow the rules.
//! - [`laws`] and [`bookkeeping`]: what follows from the rules, proved for
//!   every state and every sequence of operations.
//! - [`error`]: why an operation is turned down.

pub mod account;
pub mod bank;
pub mod bookkeeping;
pub mod error;
pub mod laws;
pub mod operation;
pub mod rules;
pub mod transaction_log;

pub use account::{Account, AccountRow, AccountState};
pub use bank::Bank;
pub use error::LedgerError;
pub use operation::{ClientId, OpType, Operation, TxId, AMOUNT_SCALE};
pub use rules::LedgerState;
pub use transaction_log::{TransactionLog, TransactionLogInMemory};
