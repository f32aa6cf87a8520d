//! An in-memory ledger engine for client accounts.
//!
//! The engine consumes an ordered stream of transactions (deposits,
//! withdrawals, disputes, resolves, chargebacks), maintains per-client
//! balances and per-transaction dispute state, and enforces the financial
//! invariants: no silent overflow, withdrawals never drive `available`
//! negative, locked accounts reject further deposits and withdrawals, and a
//! dispute only moves through its legal states. Every balance an account
//! holds under dispute is accounted for: `held` always equals the sum of the
//! amounts of the transactions currently under dispute.
//!
//! Two policies are fixed deliberately. A failed deposit or withdrawal
//! consumes no transaction id and creates no account: every error leaves
//! the ledger exactly as it was. And disputing funds that were already
//! withdrawn is allowed: `available` may go negative under such a dispute,
//! the only way it ever can.

pub mod account;
pub mod amount;
pub mod laws;
pub mod ledger;
pub mod transactions;
