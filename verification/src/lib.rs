//! Recurring treasury jobs for a pooled-staking product on a remote ledger
//! and governance service.
//!
//! The library decides; it performs no remote call itself. Each job is a
//! state machine that names the next remote operation and takes what came of
//! it: the daily job (`commands::daily`), which disburses dissolved neurons,
//! lets the deposits service apply interest, and splits off new withdrawal
//! neurons; the setup (`commands::setup`), which makes the staking neurons;
//! and the signing bridge (`identity::canister_identity`), which signs with a
//! key that only a custody service can use. `account` derives the addresses
//! that the jobs pay to.

pub mod account;
pub mod bytes;
pub mod commands;
pub mod deposits;
pub mod digest;
pub mod error;
pub mod governance;
pub mod identity;
pub mod ledger;
pub mod principal;
