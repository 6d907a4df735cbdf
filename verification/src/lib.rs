//! Verified core of a minimal token-bridging backend.
//!
//! The crate derives a deterministic deposit sub-identity for a stable
//! identity, resolves a logical token selector to its chain identifier and
//! contract address, folds the three possible outcomes of a remote registry
//! call into a single caller-visible result, and assembles the request
//! records (balance query, approval, withdrawal, transfer) that the remote
//! ledger and minter services expect. The outbound calls themselves are
//! asynchronous host I/O and live outside this crate; everything that can be
//! stated and proved about the records and strings handed to those calls is
//! stated and proved here.

pub mod addresses;
pub mod canister_ids;
pub mod deposit;
pub mod identity;
pub mod operations;
