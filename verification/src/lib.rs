//! Verification rule of a simple user-defined token on a cell-based chain.
//!
//! A transaction that touches token cells is valid when one of its inputs is
//! locked by the token's owner, or when the cells of the script's own group
//! carry no more tokens out than they carry in.
//!
//! The host is never called from here. What it answers to each read is handed
//! in as a [`host::Reading`]: one at a time to the [`machine::State`], or all
//! at once as a [`host::Transaction`] to [`verify::check`].
//!
//! * [`error`]: the rejections and their exit codes.
//! * [`host`]: readings and transactions.
//! * [`script`]: the owner's identity, taken from the script's descriptor.
//! * [`owner`]: owner mode.
//! * [`amount`]: amounts and their totals.
//! * [`verify`]: the verdict on a transaction held in memory.
//! * [`machine`]: the same verification, one read at a time.
//! * [`run`]: what the machine comes to on a transaction.
//! * [`laws`]: what holds of every verdict.

pub mod error;
pub mod host;
pub mod script;
pub mod owner;
pub mod amount;
pub mod verify;
pub mod machine;
pub mod run;
pub mod laws;
