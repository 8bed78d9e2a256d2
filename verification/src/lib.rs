//! Executes one mined transaction again, against instrumented code of the
//! contract that it calls, to bring out the diagnostic lines that the
//! deployed code does not log.
//!
//! The library holds the decisions of such a run and proves what they
//! come to; it never reads, sends or executes anything itself.
//!
//! - [`engine`] is the run as a state machine: the caller performs each
//!   action (on the block explorer, the compiler, the chain's node and the
//!   forked backend) and hands back what came of it.
//! - [`patcher`] uncomments the diagnostic calls of a contract's source and
//!   makes the diagnostics library available to it.
//! - [`reconstruct`] and [`prestate`] rebuild the state before the
//!   transaction: by the transactions to replay, or by the override set of
//!   a pre-state trace.
//! - [`overrides`] turns a set of per-account overrides into backend
//!   operations; [`backend`] says what those operations mean and proves
//!   what follows for the storage of an account.
//! - [`dispatch`] works out the block context and the relaxed transaction
//!   that an execution runs under, and whether it is a call or a creation.
//! - [`decode`] selects the diagnostic lines from what an execution logged.
//! - [`account`], [`transaction`], [`word`], [`models`] and [`error`] hold
//!   the data; [`codec`] holds what the chain's own libraries compute.

pub mod word;
pub mod codec;
pub mod error;
pub mod account;
pub mod overrides;
pub mod backend;
pub mod prestate;
pub mod patcher;
pub mod transaction;
pub mod dispatch;
pub mod reconstruct;
pub mod decode;
pub mod models;
pub mod engine;
