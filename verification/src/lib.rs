//! Authorization and safe-state-mutation core.
//!
//! A set of named, typed resource records that callers may mutate only after
//! an ordered chain of identity, ownership and bounds checks has passed, with
//! checked arithmetic on balances, a per-record reentrancy guard around the
//! external-interaction window, and all-or-nothing commit semantics.

pub mod account;
pub mod address;
pub mod arith;
pub mod constraint;
pub mod coordinator;
pub mod deriver;
pub mod errors;
pub mod guard;
pub mod laws;
pub mod ops;
pub mod registry;
pub mod wire;

pub use address::{Address, Identity};
pub use errors::ProtocolError;
