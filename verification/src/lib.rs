//! The rules of grants that are paid out milestone by milestone: who may vote on
//! a milestone and how the votes are counted, how the escrow of a cancelled grant
//! is divided, and who is in the registry.
//!
//! The functions work on what a contract has read from its ledger, and return
//! what it has to write, pay and publish. Those whose name begins with `checked_`
//! do nothing, and return `None`, where the one of the plain name cannot be
//! called.
pub mod arith;
pub mod governance;
pub mod governance_laws;
pub mod host;
pub mod refund;
pub mod refund_laws;
pub mod registry;
pub mod registry_laws;
pub mod types;
