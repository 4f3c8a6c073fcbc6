//! A verified model of the Synapse settlement contract: an administrator
//! grants relayers, keeps an allowlist of asset codes, and relayers register
//! deposits, move them through their lifecycle, park failures in a dead-letter
//! queue and finalize settlements.
//!
//! The contract's storage is held here as a plain value (`SynapseContract`);
//! the host environment (authorization, persistence, event publication) is
//! left to the caller, which hands in the caller's identity and the ledger
//! sequence number and publishes the events that the contract records.

pub mod text_set;
pub mod types;
pub mod spec;
pub mod contract;
pub mod laws;

pub use contract::{ContractParts, SynapseContract};
pub use spec::{ContractModel, ZERO_ADDRESS};
pub use types::{ContractError, DlqEntry, Event, Settlement, Transaction, TransactionStatus};
