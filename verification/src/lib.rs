//! Ledger and packet-lifecycle core of a cross-chain token bridge.
//!
//! The crate keeps the per-(channel, denomination) balance ledger, the
//! voucher-denomination codec, and the state machine that drives outbound
//! sends, inbound receives, acknowledgements, timeouts and the deferred
//! completion of inbound transfers.  All state is passed explicitly as a
//! [`state::BridgeStorage`] value; the host that dispatches messages and
//! performs I/O lives outside this crate.

pub mod amount;
pub mod contract;
pub mod error;
pub mod ibc;
pub mod laws;
pub mod state;
