//! An access-controlled message-forwarding contract: one owner, who may have
//! messages forwarded in the contract's name and may hand ownership on.
//!
//! The contract keeps a single record, the owner. It is written when the
//! contract is initialized, by whoever signs that call, and replaced when the
//! owner transfers ownership. Every call is handed what the host lends it for
//! the call's duration: the store and the host's address conversions.

pub mod api;
pub mod contract;
pub mod errors;
pub mod laws;
pub mod msg;
pub mod state;
pub mod types;
