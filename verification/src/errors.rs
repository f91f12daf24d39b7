//! The ways in which a call on the contract can fail.

use vstd::prelude::*;

verus! {

/// Why a call was refused. Every failure is handed back to the caller; none is
/// retried or swallowed, and none leaves a partial write behind.
#[derive(Clone, Copy, Debug, PartialEq, Eq, Structural)]
pub enum ContractError {
    /// The signer of a gated request is not the current owner.
    Unauthorized,
    /// The owner record was read before any initialization wrote it.
    NotFound,
    /// The store holds bytes under the record's key that do not decode as an
    /// owner record.
    Deserialize,
    /// The host could not convert an address between its two forms.
    AddressConversion,
}

} // verus!
