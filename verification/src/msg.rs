//! What a call on the contract is handed and what it hands back.

use vstd::prelude::*;
use crate::types::{CanonicalAddr, HumanAddr};

verus! {

/// Who signed the call. The host has verified the signature before the
/// contract sees the call.
#[derive(Debug, PartialEq, Eq)]
pub struct MessageInfo {
    pub signer: CanonicalAddr,
}

/// The part of a call that the host supplies beside the request itself.
#[derive(Debug, PartialEq, Eq)]
pub struct Params {
    pub message: MessageInfo,
}

/// The request that initializes the contract. It carries nothing.
#[derive(Debug, PartialEq, Eq)]
pub struct InitMsg {}

/// A request that changes something or acts in the contract's name. `M` is
/// the type of an outgoing message, of which the contract reads nothing.
#[derive(Debug, PartialEq, Eq)]
pub enum HandleMsg<M> {
    /// Have `msg` sent in the contract's name.
    ReflectMsg { msg: M },
    /// Make `owner` the owner.
    ChangeOwner { owner: HumanAddr },
}

/// A request that only reads.
#[derive(Debug, PartialEq, Eq)]
pub enum QueryMsg {
    /// Who owns the contract?
    GetOwner {},
}

/// The answer to `QueryMsg::GetOwner`.
#[derive(Debug, PartialEq, Eq)]
pub struct OwnerResponse {
    pub owner: HumanAddr,
}

/// What a call that changes something hands back to the host: the messages
/// to send on, a log entry and auxiliary data.
#[derive(Debug, PartialEq, Eq)]
pub struct Response<M> {
    pub messages: Vec<M>,
    pub log: Option<String>,
    pub data: Option<Vec<u8>>,
}

impl<M> Response<M> {
    /// The response carries exactly `messages`, in this order, and neither a
    /// log entry nor data.
    pub open spec fn carries(&self, messages: Seq<M>) -> bool {
        &&& self.messages@ == messages
        &&& self.log is None
        &&& self.data is None
    }
}

impl<M> Default for Response<M> {
    /// The response that carries nothing.
    fn default() -> (response: Self)
        ensures
            response.carries(Seq::empty()),
    {
        Response { messages: Vec::new(), log: None, data: None }
    }
}

} // verus!
