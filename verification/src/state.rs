//! The owner record and the contract's view of the store that keeps it.

use vstd::prelude::*;
use crate::errors::ContractError;
use crate::types::CanonicalAddr;

verus! {

/// The only persisted entity: who owns the contract.
#[derive(Debug, PartialEq, Eq)]
pub struct State {
    pub owner: CanonicalAddr,
}

impl Clone for State {
    fn clone(&self) -> (copy: Self)
        ensures
            copy.owner@ == self.owner@,
    {
        State { owner: self.owner.clone() }
    }
}

/// What the store holds under the owner record's key, as a specification sees
/// it. A record is known by its owner in canonical form.
pub enum Stored {
    /// Nothing was ever written.
    Absent,
    /// Bytes are there that do not decode as an owner record.
    Unreadable,
    /// The record of the given owner.
    Record(Seq<u8>),
}

/// What reading the record yields: the owner, or the reason there is none.
pub open spec fn load_spec(stored: Stored) -> Result<Seq<u8>, ContractError> {
    match stored {
        Stored::Absent => Err(ContractError::NotFound),
        Stored::Unreadable => Err(ContractError::Deserialize),
        Stored::Record(owner) => Ok(owner),
    }
}

/// A loaded or updated record as a specification sees it: its owner, or the
/// failure as it is.
pub open spec fn owner_view(res: Result<State, ContractError>) -> Result<Seq<u8>, ContractError> {
    match res {
        Ok(state) => Ok(state.owner@),
        Err(e) => Err(e),
    }
}

#[derive(Debug)]
enum Slot {
    Empty,
    Garbled,
    Holds(State),
}

/// The store as one call on the contract sees it: the decoded content of the
/// owner record's key, and whether this handle was written through.
#[derive(Debug)]
pub struct Storage {
    slot: Slot,
    written: bool,
}

impl View for Storage {
    type V = Stored;

    closed spec fn view(&self) -> Stored {
        match self.slot {
            Slot::Empty => Stored::Absent,
            Slot::Garbled => Stored::Unreadable,
            Slot::Holds(state) => Stored::Record(state.owner@),
        }
    }
}

impl Storage {
    /// Whether a record was saved through this handle since it was made.
    pub closed spec fn is_written(&self) -> bool {
        self.written && self.slot is Holds
    }

    /// A store in which no record was ever written.
    pub fn new() -> (storage: Self)
        ensures
            storage@ == Stored::Absent,
            !storage.is_written(),
    {
        Storage { slot: Slot::Empty, written: false }
    }

    /// A store that holds `state`.
    pub fn holding(state: State) -> (storage: Self)
        ensures
            storage@ == Stored::Record(state.owner@),
            !storage.is_written(),
    {
        Storage { slot: Slot::Holds(state), written: false }
    }

    /// A store whose bytes under the record's key do not decode.
    pub fn unreadable() -> (storage: Self)
        ensures
            storage@ == Stored::Unreadable,
            !storage.is_written(),
    {
        Storage { slot: Slot::Garbled, written: false }
    }

    /// Reads the owner record.
    pub fn load(&self) -> (loaded: Result<State, ContractError>)
        ensures
            owner_view(loaded) == load_spec(self@),
    {
        match &self.slot {
            Slot::Empty => Err(ContractError::NotFound),
            Slot::Garbled => Err(ContractError::Deserialize),
            Slot::Holds(state) => Ok(state.clone()),
        }
    }

    /// The record that the host has to persist when the call is over: the one
    /// last saved through this handle, if any was.
    pub fn saved(&self) -> (record: Option<State>)
        ensures
            match record {
                Some(state) => self.is_written() && self@ == Stored::Record(state.owner@),
                None => !self.is_written(),
            },
    {
        if self.written {
            match &self.slot {
                Slot::Holds(state) => Some(state.clone()),
                _ => None,
            }
        } else {
            None
        }
    }

    /// Writes `state` as the owner record, over whatever was there.
    pub fn save(&mut self, state: State)
        ensures
            final(self)@ == Stored::Record(state.owner@),
            final(self).is_written(),
    {
        self.slot = Slot::Holds(state);
        self.written = true;
    }

    /// Loads the record, applies `transform` to it and saves what it returns.
    /// Where the load or the transform fails, nothing is written.
    pub fn update<F>(&mut self, transform: F) -> (updated: Result<State, ContractError>)
        where F: FnOnce(State) -> Result<State, ContractError>
        requires
            forall|state: State| load_spec(old(self)@) == Ok::<Seq<u8>, ContractError>(state.owner@)
                ==> call_requires(transform, (state,)),
        ensures
            match load_spec(old(self)@) {
                Err(e) => updated == Err::<State, ContractError>(e) && *final(self) == *old(self),
                Ok(owner) => exists|state: State, out: Result<State, ContractError>|
                    state.owner@ == owner && call_ensures(transform, (state,), out) && owner_view(
                        updated,
                    ) == owner_view(out) && match out {
                        Ok(next) => final(self)@ == Stored::Record(next.owner@)
                            && final(self).is_written(),
                        Err(_) => *final(self) == *old(self),
                    },
            },
    {
        let state = match self.load() {
            Ok(state) => state,
            Err(e) => { return Err(e); },
        };
        match transform(state) {
            Ok(next) => {
                let saved = next.clone();
                self.save(next);
                Ok(saved)
            },
            Err(e) => Err(e),
        }
    }
}

} // verus!
