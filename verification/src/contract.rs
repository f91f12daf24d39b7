//! The three entry points of the contract and what they decide.

use vstd::prelude::*;
use crate::api::{canonical_of, human_of, Api, Book};
use crate::errors::ContractError;
use crate::msg::{HandleMsg, InitMsg, OwnerResponse, Params, QueryMsg, Response};
use crate::state::{load_spec, owner_view, State, Storage, Stored};
use crate::types::HumanAddr;

verus! {

/// What the host lends to one call: the store and its address capability.
#[derive(Debug)]
pub struct Extern {
    pub storage: Storage,
    pub api: Api,
}

/// Whether `signer` may use a gated operation on a store that holds `stored`:
/// only the owner on record may.
pub open spec fn authorize(stored: Stored, signer: Seq<u8>) -> Result<(), ContractError> {
    match load_spec(stored) {
        Err(e) => Err(e),
        Ok(owner) => if owner == signer {
            Ok(())
        } else {
            Err(ContractError::Unauthorized)
        },
    }
}

/// The owner that a transfer to `target`, signed by `signer`, puts on record.
/// The signer is held against the owner on record first, and only then is the
/// target converted.
pub open spec fn transfer(stored: Stored, book: Book, signer: Seq<u8>, target: Seq<char>) -> Result<
    Seq<u8>,
    ContractError,
> {
    match authorize(stored, signer) {
        Err(e) => Err(e),
        Ok(()) => match canonical_of(book, target) {
            None => Err(ContractError::AddressConversion),
            Some(canonical) => Ok(canonical),
        },
    }
}

/// What the store holds after that transfer: the new owner where it
/// succeeded, and what it held before where it failed.
pub open spec fn after_transfer(stored: Stored, book: Book, signer: Seq<u8>, target: Seq<char>) -> Stored {
    match transfer(stored, book, signer, target) {
        Ok(owner) => Stored::Record(owner),
        Err(_) => stored,
    }
}

/// The owner in human-readable form, as a query reports it.
pub open spec fn owner_of(stored: Stored, book: Book) -> Result<Seq<char>, ContractError> {
    match load_spec(stored) {
        Err(e) => Err(e),
        Ok(owner) => match human_of(book, owner) {
            None => Err(ContractError::AddressConversion),
            Some(human) => Ok(human),
        },
    }
}

/// Initializes the contract: the signer of the call becomes the owner.
pub fn init<M>(deps: &mut Extern, params: Params, _msg: InitMsg) -> (res: Result<
    Response<M>,
    ContractError,
>)
    ensures
        res matches Ok(response) && response.carries(Seq::empty()),
        final(deps).storage@ == Stored::Record(params.message.signer@),
        final(deps).storage.is_written(),
        final(deps).api == old(deps).api,
{
    let state = State { owner: params.message.signer };
    deps.storage.save(state);
    Ok(Response::default())
}

/// What `try_reflect` owes: the message comes back alone and unchanged where
/// the signer is the owner on record, and the call fails otherwise. Either
/// way nothing that the host lent is changed.
pub open spec fn reflected<M>(
    before: Extern,
    after: Extern,
    signer: Seq<u8>,
    msg: M,
    res: Result<Response<M>, ContractError>,
) -> bool {
    &&& after == before
    &&& match authorize(before.storage@, signer) {
        Ok(()) => res matches Ok(response) && response.carries(seq![msg]),
        Err(e) => res == Err::<Response<M>, ContractError>(e),
    }
}

/// What `try_change_owner` owes: where the transfer succeeds, the new owner
/// is written and the response carries nothing; where it fails, the call
/// fails for the same reason and nothing that the host lent is changed.
pub open spec fn owner_changed<M>(
    before: Extern,
    after: Extern,
    signer: Seq<u8>,
    target: Seq<char>,
    res: Result<Response<M>, ContractError>,
) -> bool {
    &&& after.api == before.api
    &&& after.storage@ == after_transfer(before.storage@, before.api@, signer, target)
    &&& match transfer(before.storage@, before.api@, signer, target) {
        Ok(_) => res matches Ok(response) && response.carries(Seq::empty())
            && after.storage.is_written(),
        Err(e) => res == Err::<Response<M>, ContractError>(e) && after == before,
    }
}

/// Carries out a request that changes something or acts in the contract's
/// name, each kind by its own function.
pub fn handle<M>(deps: &mut Extern, params: Params, msg: HandleMsg<M>) -> (res: Result<
    Response<M>,
    ContractError,
>)
    ensures
        match msg {
            HandleMsg::ReflectMsg { msg: forwarded } => reflected(
                *old(deps),
                *final(deps),
                params.message.signer@,
                forwarded,
                res,
            ),
            HandleMsg::ChangeOwner { owner } => owner_changed(
                *old(deps),
                *final(deps),
                params.message.signer@,
                owner@,
                res,
            ),
        },
{
    match msg {
        HandleMsg::ReflectMsg { msg } => try_reflect(deps, params, msg),
        HandleMsg::ChangeOwner { owner } => try_change_owner(deps, params, owner),
    }
}

/// Hands `msg` back for the host to send on, provided that the owner signed
/// the call. Nothing is written.
pub fn try_reflect<M>(deps: &mut Extern, params: Params, msg: M) -> (res: Result<
    Response<M>,
    ContractError,
>)
    ensures
        reflected(*old(deps), *final(deps), params.message.signer@, msg, res),
{
    let state = deps.storage.load()?;
    if params.message.signer != state.owner {
        return Err(ContractError::Unauthorized);
    }
    let res = Response { messages: vec![msg], log: None, data: None };
    assert(res.messages@ =~= seq![msg]);
    Ok(res)
}

/// Makes `owner` the owner, provided that the present owner signed the call
/// and the host can convert `owner` to canonical form. The signer is held
/// against the record in the same update that writes the new owner.
pub fn try_change_owner<M>(deps: &mut Extern, params: Params, owner: HumanAddr) -> (res: Result<
    Response<M>,
    ContractError,
>)
    ensures
        owner_changed(*old(deps), *final(deps), params.message.signer@, owner@, res),
{
    let api = &deps.api;
    let signer = &params.message.signer;
    let ghost book = deps.api@;
    let transform = |state: State| -> (out: Result<State, ContractError>)
        ensures
            owner_view(out) == transfer(Stored::Record(state.owner@), book, signer@, owner@),
        {
            if *signer != state.owner {
                return Err(ContractError::Unauthorized);
            }
            let canonical = api.canonical_address(&owner)?;
            Ok(State { owner: canonical })
        };
    let updated = deps.storage.update(transform);
    match updated {
        Ok(_) => Ok(Response::default()),
        Err(e) => Err(e),
    }
}

/// What a query for the owner owes: the owner on record in the form that the
/// host converts it to, or the reason why there is none to report.
pub open spec fn owner_reported(deps: Extern, res: Result<OwnerResponse, ContractError>) -> bool {
    match owner_of(deps.storage@, deps.api@) {
        Ok(human) => res matches Ok(response) && response.owner@ == human,
        Err(e) => res == Err::<OwnerResponse, ContractError>(e),
    }
}

/// Answers a request that only reads.
pub fn query(deps: &Extern, msg: QueryMsg) -> (res: Result<OwnerResponse, ContractError>)
    ensures
        match msg {
            QueryMsg::GetOwner {} => owner_reported(*deps, res),
        },
{
    match msg {
        QueryMsg::GetOwner {} => query_owner(deps),
    }
}

/// Reports the owner on record in human-readable form.
fn query_owner(deps: &Extern) -> (res: Result<OwnerResponse, ContractError>)
    ensures
        owner_reported(*deps, res),
{
    let state = deps.storage.load()?;
    let resp = OwnerResponse { owner: deps.api.human_address(&state.owner)? };
    Ok(resp)
}

} // verus!
