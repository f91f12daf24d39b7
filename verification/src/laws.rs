//! What holds of the contract over more than one call.

use vstd::prelude::*;
use crate::api::{canonical_of, human_of, lemma_converts_back, one_to_one, Book};
use crate::contract::{after_transfer, authorize, owner_of, transfer};
use crate::errors::ContractError;
use crate::state::Stored;

verus! {

/// Before the contract is initialized nothing but initialization works: a
/// query, a forward and a transfer all fail because there is no record, and
/// the failed transfer writes none.
pub proof fn law_nothing_before_init(book: Book, signer: Seq<u8>, target: Seq<char>)
    ensures
        owner_of(Stored::Absent, book) == Err::<Seq<char>, ContractError>(ContractError::NotFound),
        authorize(Stored::Absent, signer) == Err::<(), ContractError>(ContractError::NotFound),
        transfer(Stored::Absent, book, signer, target) == Err::<Seq<u8>, ContractError>(
            ContractError::NotFound,
        ),
        after_transfer(Stored::Absent, book, signer, target) == Stored::Absent,
{
}

/// Once there is an owner record, no transfer takes it away again, whoever
/// signs it and whether it succeeds or fails.
pub proof fn law_record_stays(owner: Seq<u8>, book: Book, signer: Seq<u8>, target: Seq<char>)
    ensures
        after_transfer(Stored::Record(owner), book, signer, target) is Record,
{
}

/// A transfer signed by the owner on record, to an address that the host can
/// convert, succeeds, and a query that follows reports the new owner: in the
/// form that the host converts the new canonical form back to, which is the
/// requested address itself where the host's pairs are one-to-one.
pub proof fn law_transfer_by_owner_shows_in_query(owner: Seq<u8>, book: Book, target: Seq<char>)
    requires
        canonical_of(book, target) is Some,
    ensures
        ({
            let canonical = canonical_of(book, target)->0;
            let after = after_transfer(Stored::Record(owner), book, owner, target);
            &&& transfer(Stored::Record(owner), book, owner, target) == Ok::<
                Seq<u8>,
                ContractError,
            >(canonical)
            &&& after == Stored::Record(canonical)
            &&& human_of(book, canonical) is Some
            &&& owner_of(after, book) == Ok::<Seq<char>, ContractError>(
                human_of(book, canonical)->0,
            )
            &&& one_to_one(book) ==> owner_of(after, book) == Ok::<Seq<char>, ContractError>(target)
        }),
{
    lemma_converts_back(book, target);
}

/// A transfer signed by anyone but the owner on record fails as unauthorized,
/// whatever its target, and a query that follows answers as one before it
/// would have.
pub proof fn law_transfer_by_other_changes_nothing(
    owner: Seq<u8>,
    book: Book,
    signer: Seq<u8>,
    target: Seq<char>,
)
    requires
        signer != owner,
    ensures
        transfer(Stored::Record(owner), book, signer, target) == Err::<Seq<u8>, ContractError>(
            ContractError::Unauthorized,
        ),
        after_transfer(Stored::Record(owner), book, signer, target) == Stored::Record(owner),
        owner_of(after_transfer(Stored::Record(owner), book, signer, target), book) == owner_of(
            Stored::Record(owner),
            book,
        ),
{
}

/// Transferring to the same address twice, first signed by the owner and then
/// by the new owner, succeeds both times and ends with the new owner on
/// record. The old owner, where it is another identity than the new one, is
/// from then on refused every gated operation.
pub proof fn law_transfer_twice(owner: Seq<u8>, book: Book, target: Seq<char>, later: Seq<char>)
    requires
        canonical_of(book, target) is Some,
    ensures
        ({
            let canonical = canonical_of(book, target)->0;
            let once = after_transfer(Stored::Record(owner), book, owner, target);
            let twice = after_transfer(once, book, canonical, target);
            &&& transfer(Stored::Record(owner), book, owner, target) is Ok
            &&& transfer(once, book, canonical, target) is Ok
            &&& twice == Stored::Record(canonical)
            &&& canonical != owner ==> {
                &&& authorize(twice, owner) == Err::<(), ContractError>(ContractError::Unauthorized)
                &&& transfer(twice, book, owner, later) == Err::<Seq<u8>, ContractError>(
                    ContractError::Unauthorized,
                )
                &&& after_transfer(twice, book, owner, later) == twice
            }
        }),
{
}

} // verus!
