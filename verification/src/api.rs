//! The host's address capability, as far as one call on the contract reads it.

use vstd::prelude::*;
use crate::errors::ContractError;
use crate::types::{CanonicalAddr, HumanAddr};

verus! {

/// The pairs of forms that the host relates, human-readable form first, in the
/// order in which they were registered.
pub type Book = Seq<(Seq<char>, Seq<u8>)>;

/// The canonical form that `book` gives for `human`: that of the first pair
/// with this human-readable form, if there is one.
pub open spec fn canonical_of(book: Book, human: Seq<char>) -> Option<Seq<u8>>
    decreases book.len(),
{
    if book.len() == 0 {
        None
    } else if book[0].0 == human {
        Some(book[0].1)
    } else {
        canonical_of(book.drop_first(), human)
    }
}

/// The human-readable form that `book` gives for `canonical`: that of the
/// first pair with this canonical form, if there is one.
pub open spec fn human_of(book: Book, canonical: Seq<u8>) -> Option<Seq<char>>
    decreases book.len(),
{
    if book.len() == 0 {
        None
    } else if book[0].1 == canonical {
        Some(book[0].0)
    } else {
        human_of(book.drop_first(), canonical)
    }
}

/// No canonical form stands for two human-readable forms.
pub open spec fn one_to_one(book: Book) -> bool {
    forall|i: int, j: int|
        0 <= i < book.len() && 0 <= j < book.len() && book[i].1 == book[j].1
            ==> book[i].0 == book[j].0
}

/// The address conversions that the host offers to a call, held as the pairs
/// that it relates. A form that stands in no pair is one that the host cannot
/// convert.
#[derive(Debug)]
pub struct Api {
    pairs: Vec<(HumanAddr, CanonicalAddr)>,
}

impl View for Api {
    type V = Book;

    closed spec fn view(&self) -> Book {
        Seq::new(self.pairs@.len(), |i: int| (self.pairs@[i].0@, self.pairs@[i].1@))
    }
}

impl Api {
    /// A host that converts nothing.
    pub fn new() -> (api: Self)
        ensures
            api@ == Book::empty(),
    {
        let api = Api { pairs: Vec::new() };
        assert(api@ =~= Book::empty());
        api
    }

    /// Adds the pair of `human` and `canonical` behind those already there.
    pub fn register(&mut self, human: HumanAddr, canonical: CanonicalAddr)
        ensures
            final(self)@ == old(self)@.push((human@, canonical@)),
    {
        self.pairs.push((human, canonical));
        assert(self@ =~= old(self)@.push((human@, canonical@)));
    }

    /// Converts `human` to its canonical form.
    pub fn canonical_address(&self, human: &HumanAddr) -> (converted: Result<
        CanonicalAddr,
        ContractError,
    >)
        ensures
            match canonical_of(self@, human@) {
                Some(canonical) => converted matches Ok(found) && found@ == canonical,
                None => converted == Err::<CanonicalAddr, ContractError>(
                    ContractError::AddressConversion,
                ),
            },
    {
        let mut i: usize = 0;
        assert(self@.skip(0) =~= self@);
        while i < self.pairs.len()
            invariant
                i <= self.pairs.len(),
                canonical_of(self@, human@) == canonical_of(self@.skip(i as int), human@),
            decreases self.pairs.len() - i,
        {
            assert(self@.skip(i as int).drop_first() =~= self@.skip(i as int + 1));
            if self.pairs[i].0 == *human {
                return Ok(self.pairs[i].1.clone());
            }
            i += 1;
        }
        Err(ContractError::AddressConversion)
    }

    /// Converts `canonical` to its human-readable form.
    pub fn human_address(&self, canonical: &CanonicalAddr) -> (converted: Result<
        HumanAddr,
        ContractError,
    >)
        ensures
            match human_of(self@, canonical@) {
                Some(human) => converted matches Ok(found) && found@ == human,
                None => converted == Err::<HumanAddr, ContractError>(
                    ContractError::AddressConversion,
                ),
            },
    {
        let mut i: usize = 0;
        assert(self@.skip(0) =~= self@);
        while i < self.pairs.len()
            invariant
                i <= self.pairs.len(),
                human_of(self@, canonical@) == human_of(self@.skip(i as int), canonical@),
            decreases self.pairs.len() - i,
        {
            assert(self@.skip(i as int).drop_first() =~= self@.skip(i as int + 1));
            if self.pairs[i].1 == *canonical {
                return Ok(self.pairs[i].0.clone());
            }
            i += 1;
        }
        Err(ContractError::AddressConversion)
    }
}

/// A canonical form that the book gives for some human-readable form can be
/// converted back, and in a one-to-one book the way back ends where it began.
pub proof fn lemma_converts_back(book: Book, human: Seq<char>)
    requires
        canonical_of(book, human) is Some,
    ensures
        human_of(book, canonical_of(book, human)->0) is Some,
        one_to_one(book) ==> human_of(book, canonical_of(book, human)->0) == Some(human),
    decreases book.len(),
{
    let canonical = canonical_of(book, human)->0;
    if book[0].0 == human {
    } else {
        let rest = book.drop_first();
        lemma_converts_back(rest, human);
        if one_to_one(book) {
            assert forall|i: int, j: int|
                0 <= i < rest.len() && 0 <= j < rest.len() && rest[i].1 == rest[j].1 implies rest[i].0
                == rest[j].0 by {
                assert(rest[i] == book[i + 1] && rest[j] == book[j + 1]);
            }
            if book[0].1 == canonical {
                lemma_found_pair(rest, human);
                let k = choose|k: int| 0 <= k < rest.len() && rest[k] == (human, canonical);
                assert(book[k + 1] == rest[k]);
                assert(book[0].0 == book[k + 1].0);
            }
        }
    }
}

/// What the book gives for a human-readable form stands in it as a pair.
pub proof fn lemma_found_pair(book: Book, human: Seq<char>)
    requires
        canonical_of(book, human) is Some,
    ensures
        exists|k: int| 0 <= k < book.len() && book[k] == (human, canonical_of(book, human)->0),
    decreases book.len(),
{
    if book[0].0 == human {
        assert(book[0] == (human, canonical_of(book, human)->0));
    } else {
        let rest = book.drop_first();
        lemma_found_pair(rest, human);
        let k = choose|k: int| 0 <= k < rest.len() && rest[k] == (human, canonical_of(rest, human)->0);
        assert(book[k + 1] == rest[k]);
    }
}

} // verus!
