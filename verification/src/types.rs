//! Account identities in their two forms.

use vstd::prelude::*;
use vstd::std_specs::cmp::PartialEqSpecImpl;

verus! {

/// An account identity in the host's canonical form: an opaque byte string.
#[derive(Debug)]
pub struct CanonicalAddr(pub Vec<u8>);

impl View for CanonicalAddr {
    type V = Seq<u8>;

    open spec fn view(&self) -> Seq<u8> {
        self.0@
    }
}

impl Clone for CanonicalAddr {
    fn clone(&self) -> (copy: Self)
        ensures
            copy@ == self@,
    {
        let bytes = self.0.clone();
        assert(bytes@ =~= self.0@);
        CanonicalAddr(bytes)
    }
}

impl PartialEq for CanonicalAddr {
    fn eq(&self, other: &Self) -> (equal: bool) {
        let equal = self.0 == other.0;
        proof {
            if equal {
                assert(self.0@ =~= other.0@);
            }
        }
        equal
    }
}

impl PartialEqSpecImpl for CanonicalAddr {
    open spec fn obeys_eq_spec() -> bool {
        true
    }

    open spec fn eq_spec(&self, other: &Self) -> bool {
        self@ == other@
    }
}

impl Eq for CanonicalAddr {}

/// An account identity in the form that people read and requests carry.
#[derive(Debug)]
pub struct HumanAddr(pub String);

impl View for HumanAddr {
    type V = Seq<char>;

    open spec fn view(&self) -> Seq<char> {
        self.0@
    }
}

impl Clone for HumanAddr {
    fn clone(&self) -> (copy: Self)
        ensures
            copy@ == self@,
    {
        HumanAddr(self.0.clone())
    }
}

impl PartialEq for HumanAddr {
    fn eq(&self, other: &Self) -> (equal: bool) {
        self.0 == other.0
    }
}

impl PartialEqSpecImpl for HumanAddr {
    open spec fn obeys_eq_spec() -> bool {
        true
    }

    open spec fn eq_spec(&self, other: &Self) -> bool {
        self@ == other@
    }
}

impl Eq for HumanAddr {}

} // verus!
