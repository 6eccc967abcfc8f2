//! Account addresses, identified by their textual (strkey) form.
use vstd::prelude::*;

verus! {

/// An account or contract address. Two addresses are the same account
/// exactly when their textual forms are equal.
#[derive(Debug)]
pub struct Address {
    strkey: String,
}

impl View for Address {
    type V = Seq<char>;

    closed spec fn view(&self) -> Seq<char> {
        self.strkey@
    }
}

impl Address {
    /// Wraps the textual form of an address.
    pub fn new(strkey: String) -> (r: Address)
        ensures
            r@ == strkey@,
    {
        Address { strkey }
    }

    /// The textual form of this address.
    pub fn as_str(&self) -> (r: &str)
        ensures
            r@ == self@,
    {
        self.strkey.as_str()
    }

}

impl PartialEq for Address {
    fn eq(&self, other: &Self) -> (r: bool) {
        self.strkey == other.strkey
    }
}

impl Eq for Address {
}

impl vstd::std_specs::cmp::PartialEqSpecImpl for Address {
    open spec fn obeys_eq_spec() -> bool {
        true
    }

    open spec fn eq_spec(&self, other: &Self) -> bool {
        self@ == other@
    }
}

impl Clone for Address {
    fn clone(&self) -> (r: Self)
        ensures
            r == *self,
    {
        Address { strkey: self.strkey.clone() }
    }
}

} // verus!
