//! Addresses handed over by the component.

use vstd::prelude::*;

verus! {

/// The address of an object that lives on the component's side of the
/// boundary, such as an instance or one of its function tables.
///
/// An `Address` is never null: a null answer from the component means
/// absence and is turned into `None` by [`Address::new`].
#[derive(Debug, Clone, Copy, PartialEq, Eq, Structural, Hash)]
pub struct Address {
    value: usize,
}

impl View for Address {
    type V = usize;

    closed spec fn view(&self) -> usize {
        self.value
    }
}

impl Address {
    #[verifier::type_invariant]
    spec fn is_non_null(self) -> bool {
        self.value != 0
    }

    /// Wraps what the component returned, or gives `None` for a null answer.
    pub fn new(value: usize) -> (address: Option<Address>)
        ensures
            value == 0 <==> address is None,
            address matches Some(a) ==> a@ == value,
    {
        if value == 0 {
            None
        } else {
            Some(Address { value })
        }
    }

    /// The address as a number, which is never zero.
    pub fn get(self) -> (value: usize)
        ensures
            value == self@,
            value != 0,
    {
        proof {
            use_type_invariant(&self);
        }
        self.value
    }
}

} // verus!
