//! Ledger addresses.

use vstd::prelude::*;

verus! {

/// A ledger address, account or contract, by its strkey: the 56 characters of its text form.
#[derive(Clone, Copy, Debug)]
pub struct Address {
    pub strkey: [u8; 56],
}

impl PartialEq for Address {
    /// Two addresses are equal when their strkeys agree in every character.
    fn eq(&self, other: &Self) -> (same: bool) {
        let mut i: usize = 0;
        while i < 56
            invariant
                i <= 56,
                forall|j: int| 0 <= j < i ==> self.strkey@[j] == other.strkey@[j],
            decreases 56 - i,
        {
            if self.strkey[i] != other.strkey[i] {
                return false;
            }
            i = i + 1;
        }
        assert(self.strkey =~= other.strkey);
        true
    }
}

impl Eq for Address {

}

impl vstd::std_specs::cmp::PartialEqSpecImpl for Address {
    open spec fn obeys_eq_spec() -> bool {
        true
    }

    open spec fn eq_spec(&self, other: &Self) -> bool {
        *self == *other
    }
}

} // verus!
