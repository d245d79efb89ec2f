use vstd::prelude::*;

verus! {

/// Opaque identity of an account, as the host hands it over: 32 raw bytes.
/// The ledger only compares identities and never looks inside them.
#[derive(Clone, Copy, Debug, Eq, Hash)]
pub struct AccountId(pub [u8; 32]);

/// Amount of money, in the host's smallest unit.
pub type Balance = u128;

impl PartialEq for AccountId {
    fn eq(&self, otra: &AccountId) -> (r: bool)
        ensures
            r == (*self == *otra),
    {
        let mut i: usize = 0;
        while i < 32
            invariant
                0 <= i <= 32,
                forall|j: int| 0 <= j < i ==> self.0@[j] == otra.0@[j],
            decreases 32 - i,
        {
            if self.0[i] != otra.0[i] {
                return false;
            }
            i = i + 1;
        }
        proof {
            broadcast use vstd::array::group_array_axioms;
            broadcast use vstd::array::lemma_array_index;
            assert(self.0 =~= otra.0);
        }
        true
    }
}

impl vstd::std_specs::cmp::PartialEqSpecImpl for AccountId {
    open spec fn obeys_eq_spec() -> bool {
        true
    }

    open spec fn eq_spec(&self, otra: &AccountId) -> bool {
        *self == *otra
    }
}

} // verus!
