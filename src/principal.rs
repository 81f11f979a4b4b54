use vstd::prelude::*;

verus! {

/// Length of a Stellar strkey: 56 base-32 characters.
pub const KEY_LEN: usize = 56;

/// An account or contract that can hold, send and receive funds, named by
/// its strkey (`G...` for an account, `C...` for a contract).
#[derive(Clone, Copy, Debug)]
pub struct Principal {
    pub key: [u8; 56],
}

impl Principal {
    pub fn new(key: [u8; 56]) -> (r: Principal)
        ensures
            r.key == key,
    {
        Principal { key }
    }

    /// Whether two principals are the same account.
    pub fn same_as(&self, other: &Principal) -> (r: bool)
        ensures
            r == (*self == *other),
    {
        broadcast use vstd::array::group_array_axioms;
        let mut i: usize = 0;
        while i < KEY_LEN
            invariant
                0 <= i <= KEY_LEN,
                forall|j: int| 0 <= j < i ==> self.key[j] == other.key[j],
            decreases KEY_LEN - i,
        {
            if self.key[i] != other.key[i] {
                return false;
            }
            i = i + 1;
        }
        assert(self.key =~= other.key);
        true
    }
}

} // verus!
