//! Addresses of accounts.

use vstd::prelude::*;
use vstd::std_specs::cmp::PartialEqSpecImpl;

verus! {

/// The 32-byte address of an account: of a signer, of a record, of a token.
#[derive(Clone, Copy, Debug, Eq, Hash)]
pub struct Pubkey {
    pub bytes: [u8; 32],
}

impl PartialEq for Pubkey {
    fn eq(&self, other: &Pubkey) -> (r: bool) {
        let mut i: usize = 0;
        while i < 32
            invariant
                i <= 32,
                forall|j: int| 0 <= j < i ==> self.bytes[j] == other.bytes[j],
            decreases 32 - i,
        {
            if self.bytes[i] != other.bytes[i] {
                return false;
            }
            i += 1;
        }
        assert(self.bytes =~= other.bytes);
        true
    }
}

impl PartialEqSpecImpl for Pubkey {
    open spec fn obeys_eq_spec() -> bool {
        true
    }

    open spec fn eq_spec(&self, other: &Pubkey) -> bool {
        *self == *other
    }
}

impl Pubkey {
    /// The address whose bytes are all zero; it stands for "no address".
    pub open spec fn zero() -> Pubkey {
        Pubkey { bytes: vstd::array::spec_array_fill_for_copy_type::<u8, 32>(0u8) }
    }

    /// What `key` holds, or the zero address where it holds nothing.
    pub open spec fn or_zero(key: Option<Pubkey>) -> Pubkey {
        match key {
            Some(k) => k,
            None => Pubkey::zero(),
        }
    }

    pub fn unwrap_or_default(key: Option<Pubkey>) -> (r: Pubkey)
        ensures
            r == Pubkey::or_zero(key),
    {
        match key {
            Some(k) => k,
            None => Pubkey::default(),
        }
    }

    /// Whether `key` occurs in `list`.
    pub fn is_in(&self, list: &Vec<Pubkey>) -> (r: bool)
        ensures
            r == list@.contains(*self),
    {
        let mut i: usize = 0;
        while i < list.len()
            invariant
                i <= list.len(),
                forall|j: int| 0 <= j < i ==> list@[j] != *self,
            decreases list.len() - i,
        {
            if list[i] == *self {
                return true;
            }
            i += 1;
        }
        false
    }
}

impl Default for Pubkey {
    fn default() -> (r: Pubkey)
        ensures
            r == Pubkey::zero(),
    {
        Pubkey { bytes: [0u8; 32] }
    }
}

} // verus!
