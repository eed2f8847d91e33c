//! Account addresses.

use vstd::prelude::*;

verus! {

/// A 32-byte account address.
#[derive(Debug, Clone, Copy, PartialEq, Eq)]
pub struct AccountKey {
    pub bytes: [u8; 32],
}

impl AccountKey {
    /// Every byte of the address is zero: the address that stands for "none".
    pub open spec fn is_zero(self) -> bool {
        forall|i: int| 0 <= i < 32 ==> #[trigger] self.bytes[i] == 0
    }

    /// The all-zero address.
    pub open spec fn zero() -> AccountKey {
        AccountKey { bytes: vstd::array::spec_array_fill_for_copy_type::<u8, 32>(0u8) }
    }

    /// The address with the given bytes.
    pub fn new(bytes: [u8; 32]) -> (key: Self)
        ensures
            key.bytes == bytes,
    {
        AccountKey { bytes }
    }

    /// The all-zero address (the default address).
    pub fn default_key() -> (key: Self)
        ensures
            key == AccountKey::zero(),
            key.is_zero(),
    {
        let key = AccountKey { bytes: [0u8; 32] };
        assert(key.is_zero());
        proof {
            lemma_zero_is_unique(key);
        }
        key
    }

    /// Whether two addresses are the same.
    pub fn same(&self, other: &Self) -> (same: bool)
        ensures
            same == (*self == *other),
    {
        let mut i: usize = 0;
        while i < 32
            invariant
                0 <= i <= 32,
                forall|j: int| 0 <= j < i ==> self.bytes[j] == other.bytes[j],
            decreases 32 - i,
        {
            if self.bytes[i] != other.bytes[i] {
                return false;
            }
            i = i + 1;
        }
        assert(self.bytes =~= other.bytes);
        true
    }

    /// Whether this is the all-zero (default) address.
    pub fn is_default(&self) -> (is_default: bool)
        ensures
            is_default == self.is_zero(),
            is_default == (*self == AccountKey::zero()),
    {
        let mut i: usize = 0;
        while i < 32
            invariant
                0 <= i <= 32,
                forall|j: int| 0 <= j < i ==> self.bytes[j] == 0,
            decreases 32 - i,
        {
            if self.bytes[i] != 0 {
                proof {
                    lemma_zero_is_unique(*self);
                }
                return false;
            }
            i = i + 1;
        }
        proof {
            lemma_zero_is_unique(*self);
        }
        true
    }
}

/// There is exactly one all-zero address.
pub proof fn lemma_zero_is_unique(key: AccountKey)
    ensures
        AccountKey::zero().is_zero(),
        key.is_zero() <==> key == AccountKey::zero(),
{
    assert(AccountKey::zero().is_zero());
    if key.is_zero() {
        assert(key.bytes =~= AccountKey::zero().bytes);
    }
}

} // verus!
