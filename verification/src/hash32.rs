//! Fixed-size 32-byte hashes (block hashes, deploy hashes, state root digests).

use vstd::prelude::*;

verus! {

/// A 32-byte hash value.
#[derive(Clone, Copy, Debug, PartialEq, Eq, Hash)]
pub struct Hash32 {
    pub bytes: [u8; 32],
}

/// The hash identifying a block.
pub type BlockHash = Hash32;

/// A digest, such as a global state root hash.
pub type Digest = Hash32;

impl Hash32 {
    /// A hash with the given bytes.
    pub fn new(bytes: [u8; 32]) -> (r: Self)
        ensures
            r.bytes == bytes,
    {
        Hash32 { bytes }
    }

    /// Whether two hashes are equal, byte by byte.
    pub fn same_as(&self, other: &Hash32) -> (r: bool)
        ensures
            r == (*self == *other),
    {
        broadcast use vstd::array::group_array_axioms;
        let mut i: usize = 0;
        while i < 32
            invariant
                0 <= i <= 32,
                forall|j: int| 0 <= j < i ==> self.bytes@[j] == other.bytes@[j],
            decreases 32 - i,
        {
            if self.bytes[i] != other.bytes[i] {
                return false;
            }
            i += 1;
        }
        assert(self.bytes@ =~= other.bytes@);
        assert(self.bytes == other.bytes);
        true
    }
}

impl Default for Hash32 {
    fn default() -> (r: Self)
        ensures
            forall|i: int| 0 <= i < 32 ==> r.bytes@[i] == 0,
    {
        Hash32 { bytes: [0u8; 32] }
    }
}

} // verus!
