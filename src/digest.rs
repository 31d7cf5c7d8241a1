use vstd::prelude::*;

verus! {

/// Number of bytes in a content-addressed identifier.
pub const DIGEST_LEN: usize = 32;

/// A fixed-width content-addressed identifier (a transaction, effects,
/// events or contents digest). Two digests are the same exactly when all
/// of their bytes are.
#[derive(Clone, Copy, Debug, PartialEq, Eq, Hash)]
pub struct Digest {
    pub bytes: [u8; 32],
}

impl Digest {
    pub fn new(bytes: [u8; 32]) -> (r: Digest)
        ensures
            r.bytes == bytes,
    {
        Digest { bytes }
    }

    /// Bit-exact comparison of two digests.
    pub fn equals(&self, other: &Digest) -> (r: bool)
        ensures
            r == (*self == *other),
    {
        let mut i: usize = 0;
        while i < DIGEST_LEN
            invariant
                0 <= i <= DIGEST_LEN,
                forall|j: int| 0 <= j < i ==> self.bytes@[j] == other.bytes@[j],
            decreases DIGEST_LEN - i,
        {
            if self.bytes[i] != other.bytes[i] {
                assert(self.bytes@[i as int] != other.bytes@[i as int]);
                return false;
            }
            i = i + 1;
        }
        assert(self.bytes =~= other.bytes);
        true
    }
}

} // verus!
