//! Block heights and block hashes.

use vstd::prelude::*;

verus! {

/// The height of a block: the number of blocks between it and the genesis block.
#[derive(Clone, Copy, Debug, PartialEq, Eq, Hash, PartialOrd, Ord, Structural)]
pub struct Height(pub u32);

/// The hash of a block header, which names the block.
///
/// The 256 bits are held as two 128-bit words, the most significant first.
#[derive(Clone, Copy, Debug, PartialEq, Eq, Hash, PartialOrd, Ord, Structural)]
pub struct Hash(pub u128, pub u128);

impl Hash {
    /// The two words of the hash as a pair.
    pub open spec fn words(self) -> (u128, u128) {
        (self.0, self.1)
    }

    /// The hash that has the given pair of words.
    pub open spec fn of_words(words: (u128, u128)) -> Hash {
        Hash(words.0, words.1)
    }
}

} // verus!
