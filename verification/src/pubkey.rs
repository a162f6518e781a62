//! Keys: the 32 bytes that name a program, a signer or a storage slot.

use vstd::prelude::*;

verus! {

/// The number of bytes in a key.
pub const PUBKEY_BYTES: usize = 32;

/// The bytes of the key under which the journal program is deployed.
pub const ID: [u8; 32] = [
    255, 192, 161, 103, 134, 55, 25, 71, 148, 137, 32, 39, 53, 55, 143, 178,
    113, 185, 59, 157, 239, 145, 56, 200, 62, 173, 121, 125, 31, 23, 34, 178,
];

/// A key: the identity of a program or of a signer, or the address of a slot.
#[derive(Clone, Copy, Debug, PartialEq, Eq)]
pub struct Pubkey {
    pub bytes: [u8; 32],
}

impl View for Pubkey {
    type V = Seq<u8>;

    open spec fn view(&self) -> Seq<u8> {
        self.bytes@
    }
}

/// The key under which the journal program is deployed.
pub fn id() -> (key: Pubkey)
    ensures
        key.bytes == ID,
{
    Pubkey { bytes: ID }
}

impl Pubkey {
    /// The key made of `bytes`.
    pub fn new_from_array(bytes: [u8; 32]) -> (key: Pubkey)
        ensures
            key.bytes == bytes,
            key@ == bytes@,
    {
        Pubkey { bytes }
    }

    /// The bytes of the key.
    pub fn to_bytes(&self) -> (bytes: [u8; 32])
        ensures
            bytes == self.bytes,
            bytes@ == self@,
    {
        self.bytes
    }

    /// Whether the two keys hold the same bytes.
    pub fn same(&self, other: &Pubkey) -> (equal: bool)
        ensures
            equal == (self@ == other@),
            equal == (*self == *other),
    {
        let mut i: usize = 0;
        while i < 32
            invariant
                i <= 32,
                forall|j: int| 0 <= j < i ==> self.bytes[j] == other.bytes[j],
            decreases 32 - i,
        {
            if self.bytes[i] != other.bytes[i] {
                return false;
            }
            i += 1;
        }
        assert(self.bytes =~= other.bytes);
        true
    }
}

} // verus!
