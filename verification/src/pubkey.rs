//! The 32-byte identifier used for agents and target programs.

use crate::bytes::bytes_equal;
use vstd::prelude::*;

verus! {

/// Number of bytes in a [`Pubkey`].
pub const PUBKEY_BYTES: usize = 32;

/// A public-key-shaped identifier: exactly 32 raw bytes.
///
/// Two identifiers denote the same agent or program exactly when their bytes
/// are equal; the view of an identifier is that byte string.
#[derive(Clone, Copy, Debug, PartialEq, Eq, Hash)]
pub struct Pubkey(pub [u8; 32]);

impl View for Pubkey {
    type V = Seq<u8>;

    open spec fn view(&self) -> Seq<u8> {
        self.0@
    }
}

impl Pubkey {
    /// Wraps 32 raw bytes as an identifier.
    pub fn new_from_array(bytes: [u8; 32]) -> (key: Pubkey)
        ensures
            key@ == bytes@,
            key == Pubkey(bytes),
    {
        Pubkey(bytes)
    }

    /// The identifier's 32 raw bytes.
    pub fn to_bytes(&self) -> (bytes: [u8; 32])
        ensures
            bytes@ == self@,
            bytes == self.0,
    {
        self.0
    }

    /// Byte-for-byte comparison of two identifiers.
    pub fn same_as(&self, other: &Pubkey) -> (same: bool)
        ensures
            same == (self@ == other@),
    {
        bytes_equal(self.0.as_slice(), other.0.as_slice())
    }
}

/// Identifiers with the same bytes are the same value, and every identifier
/// has exactly 32 bytes.
pub proof fn lemma_pubkey_view(a: Pubkey, b: Pubkey)
    ensures
        a@.len() == 32,
        (a@ == b@) == (a == b),
{
    if a@ == b@ {
        assert(a.0@ =~= b.0@);
        assert(a.0 == b.0);
    }
}

} // verus!
