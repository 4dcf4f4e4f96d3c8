//! Caller identities.

use vstd::bytes::{
    lemma_auto_spec_u128_to_from_le_bytes,
    spec_u128_from_le_bytes,
    spec_u128_to_le_bytes,
    u128_from_le_bytes,
    u128_to_le_bytes,
};
use vstd::prelude::*;
use vstd::slice::slice_subrange;

verus! {

/// The number of bytes of a public key.
pub const KEY_LENGTH: usize = 32;

/// An authenticated principal: a 256-bit public key, held as two 128-bit
/// words. The engine never inspects it beyond comparing two of them.
#[derive(Clone, Copy, Debug, PartialEq, Eq, Structural)]
pub struct Identity {
    /// The last sixteen bytes of the key, read as a little-endian number.
    pub hi: u128,
    /// The first sixteen bytes of the key, read as a little-endian number.
    pub lo: u128,
}

/// The identity that a key of 32 bytes stands for.
pub open spec fn identity_of_bytes(key: Seq<u8>) -> Identity {
    Identity {
        hi: spec_u128_from_le_bytes(key.subrange(16, 32)),
        lo: spec_u128_from_le_bytes(key.subrange(0, 16)),
    }
}

/// The key of an identity, as 32 bytes.
pub open spec fn bytes_of_identity(identity: Identity) -> Seq<u8> {
    spec_u128_to_le_bytes(identity.lo) + spec_u128_to_le_bytes(identity.hi)
}

impl Identity {
    /// The identity made of the two given words.
    pub fn new(hi: u128, lo: u128) -> (id: Identity)
        ensures
            id == (Identity { hi, lo }),
    {
        Identity { hi, lo }
    }

    /// Reads an identity from a key, which must be 32 bytes long.
    pub fn from_bytes(key: &[u8]) -> (id: Option<Identity>)
        ensures
            key@.len() != KEY_LENGTH ==> id is None,
            key@.len() == KEY_LENGTH ==> id == Some(identity_of_bytes(key@)),
    {
        if key.len() != KEY_LENGTH {
            return None;
        }
        let lo: u128 = u128_from_le_bytes(slice_subrange(key, 0, 16));
        let hi: u128 = u128_from_le_bytes(slice_subrange(key, 16, 32));
        Some(Identity { hi, lo })
    }

    /// Writes the identity out as a key of 32 bytes.
    pub fn to_bytes(&self) -> (key: Vec<u8>)
        ensures
            key@ == bytes_of_identity(*self),
            key@.len() == KEY_LENGTH,
    {
        let mut key: Vec<u8> = u128_to_le_bytes(self.lo);
        let mut rest: Vec<u8> = u128_to_le_bytes(self.hi);
        key.append(&mut rest);
        key
    }
}

/// Keys and identities stand for each other one to one: writing an identity
/// out and reading it back gives the identity, and reading a key of 32 bytes
/// and writing it out gives the key.
pub proof fn lemma_identity_bytes_round_trip(identity: Identity, key: Seq<u8>)
    ensures
        bytes_of_identity(identity).len() == KEY_LENGTH,
        identity_of_bytes(bytes_of_identity(identity)) == identity,
        key.len() == KEY_LENGTH ==> bytes_of_identity(identity_of_bytes(key)) == key,
{
    lemma_auto_spec_u128_to_from_le_bytes();
    let lo = spec_u128_to_le_bytes(identity.lo);
    let hi = spec_u128_to_le_bytes(identity.hi);
    assert((lo + hi).subrange(0, 16) =~= lo);
    assert((lo + hi).subrange(16, 32) =~= hi);
    if key.len() == KEY_LENGTH {
        assert(key.subrange(0, 16) + key.subrange(16, 32) =~= key);
    }
}

} // verus!
