//! Account addresses.

use vstd::prelude::*;
use crate::bytes::{le_at, push_le_u64, read_le};

verus! {

/// A 32-byte account address, held as four 64-bit words read little-endian
/// from consecutive 8-byte chunks of the address.
#[derive(Clone, Copy, Debug, PartialEq, Eq, Structural)]
pub struct Key {
    pub w0: u64,
    pub w1: u64,
    pub w2: u64,
    pub w3: u64,
}

impl Key {
    /// The all-zero address, which the presale treats as "unset".
    pub open spec fn spec_default() -> Key {
        Key { w0: 0, w1: 0, w2: 0, w3: 0 }
    }

    pub open spec fn is_default(self) -> bool {
        self == Key::spec_default()
    }

    /// The address made of the 32 bytes `b`.
    pub open spec fn spec_from_bytes(b: Seq<u8>) -> Key {
        Key {
            w0: le_at(b, 0, 8) as u64,
            w1: le_at(b, 8, 8) as u64,
            w2: le_at(b, 16, 8) as u64,
            w3: le_at(b, 24, 8) as u64,
        }
    }

    pub fn default_key() -> (k: Key)
        ensures
            k == Key::spec_default(),
    {
        Key { w0: 0, w1: 0, w2: 0, w3: 0 }
    }

    pub fn from_bytes(b: &[u8]) -> (k: Key)
        requires
            b@.len() == 32,
        ensures
            k == Key::spec_from_bytes(b@),
    {
        Key {
            w0: read_le(b, 0, 8),
            w1: read_le(b, 8, 8),
            w2: read_le(b, 16, 8),
            w3: read_le(b, 24, 8),
        }
    }

    /// The 32 bytes of the address.
    pub fn to_bytes(&self) -> (b: Vec<u8>)
        ensures
            b@.len() == 32,
            Key::spec_from_bytes(b@) == *self,
    {
        let mut b: Vec<u8> = Vec::new();
        push_le_u64(&mut b, self.w0);
        let ghost b0 = b@;
        push_le_u64(&mut b, self.w1);
        let ghost b1 = b@;
        push_le_u64(&mut b, self.w2);
        let ghost b2 = b@;
        push_le_u64(&mut b, self.w3);
        proof {
            assert(b@.subrange(0, 8) =~= b0.subrange(0, 8));
            assert(b@.subrange(8, 16) =~= b1.subrange(8, 16));
            assert(b@.subrange(16, 24) =~= b2.subrange(16, 24));
        }
        b
    }
}

} // verus!
