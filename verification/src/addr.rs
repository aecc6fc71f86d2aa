//! Account addresses: 32-byte identities of accounts, programs and mints.

use vstd::prelude::*;
use vstd::bytes::{
    lemma_auto_spec_u64_to_from_le_bytes, spec_u64_from_le_bytes, spec_u64_to_le_bytes,
    u64_from_le_bytes, u64_to_le_bytes,
};
use vstd::slice::slice_subrange;

verus! {

/// A 32-byte address, stored as four 64-bit limbs.  Limb `limb0` covers the
/// first eight bytes of the address in little-endian order, `limb3` the last.
#[derive(Clone, Copy, PartialEq, Eq, Structural, Debug, Hash)]
pub struct Address {
    pub limb0: u64,
    pub limb1: u64,
    pub limb2: u64,
    pub limb3: u64,
}

/// The 32-byte encoding of an address.
pub open spec fn spec_address_bytes(a: Address) -> Seq<u8> {
    spec_u64_to_le_bytes(a.limb0) + spec_u64_to_le_bytes(a.limb1)
        + spec_u64_to_le_bytes(a.limb2) + spec_u64_to_le_bytes(a.limb3)
}

/// The address encoded by a 32-byte sequence.
pub open spec fn spec_address_from_bytes(s: Seq<u8>) -> Address
    recommends
        s.len() == 32,
{
    Address {
        limb0: spec_u64_from_le_bytes(s.subrange(0, 8)),
        limb1: spec_u64_from_le_bytes(s.subrange(8, 16)),
        limb2: spec_u64_from_le_bytes(s.subrange(16, 24)),
        limb3: spec_u64_from_le_bytes(s.subrange(24, 32)),
    }
}

/// Encoding an address and decoding the bytes yields the address back.
pub proof fn lemma_address_round_trip(a: Address)
    ensures
        spec_address_bytes(a).len() == 32,
        spec_address_from_bytes(spec_address_bytes(a)) == a,
{
    lemma_auto_spec_u64_to_from_le_bytes();
    let s = spec_address_bytes(a);
    assert(s.subrange(0, 8) =~= spec_u64_to_le_bytes(a.limb0));
    assert(s.subrange(8, 16) =~= spec_u64_to_le_bytes(a.limb1));
    assert(s.subrange(16, 24) =~= spec_u64_to_le_bytes(a.limb2));
    assert(s.subrange(24, 32) =~= spec_u64_to_le_bytes(a.limb3));
}

impl Address {
    /// Appends the 32-byte encoding of the address to `out`.
    pub fn write_bytes(&self, out: &mut Vec<u8>)
        ensures
            final(out)@ == old(out)@ + spec_address_bytes(*self),
    {
        proof {
            lemma_auto_spec_u64_to_from_le_bytes();
        }
        let mut b0 = u64_to_le_bytes(self.limb0);
        let mut b1 = u64_to_le_bytes(self.limb1);
        let mut b2 = u64_to_le_bytes(self.limb2);
        let mut b3 = u64_to_le_bytes(self.limb3);
        out.append(&mut b0);
        out.append(&mut b1);
        out.append(&mut b2);
        out.append(&mut b3);
        proof {
            assert(out@ =~= old(out)@ + spec_address_bytes(*self));
        }
    }

    /// Reads the address encoded at `bytes[start..start + 32]`.
    pub fn read_bytes(bytes: &[u8], start: usize) -> (r: Address)
        requires
            start + 32 <= bytes@.len(),
        ensures
            r == spec_address_from_bytes(bytes@.subrange(start as int, start + 32)),
    {
        let n = bytes.len();
        let l0 = u64_from_le_bytes(slice_subrange(bytes, start, start + 8));
        let l1 = u64_from_le_bytes(slice_subrange(bytes, start + 8, start + 16));
        let l2 = u64_from_le_bytes(slice_subrange(bytes, start + 16, start + 24));
        let l3 = u64_from_le_bytes(slice_subrange(bytes, start + 24, start + 32));
        proof {
            let s = bytes@.subrange(start as int, start + 32);
            assert(bytes@.subrange(start as int, start + 8) =~= s.subrange(0, 8));
            assert(bytes@.subrange(start + 8, start + 16) =~= s.subrange(8, 16));
            assert(bytes@.subrange(start + 16, start + 24) =~= s.subrange(16, 24));
            assert(bytes@.subrange(start + 24, start + 32) =~= s.subrange(24, 32));
        }
        Address { limb0: l0, limb1: l1, limb2: l2, limb3: l3 }
    }
}

} // verus!
