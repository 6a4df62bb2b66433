//! The pepperoni node: lease and postgres vocabulary, and node naming.
pub mod lease;
pub mod pg;

use crate::salami::NodeId;
use vstd::prelude::*;
use vstd::string::StringSliceAdditionalSpecFns;

verus! {

/// The FNV-1a 64-bit offset basis.
pub const FNV_OFFSET: u64 = 0xcbf29ce484222325;

/// The FNV-1a 64-bit prime.
pub const FNV_PRIME: u64 = 0x100000001b3;

/// One FNV-1a round: fold the byte in, then multiply by the prime modulo 2^64.
pub open spec fn fnv1a_round(hash: u64, byte: u8) -> u64 {
    (((hash ^ (byte as u64)) as nat * FNV_PRIME as nat) % 0x1_0000_0000_0000_0000) as u64
}

/// The 64-bit FNV-1a hash of a byte sequence.
pub open spec fn fnv1a(bytes: Seq<u8>) -> u64
    decreases bytes.len(),
{
    if bytes.len() == 0 {
        FNV_OFFSET
    } else {
        fnv1a_round(fnv1a(bytes.drop_last()), bytes.last())
    }
}

/// The node id of a node name: the 64-bit FNV-1a hash of its UTF-8 bytes.
// https://en.wikipedia.org/wiki/Fowler%E2%80%93Noll%E2%80%93Vo_hash_function#FNV_hash_parameters
pub fn node_id_of(name: &str) -> (id: NodeId)
    ensures
        id@ == fnv1a(name.spec_bytes()),
{
    let bytes = name.as_bytes();
    let mut hash: u64 = FNV_OFFSET;
    let mut i: usize = 0;
    while i < bytes.len()
        invariant
            i <= bytes@.len(),
            bytes@ == name.spec_bytes(),
            hash == fnv1a(bytes@.take(i as int)),
        decreases bytes@.len() - i,
    {
        assert(bytes@.take(i + 1).drop_last() =~= bytes@.take(i as int));
        hash = hash ^ (bytes[i] as u64);
        hash = hash.wrapping_mul(FNV_PRIME);
        i = i + 1;
    }
    assert(bytes@.take(i as int) =~= bytes@);
    NodeId::new(hash)
}


/// FNV-1a over a whole byte sequence: the empty sequence hashes to the offset
/// basis 0xcbf29ce484222325, and appending a byte folds it into the hash by
/// exclusive or, then multiplies by the prime 0x100000001b3 modulo 2^64, for a
/// sequence of any length.
pub proof fn lemma_fnv1a_folds_every_byte(b: Seq<u8>, x: u8)
    ensures
        fnv1a(Seq::<u8>::empty()) == 0xcbf29ce484222325u64,
        fnv1a(b.push(x)) == (((fnv1a(b) ^ (x as u64)) as nat * 0x100000001b3nat)
            % 0x1_0000_0000_0000_0000nat) as u64,
{
    assert(b.push(x).drop_last() =~= b);
}

} // verus!
