//! The 64-bit FNV-1a hash used for plan ids, proposal ids and range seeds.
use vstd::prelude::*;
use vstd::string::StringSliceAdditionalSpecFns;

verus! {

/// FNV-1a offset basis.
pub const FNV_OFFSET: u64 = 0xcbf29ce484222325u64;

/// FNV-1a prime.
pub const FNV_PRIME: u64 = 0x100000001b3u64;

/// One FNV-1a step: xor the byte in, then multiply modulo 2^64.
pub open spec fn fnv_step(hash: u64, byte: u8) -> u64 {
    ((((hash ^ (byte as u64)) as int) * (FNV_PRIME as int)) % 0x1_0000_0000_0000_0000int) as u64
}

/// FNV-1a of a byte sequence, folding from the first byte to the last.
pub open spec fn fnv_spec(bytes: Seq<u8>) -> u64
    decreases bytes.len(),
{
    if bytes.len() == 0 {
        FNV_OFFSET
    } else {
        fnv_step(fnv_spec(bytes.drop_last()), bytes.last())
    }
}

/// FNV-1a over the UTF-8 bytes of `text`.
pub fn fnv1a64(text: &str) -> (hash: u64)
    ensures
        hash == fnv_spec(text.spec_bytes()),
{
    fnv1a64_bytes(text.as_bytes())
}

/// FNV-1a over raw bytes.
pub fn fnv1a64_bytes(bytes: &[u8]) -> (hash: u64)
    ensures
        hash == fnv_spec(bytes@),
{
    let mut hash: u64 = FNV_OFFSET;
    let mut i: usize = 0;
    while i < bytes.len()
        invariant
            i <= bytes@.len(),
            hash == fnv_spec(bytes@.take(i as int)),
        decreases bytes@.len() - i,
    {
        let byte = bytes[i];
        let mixed = hash ^ (byte as u64);
        let next = mixed.wrapping_mul(FNV_PRIME);
        assert(bytes@.take(i + 1).drop_last() =~= bytes@.take(i as int));
        assert(next == fnv_step(hash, byte)) by {
            assert(mixed == hash ^ (byte as u64));
        }
        hash = next;
        i = i + 1;
    }
    assert(bytes@.take(i as int) =~= bytes@);
    hash
}

} // verus!
