//! Storage key hashing: the hashers that a runtime's storage maps name.
use crate::crypto::{blake2_256, blake2_256_hash};
use vstd::prelude::*;

verus! {

/// The hashers of storage keys.
#[derive(Clone, Copy, Debug, Eq, PartialEq)]
pub enum StorageHasher {
    Blake2_128,
    Blake2_256,
    Blake2_128Concat,
    Twox128,
    Twox256,
    Twox64Concat,
    Identity,
}

/// The BLAKE2b-128 hash of `data`.
pub uninterp spec fn blake2_128_hash(data: Seq<u8>) -> Seq<u8>;

/// The 128-bit xxHash of `data`.
pub uninterp spec fn twox_128_hash(data: Seq<u8>) -> Seq<u8>;

/// The 256-bit xxHash of `data`.
pub uninterp spec fn twox_256_hash(data: Seq<u8>) -> Seq<u8>;

/// The 64-bit xxHash of `data`.
pub uninterp spec fn twox_64_hash(data: Seq<u8>) -> Seq<u8>;

/// `sp_core::blake2_128`: the 16-byte BLAKE2b hash of `data`.
#[verifier::external_body]
fn blake2_128(data: &[u8]) -> (h: [u8; 16])
    ensures
        h@ == blake2_128_hash(data@),
{
    sp_core::blake2_128(data)
}

/// `sp_core::twox_128`: the 16-byte xxHash of `data`.
#[verifier::external_body]
fn twox_128(data: &[u8]) -> (h: [u8; 16])
    ensures
        h@ == twox_128_hash(data@),
{
    sp_core::twox_128(data)
}

/// `sp_core::twox_256`: the 32-byte xxHash of `data`.
#[verifier::external_body]
fn twox_256(data: &[u8]) -> (h: [u8; 32])
    ensures
        h@ == twox_256_hash(data@),
{
    sp_core::twox_256(data)
}

/// `sp_core::twox_64`: the 8-byte xxHash of `data`.
#[verifier::external_body]
fn twox_64(data: &[u8]) -> (h: [u8; 8])
    ensures
        h@ == twox_64_hash(data@),
{
    sp_core::twox_64(data)
}

/// The storage key part of `bytes` under `hasher`: the hash, followed by the bytes
/// themselves for the concatenating hashers, or the bytes alone for `Identity`.
pub open spec fn hashed_key(hasher: StorageHasher, bytes: Seq<u8>) -> Seq<u8> {
    match hasher {
        StorageHasher::Identity => bytes,
        StorageHasher::Blake2_128 => blake2_128_hash(bytes),
        StorageHasher::Blake2_128Concat => blake2_128_hash(bytes) + bytes,
        StorageHasher::Blake2_256 => blake2_256_hash(bytes),
        StorageHasher::Twox128 => twox_128_hash(bytes),
        StorageHasher::Twox256 => twox_256_hash(bytes),
        StorageHasher::Twox64Concat => twox_64_hash(bytes) + bytes,
    }
}

/// `a` followed by `b`.
fn concat_bytes(a: &[u8], b: &[u8]) -> (r: Vec<u8>)
    ensures
        r@ == a@ + b@,
{
    let mut r: Vec<u8> = Vec::new();
    let mut i: usize = 0;
    while i < a.len()
        invariant
            i <= a.len(),
            r@ == a@.subrange(0, i as int),
        decreases a.len() - i,
    {
        r.push(a[i]);
        assert(r@ =~= a@.subrange(0, i + 1));
        i = i + 1;
    }
    let mut j: usize = 0;
    while j < b.len()
        invariant
            i == a.len(),
            j <= b.len(),
            r@ == a@.subrange(0, i as int) + b@.subrange(0, j as int),
        decreases b.len() - j,
    {
        r.push(b[j]);
        assert(r@ =~= a@.subrange(0, i as int) + b@.subrange(0, j + 1));
        j = j + 1;
    }
    assert(a@.subrange(0, i as int) =~= a@);
    assert(b@.subrange(0, j as int) =~= b@);
    r
}

/// The length of the storage key part of `n` bytes under `hasher`: 16 bytes for the 128-bit
/// hashes, 32 for the 256-bit ones, the 16 or 8 bytes of the hash followed by the `n` bytes for
/// the concatenating hashers, and `n` for `Identity`.
pub open spec fn hashed_key_len(hasher: StorageHasher, n: nat) -> nat {
    match hasher {
        StorageHasher::Identity => n,
        StorageHasher::Blake2_128 => 16,
        StorageHasher::Blake2_128Concat => 16 + n,
        StorageHasher::Blake2_256 => 32,
        StorageHasher::Twox128 => 16,
        StorageHasher::Twox256 => 32,
        StorageHasher::Twox64Concat => 8 + n,
    }
}

/// The storage key part of `bytes` under `hasher`.
pub fn hash(hasher: &StorageHasher, bytes: &[u8]) -> (r: Vec<u8>)
    ensures
        r@ == hashed_key(*hasher, bytes@),
        r@.len() == hashed_key_len(*hasher, bytes@.len()),
{
    match hasher {
        StorageHasher::Identity => concat_bytes(bytes, &[]),
        StorageHasher::Blake2_128 => {
            let h = blake2_128(bytes);
            concat_bytes(h.as_slice(), &[])
        },
        StorageHasher::Blake2_128Concat => {
            let h = blake2_128(bytes);
            concat_bytes(h.as_slice(), bytes)
        },
        StorageHasher::Blake2_256 => {
            let h = blake2_256(bytes);
            concat_bytes(h.as_slice(), &[])
        },
        StorageHasher::Twox128 => {
            let h = twox_128(bytes);
            concat_bytes(h.as_slice(), &[])
        },
        StorageHasher::Twox256 => {
            let h = twox_256(bytes);
            concat_bytes(h.as_slice(), &[])
        },
        StorageHasher::Twox64Concat => {
            let h = twox_64(bytes);
            concat_bytes(h.as_slice(), bytes)
        },
    }
}

} // verus!
