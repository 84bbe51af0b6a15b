//! Bit sequences in the SCALE encoding of `bitvec` values: a compact bit count followed by
//! the store words, little-endian, holding the bits in a given order.
use crate::codec::{compact_spec, has_bytes, le_at, read_compact_u32, rest};
use crate::error::DecodeError;
use scale_bits::scale::format::{Format, OrderFormat, StoreFormat};
use vstd::prelude::*;

verus! {

/// The integer type in which bits are stored.
#[derive(Clone, Copy, Debug, PartialEq, Eq)]
pub enum BitStore {
    U8,
    U16,
    U32,
    U64,
}

/// The order of bits within a store word.
#[derive(Clone, Copy, Debug, PartialEq, Eq)]
pub enum BitOrder {
    Lsb0,
    Msb0,
}

/// The number of bits in a store word.
pub open spec fn store_bits(s: BitStore) -> nat {
    match s {
        BitStore::U8 => 8,
        BitStore::U16 => 16,
        BitStore::U32 => 32,
        BitStore::U64 => 64,
    }
}

/// `2^k`.
pub open spec fn pow2(k: nat) -> nat
    decreases k,
{
    if k == 0 {
        1
    } else {
        2 * pow2((k - 1) as nat)
    }
}

/// The number of bytes of store words that hold `bits` bits.
pub open spec fn store_bytes_for(bits: nat, s: BitStore) -> nat {
    let w = store_bits(s);
    (bits / w + if bits % w != 0 {
        1nat
    } else {
        0nat
    }) * (w / 8)
}

/// Bit `k` of the bit sequence whose store words start at the beginning of `data`.
pub open spec fn bit_at(data: Seq<u8>, k: nat, s: BitStore, o: BitOrder) -> bool {
    let w = store_bits(s);
    let word = le_at(data, ((k / w) * (w / 8)) as int, (w / 8) as int);
    let shift = match o {
        BitOrder::Lsb0 => k % w,
        BitOrder::Msb0 => (w - 1 - k % w) as nat,
    };
    (word / pow2(shift)) % 2 == 1
}

/// The bits of the encoded sequence `storage` (count prefix included), where it is whole.
pub open spec fn bits_of(storage: Seq<u8>, s: BitStore, o: BitOrder) -> Option<Seq<bool>> {
    match compact_spec(storage, 4) {
        Some((n, clen)) => if storage.len() >= clen + store_bytes_for(n, s) {
            Some(Seq::new(n, |k: int| bit_at(storage.subrange(clen as int, storage.len() as int), k as nat, s, o)))
        } else {
            None
        },
        None => None,
    }
}

/// `scale_bits::decode_using_format_from` on `storage`, with its bits collected:
/// the compact bit count, then the bits read word by word in the given store and order;
/// an error where the count does not decode or a word is missing.
#[verifier::external_body]
fn scale_bits_decode(storage: &[u8], store: BitStore, order: BitOrder) -> (r: Result<Vec<bool>, String>)
    ensures
        r is Ok <==> bits_of(storage@, store, order) is Some,
        r matches Ok(v) ==> v@ == bits_of(storage@, store, order).unwrap(),
{
    let store = match store {
        BitStore::U8 => StoreFormat::U8,
        BitStore::U16 => StoreFormat::U16,
        BitStore::U32 => StoreFormat::U32,
        BitStore::U64 => StoreFormat::U64,
    };
    let order = match order {
        BitOrder::Lsb0 => OrderFormat::Lsb0,
        BitOrder::Msb0 => OrderFormat::Msb0,
    };
    match scale_bits::decode_using_format_from(storage, Format::new(store, order)) {
        Ok(decoder) => decoder.collect::<Result<Vec<bool>, _>>().map_err(|e| e.to_string()),
        Err(e) => Err(e.to_string()),
    }
}

/// The largest bit count that a bit sequence may carry.
pub const MAX_BITS: u32 = 0x1fff_ffff;

/// What decoding a bit sequence at `pos` gives: the position after it, or `None` where the
/// count does not decode, exceeds `MAX_BITS` or the store words are cut short.
pub open spec fn bits_end(bytes: Seq<u8>, pos: int, s: BitStore) -> Option<nat> {
    match compact_spec(rest(bytes, pos), 4) {
        Some((n, clen)) => if n > MAX_BITS {
            None
        } else if has_bytes(bytes, pos + clen, store_bytes_for(n, s) as int) {
            Some((pos + clen + store_bytes_for(n, s)) as nat)
        } else {
            None
        },
        None => None,
    }
}

/// A decoded bit sequence.
#[derive(Clone, Debug, PartialEq, Eq)]
pub struct DecodedBits {
    pub bits: Vec<bool>,
    pub store: BitStore,
    pub order: BitOrder,
}

impl DecodedBits {
    /// The decoded bits.
    pub fn into_bits(self) -> (bits: Vec<bool>)
        ensures
            bits@ == self.bits@,
    {
        self.bits
    }

    /// The decoded bits.
    pub fn as_bits(&self) -> (bits: &Vec<bool>)
        ensures
            bits@ == self.bits@,
    {
        &self.bits
    }

    /// A bit sequence holding `bits`, in the given store and order.
    pub fn from_bits(bits: Vec<bool>, store: BitStore, order: BitOrder) -> (d: DecodedBits)
        ensures
            d.bits@ == bits@,
            d.store == store,
            d.order == order,
    {
        DecodedBits { bits, store, order }
    }

    /// Decodes the bit sequence at `pos` in the given store and order; gives it and the
    /// position after it.
    pub fn decode(bytes: &[u8], pos: usize, store: BitStore, order: BitOrder) -> (r: Result<(DecodedBits, usize), DecodeError>)
        requires
            pos <= bytes.len(),
        ensures
            r is Ok <==> bits_end(bytes@, pos as int, store) is Some,
            r matches Ok((d, next)) ==> {
                &&& next == bits_end(bytes@, pos as int, store).unwrap()
                &&& d.store == store
                &&& d.order == order
                &&& d.bits@ == bits_of(bytes@.subrange(pos as int, next as int), store, order).unwrap()
            },
    {
        let (count, after) = match read_compact_u32(bytes, pos) {
            Ok(p) => p,
            Err(e) => return Err(DecodeError::Error(e)),
        };
        if count > MAX_BITS {
            return Err(DecodeError::Error(crate::strings::copy_str("Attempt to decode a BitVec with too many bits")));
        }
        let needed = store_bytes_needed(count, store);
        if needed > bytes.len() - after {
            return Err(DecodeError::Error(crate::strings::copy_str("Not enough data to fill buffer")));
        }
        let end = after + needed;
        let storage = slice_range(bytes, pos, end);
        proof {
            let st = bytes@.subrange(pos as int, end as int);
            let r0 = rest(bytes@, pos as int);
            assert(st =~= r0.subrange(0, (end - pos) as int));
            lemma_compact_prefix(r0, st, 4);
        }
        let bits = match scale_bits_decode(storage, store, order) {
            Ok(v) => v,
            Err(e) => return Err(DecodeError::Error(e)),
        };
        Ok((DecodedBits { bits, store, order }, end))
    }
}

/// The number of bytes of store words that hold `count` bits.
fn store_bytes_needed(count: u32, store: BitStore) -> (n: usize)
    requires
        count <= MAX_BITS,
    ensures
        n == store_bytes_for(count as nat, store),
{
    match store {
        BitStore::U8 => {
            let e = count / 8 + if count % 8 != 0 { 1u32 } else { 0u32 };
            assert(store_bytes_for(count as nat, store) == e * 1);
            e as usize
        },
        BitStore::U16 => {
            let e = count / 16 + if count % 16 != 0 { 1u32 } else { 0u32 };
            assert(store_bytes_for(count as nat, store) == e * 2);
            e as usize * 2
        },
        BitStore::U32 => {
            let e = count / 32 + if count % 32 != 0 { 1u32 } else { 0u32 };
            assert(store_bytes_for(count as nat, store) == e * 4);
            e as usize * 4
        },
        BitStore::U64 => {
            let e = count / 64 + if count % 64 != 0 { 1u32 } else { 0u32 };
            assert(store_bytes_for(count as nat, store) == e * 8);
            e as usize * 8
        },
    }
}

/// The bytes of `bytes` from `start` to `end`.
pub fn slice_range(bytes: &[u8], start: usize, end: usize) -> (s: &[u8])
    requires
        start <= end <= bytes.len(),
    ensures
        s@ == bytes@.subrange(start as int, end as int),
{
    vstd::slice::slice_subrange(bytes, start, end)
}

/// A compact encoding decodes alike from any sequence that begins with it.
pub proof fn lemma_compact_prefix(s: Seq<u8>, t: Seq<u8>, width: nat)
    requires
        compact_spec(s, width) is Some,
        compact_spec(s, width).unwrap().1 <= t.len() <= s.len(),
        t == s.subrange(0, t.len() as int),
    ensures
        compact_spec(t, width) == compact_spec(s, width),
{
    assert(t[0] == s[0]);
    if s.len() >= 2 && t.len() >= 2 {
        assert(t.subrange(0, 2) =~= s.subrange(0, 2));
    }
    if s.len() >= 4 && t.len() >= 4 {
        assert(t.subrange(0, 4) =~= s.subrange(0, 4));
    }
    let n = (s[0] / 4) as nat + 4;
    if s[0] % 4 == 3 && s.len() >= n + 1 && t.len() >= n + 1 {
        assert(t.subrange(1, (n + 1) as int) =~= s.subrange(1, (n + 1) as int));
    }
}

} // verus!
