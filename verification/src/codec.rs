//! SCALE primitives: the mathematical meaning of little-endian and compact
//! encodings, and readers that decode them from a byte slice at a position.
use parity_scale_codec::{Compact, Decode};
use vstd::prelude::*;

verus! {

/// `256^k`.
pub open spec fn pow256(k: nat) -> nat
    decreases k,
{
    if k == 0 {
        1
    } else {
        256 * pow256((k - 1) as nat)
    }
}

/// The unsigned integer whose little-endian bytes are `s`.
pub open spec fn le_value(s: Seq<u8>) -> nat
    decreases s.len(),
{
    if s.len() == 0 {
        0
    } else {
        s[0] as nat + 256 * le_value(s.drop_first())
    }
}

/// The smallest value that a compact encoding with `n` trailing bytes may carry.
pub open spec fn compact_big_min(n: nat) -> nat {
    if n == 4 {
        0x4000_0000
    } else {
        pow256((n - 1) as nat)
    }
}

/// The value carried by the compact (SCALE) encoding at the start of `s`, for an unsigned
/// integer type `width` bytes wide, together with the length of that encoding.
/// `None` where the encoding is cut short, is not the shortest one, or is out of range.
pub open spec fn compact_spec(s: Seq<u8>, width: nat) -> Option<(nat, nat)> {
    if s.len() == 0 {
        None
    } else {
        let b0 = s[0];
        if b0 % 4 == 0 {
            Some(((b0 / 4) as nat, 1))
        } else if b0 % 4 == 1 {
            if s.len() < 2 {
                None
            } else {
                let v = le_value(s.subrange(0, 2)) / 4;
                if 64 <= v && v < pow256(width) {
                    Some((v, 2))
                } else {
                    None
                }
            }
        } else if b0 % 4 == 2 {
            if s.len() < 4 {
                None
            } else {
                let v = le_value(s.subrange(0, 4)) / 4;
                if 0x4000 <= v && v < pow256(width) {
                    Some((v, 4))
                } else {
                    None
                }
            }
        } else {
            let n = (b0 / 4) as nat + 4;
            if n > width || s.len() < n + 1 {
                None
            } else {
                let v = le_value(s.subrange(1, (n + 1) as int));
                if v >= compact_big_min(n) {
                    Some((v, n + 1))
                } else {
                    None
                }
            }
        }
    }
}

/// The bytes of `bytes` from `pos` on.
pub open spec fn rest(bytes: Seq<u8>, pos: int) -> Seq<u8> {
    bytes.subrange(pos, bytes.len() as int)
}

/// Whether at least `n` bytes remain after `pos`.
pub open spec fn has_bytes(bytes: Seq<u8>, pos: int, n: int) -> bool {
    pos + n <= bytes.len()
}

/// The unsigned value of the `n` little-endian bytes at `pos`.
pub open spec fn le_at(bytes: Seq<u8>, pos: int, n: int) -> nat {
    le_value(bytes.subrange(pos, pos + n))
}

// ---------------------------------------------------------------------------
// Trusted readers over parity-scale-codec.
// ---------------------------------------------------------------------------

/// `<u8 as parity_scale_codec::Decode>::decode` on the bytes from `pos`: reads one byte.
#[verifier::external_body]
pub(crate) fn codec_u8(bytes: &[u8], pos: usize) -> (r: Result<u8, String>)
    requires
        pos <= bytes.len(),
    ensures
        r is Ok <==> has_bytes(bytes@, pos as int, 1),
        r matches Ok(v) ==> v == bytes@[pos as int],
{
    u8::decode(&mut &bytes[pos..]).map_err(|e| e.to_string())
}

/// `<u16 as parity_scale_codec::Decode>::decode`: two little-endian bytes.
#[verifier::external_body]
pub(crate) fn codec_u16(bytes: &[u8], pos: usize) -> (r: Result<u16, String>)
    requires
        pos <= bytes.len(),
    ensures
        r is Ok <==> has_bytes(bytes@, pos as int, 2),
        r matches Ok(v) ==> v as nat == le_at(bytes@, pos as int, 2),
{
    u16::decode(&mut &bytes[pos..]).map_err(|e| e.to_string())
}

/// `<u32 as parity_scale_codec::Decode>::decode`: four little-endian bytes.
#[verifier::external_body]
pub(crate) fn codec_u32(bytes: &[u8], pos: usize) -> (r: Result<u32, String>)
    requires
        pos <= bytes.len(),
    ensures
        r is Ok <==> has_bytes(bytes@, pos as int, 4),
        r matches Ok(v) ==> v as nat == le_at(bytes@, pos as int, 4),
{
    u32::decode(&mut &bytes[pos..]).map_err(|e| e.to_string())
}

/// `<u64 as parity_scale_codec::Decode>::decode`: eight little-endian bytes.
#[verifier::external_body]
pub(crate) fn codec_u64(bytes: &[u8], pos: usize) -> (r: Result<u64, String>)
    requires
        pos <= bytes.len(),
    ensures
        r is Ok <==> has_bytes(bytes@, pos as int, 8),
        r matches Ok(v) ==> v as nat == le_at(bytes@, pos as int, 8),
{
    u64::decode(&mut &bytes[pos..]).map_err(|e| e.to_string())
}

/// `<u128 as parity_scale_codec::Decode>::decode`: sixteen little-endian bytes.
#[verifier::external_body]
pub(crate) fn codec_u128(bytes: &[u8], pos: usize) -> (r: Result<u128, String>)
    requires
        pos <= bytes.len(),
    ensures
        r is Ok <==> has_bytes(bytes@, pos as int, 16),
        r matches Ok(v) ==> v as nat == le_at(bytes@, pos as int, 16),
{
    u128::decode(&mut &bytes[pos..]).map_err(|e| e.to_string())
}

/// `<i8 as parity_scale_codec::Decode>::decode`: one byte, two's complement.
#[verifier::external_body]
pub(crate) fn codec_i8(bytes: &[u8], pos: usize) -> (r: Result<i8, String>)
    requires
        pos <= bytes.len(),
    ensures
        r is Ok <==> has_bytes(bytes@, pos as int, 1),
        r matches Ok(v) ==> v as u8 == bytes@[pos as int],
{
    i8::decode(&mut &bytes[pos..]).map_err(|e| e.to_string())
}

/// `<i16 as parity_scale_codec::Decode>::decode`: two little-endian bytes, two's complement.
#[verifier::external_body]
pub(crate) fn codec_i16(bytes: &[u8], pos: usize) -> (r: Result<i16, String>)
    requires
        pos <= bytes.len(),
    ensures
        r is Ok <==> has_bytes(bytes@, pos as int, 2),
        r matches Ok(v) ==> v as u16 as nat == le_at(bytes@, pos as int, 2),
{
    i16::decode(&mut &bytes[pos..]).map_err(|e| e.to_string())
}

/// `<i32 as parity_scale_codec::Decode>::decode`: four little-endian bytes, two's complement.
#[verifier::external_body]
pub(crate) fn codec_i32(bytes: &[u8], pos: usize) -> (r: Result<i32, String>)
    requires
        pos <= bytes.len(),
    ensures
        r is Ok <==> has_bytes(bytes@, pos as int, 4),
        r matches Ok(v) ==> v as u32 as nat == le_at(bytes@, pos as int, 4),
{
    i32::decode(&mut &bytes[pos..]).map_err(|e| e.to_string())
}

/// `<i64 as parity_scale_codec::Decode>::decode`: eight little-endian bytes, two's complement.
#[verifier::external_body]
pub(crate) fn codec_i64(bytes: &[u8], pos: usize) -> (r: Result<i64, String>)
    requires
        pos <= bytes.len(),
    ensures
        r is Ok <==> has_bytes(bytes@, pos as int, 8),
        r matches Ok(v) ==> v as u64 as nat == le_at(bytes@, pos as int, 8),
{
    i64::decode(&mut &bytes[pos..]).map_err(|e| e.to_string())
}

/// `<i128 as parity_scale_codec::Decode>::decode`: sixteen little-endian bytes, two's complement.
#[verifier::external_body]
pub(crate) fn codec_i128(bytes: &[u8], pos: usize) -> (r: Result<i128, String>)
    requires
        pos <= bytes.len(),
    ensures
        r is Ok <==> has_bytes(bytes@, pos as int, 16),
        r matches Ok(v) ==> v as u128 as nat == le_at(bytes@, pos as int, 16),
{
    i128::decode(&mut &bytes[pos..]).map_err(|e| e.to_string())
}

/// `<[u8; 32] as parity_scale_codec::Decode>::decode`: thirty-two bytes, copied.
#[verifier::external_body]
pub(crate) fn codec_bytes32(bytes: &[u8], pos: usize) -> (r: Result<[u8; 32], String>)
    requires
        pos <= bytes.len(),
    ensures
        r is Ok <==> has_bytes(bytes@, pos as int, 32),
        r matches Ok(v) ==> v@ == bytes@.subrange(pos as int, pos + 32),
{
    <[u8; 32]>::decode(&mut &bytes[pos..]).map_err(|e| e.to_string())
}

/// `<[u8; 16] as parity_scale_codec::Decode>::decode`: sixteen bytes, copied.
#[verifier::external_body]
pub(crate) fn codec_bytes16(bytes: &[u8], pos: usize) -> (r: Result<[u8; 16], String>)
    requires
        pos <= bytes.len(),
    ensures
        r is Ok <==> has_bytes(bytes@, pos as int, 16),
        r matches Ok(v) ==> v@ == bytes@.subrange(pos as int, pos + 16),
{
    <[u8; 16]>::decode(&mut &bytes[pos..]).map_err(|e| e.to_string())
}

/// `<[u8; 64] as parity_scale_codec::Decode>::decode`: sixty-four bytes, copied.
#[verifier::external_body]
pub(crate) fn codec_bytes64(bytes: &[u8], pos: usize) -> (r: Result<[u8; 64], String>)
    requires
        pos <= bytes.len(),
    ensures
        r is Ok <==> has_bytes(bytes@, pos as int, 64),
        r matches Ok(v) ==> v@ == bytes@.subrange(pos as int, pos + 64),
{
    <[u8; 64]>::decode(&mut &bytes[pos..]).map_err(|e| e.to_string())
}

/// `<[u8; 65] as parity_scale_codec::Decode>::decode`: sixty-five bytes, copied.
#[verifier::external_body]
pub(crate) fn codec_bytes65(bytes: &[u8], pos: usize) -> (r: Result<[u8; 65], String>)
    requires
        pos <= bytes.len(),
    ensures
        r is Ok <==> has_bytes(bytes@, pos as int, 65),
        r matches Ok(v) ==> v@ == bytes@.subrange(pos as int, pos + 65),
{
    <[u8; 65]>::decode(&mut &bytes[pos..]).map_err(|e| e.to_string())
}

/// `<[u8; 225] as parity_scale_codec::Decode>::decode`: 225 bytes, copied.
#[verifier::external_body]
pub(crate) fn codec_bytes225(bytes: &[u8], pos: usize) -> (r: Result<[u8; 225], String>)
    requires
        pos <= bytes.len(),
    ensures
        r is Ok <==> has_bytes(bytes@, pos as int, 225),
        r matches Ok(v) ==> v@ == bytes@.subrange(pos as int, pos + 225),
{
    <[u8; 225]>::decode(&mut &bytes[pos..]).map_err(|e| e.to_string())
}

/// `<[u8; 20] as parity_scale_codec::Decode>::decode`: twenty bytes, copied.
#[verifier::external_body]
pub(crate) fn codec_bytes20(bytes: &[u8], pos: usize) -> (r: Result<[u8; 20], String>)
    requires
        pos <= bytes.len(),
    ensures
        r is Ok <==> has_bytes(bytes@, pos as int, 20),
        r matches Ok(v) ==> v@ == bytes@.subrange(pos as int, pos + 20),
{
    <[u8; 20]>::decode(&mut &bytes[pos..]).map_err(|e| e.to_string())
}

/// `<sp_core::U256 as parity_scale_codec::Decode>::decode`: thirty-two little-endian bytes.
#[verifier::external_body]
pub(crate) fn codec_u256(bytes: &[u8], pos: usize) -> (r: Result<(), String>)
    requires
        pos <= bytes.len(),
    ensures
        r is Ok <==> has_bytes(bytes@, pos as int, 32),
{
    sp_core::U256::decode(&mut &bytes[pos..]).map(|_| ()).map_err(|e| e.to_string())
}

/// `<bool as parity_scale_codec::Decode>::decode`: one byte that must be 0 or 1.
#[verifier::external_body]
pub(crate) fn codec_bool(bytes: &[u8], pos: usize) -> (r: Result<bool, String>)
    requires
        pos <= bytes.len(),
    ensures
        r is Ok <==> (has_bytes(bytes@, pos as int, 1) && bytes@[pos as int] < 2),
        r matches Ok(b) ==> b == (bytes@[pos as int] == 1),
{
    bool::decode(&mut &bytes[pos..]).map_err(|e| e.to_string())
}

/// `<Compact<u8> as parity_scale_codec::Decode>::decode`.
#[verifier::external_body]
pub(crate) fn codec_compact_u8(bytes: &[u8], pos: usize) -> (r: Result<u8, String>)
    requires
        pos <= bytes.len(),
    ensures
        r is Ok <==> compact_spec(rest(bytes@, pos as int), 1) is Some,
        r matches Ok(v) ==> v as nat == compact_spec(rest(bytes@, pos as int), 1).unwrap().0,
{
    <Compact<u8>>::decode(&mut &bytes[pos..]).map(|c| c.0).map_err(|e| e.to_string())
}

/// `<Compact<u16> as parity_scale_codec::Decode>::decode`.
#[verifier::external_body]
pub(crate) fn codec_compact_u16(bytes: &[u8], pos: usize) -> (r: Result<u16, String>)
    requires
        pos <= bytes.len(),
    ensures
        r is Ok <==> compact_spec(rest(bytes@, pos as int), 2) is Some,
        r matches Ok(v) ==> v as nat == compact_spec(rest(bytes@, pos as int), 2).unwrap().0,
{
    <Compact<u16>>::decode(&mut &bytes[pos..]).map(|c| c.0).map_err(|e| e.to_string())
}

/// `<Compact<u32> as parity_scale_codec::Decode>::decode`.
#[verifier::external_body]
pub(crate) fn codec_compact_u32(bytes: &[u8], pos: usize) -> (r: Result<u32, String>)
    requires
        pos <= bytes.len(),
    ensures
        r is Ok <==> compact_spec(rest(bytes@, pos as int), 4) is Some,
        r matches Ok(v) ==> v as nat == compact_spec(rest(bytes@, pos as int), 4).unwrap().0,
{
    <Compact<u32>>::decode(&mut &bytes[pos..]).map(|c| c.0).map_err(|e| e.to_string())
}

/// `<Compact<u64> as parity_scale_codec::Decode>::decode`.
#[verifier::external_body]
pub(crate) fn codec_compact_u64(bytes: &[u8], pos: usize) -> (r: Result<u64, String>)
    requires
        pos <= bytes.len(),
    ensures
        r is Ok <==> compact_spec(rest(bytes@, pos as int), 8) is Some,
        r matches Ok(v) ==> v as nat == compact_spec(rest(bytes@, pos as int), 8).unwrap().0,
{
    <Compact<u64>>::decode(&mut &bytes[pos..]).map(|c| c.0).map_err(|e| e.to_string())
}

/// `<Compact<u128> as parity_scale_codec::Decode>::decode`.
#[verifier::external_body]
pub(crate) fn codec_compact_u128(bytes: &[u8], pos: usize) -> (r: Result<u128, String>)
    requires
        pos <= bytes.len(),
    ensures
        r is Ok <==> compact_spec(rest(bytes@, pos as int), 16) is Some,
        r matches Ok(v) ==> v as nat == compact_spec(rest(bytes@, pos as int), 16).unwrap().0,
{
    <Compact<u128>>::decode(&mut &bytes[pos..]).map(|c| c.0).map_err(|e| e.to_string())
}

/// Where the SCALE string at the start of `s` ends: a compact byte count, then that many
/// bytes that must be valid UTF-8. `None` where it is cut short or not UTF-8.
pub open spec fn string_len(s: Seq<u8>) -> Option<nat> {
    match compact_spec(s, 4) {
        Some((n, clen)) => if s.len() >= clen + n && vstd::utf8::valid_utf8(
            s.subrange(clen as int, (clen + n) as int),
        ) {
            Some(clen + n)
        } else {
            None
        },
        None => None,
    }
}

/// The text of the SCALE string at the start of `s`.
pub open spec fn string_text(s: Seq<u8>) -> Seq<char> {
    let (n, clen) = compact_spec(s, 4).unwrap();
    vstd::utf8::decode_utf8(s.subrange(clen as int, (clen + n) as int))
}

/// `<String as parity_scale_codec::Decode>::decode`: a compact byte count, then that many
/// bytes, which must be valid UTF-8.
#[verifier::external_body]
pub(crate) fn codec_string(bytes: &[u8], pos: usize) -> (r: Result<String, String>)
    requires
        pos <= bytes.len(),
    ensures
        r is Ok <==> string_len(rest(bytes@, pos as int)) is Some,
        r matches Ok(s) ==> s@ == string_text(rest(bytes@, pos as int)),
{
    String::decode(&mut &bytes[pos..]).map_err(|e| e.to_string())
}

/// `<Vec<u8> as parity_scale_codec::Decode>::decode`: a compact byte count, then that many
/// bytes.
#[verifier::external_body]
pub(crate) fn codec_byte_vec(bytes: &[u8], pos: usize) -> (r: Result<Vec<u8>, String>)
    requires
        pos <= bytes.len(),
    ensures
        r is Ok <==> (compact_spec(rest(bytes@, pos as int), 4) matches Some((n, clen)) && pos + clen + n <= bytes.len()),
        r matches Ok(v) ==> v@ == rest(bytes@, pos as int).subrange(
            compact_spec(rest(bytes@, pos as int), 4).unwrap().1 as int,
            (compact_spec(rest(bytes@, pos as int), 4).unwrap().1 + compact_spec(rest(bytes@, pos as int), 4).unwrap().0) as int,
        ),
{
    <Vec<u8>>::decode(&mut &bytes[pos..]).map_err(|e| e.to_string())
}

// ---------------------------------------------------------------------------
// Verified helpers.
// ---------------------------------------------------------------------------

/// The length of the compact encoding that starts with the byte `b0`.
pub open spec fn compact_prefix_len(b0: u8) -> nat {
    if b0 % 4 == 0 {
        1
    } else if b0 % 4 == 1 {
        2
    } else if b0 % 4 == 2 {
        4
    } else {
        (b0 / 4) as nat + 5
    }
}

/// The length of the compact encoding at the start of a non-empty `s`, read off its first byte.
pub fn compact_len(first: u8) -> (n: usize)
    ensures
        n as nat == compact_prefix_len(first),
{
    if first % 4 == 0 {
        1
    } else if first % 4 == 1 {
        2
    } else if first % 4 == 2 {
        4
    } else {
        (first / 4) as usize + 5
    }
}

/// A decoded compact has the length its first byte announces.
pub proof fn lemma_compact_len(s: Seq<u8>, width: nat)
    requires
        compact_spec(s, width) is Some,
    ensures
        s.len() > 0,
        compact_spec(s, width).unwrap().1 == compact_prefix_len(s[0]),
        compact_spec(s, width).unwrap().1 <= s.len(),
{
}

/// Reads the compact-encoded `u32` at `pos`; gives its value and the position after it.
pub fn read_compact_u32(bytes: &[u8], pos: usize) -> (r: Result<(u32, usize), String>)
    requires
        pos <= bytes.len(),
    ensures
        r is Ok <==> compact_spec(rest(bytes@, pos as int), 4) is Some,
        r matches Ok((v, next)) ==> {
            &&& v as nat == compact_spec(rest(bytes@, pos as int), 4).unwrap().0
            &&& next == pos + compact_spec(rest(bytes@, pos as int), 4).unwrap().1
            &&& next <= bytes.len()
        },
{
    let v = codec_compact_u32(bytes, pos)?;
    proof {
        lemma_compact_len(rest(bytes@, pos as int), 4);
    }
    let n = compact_len(bytes[pos]);
    Ok((v, pos + n))
}

} // verus!
