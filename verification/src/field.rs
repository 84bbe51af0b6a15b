//! Walking SCALE-encoded values along the runtime type registry: finding where a value
//! of a given type ends, without keeping what it holds.
use crate::bits::{bits_end, BitOrder, BitStore, DecodedBits};
use crate::codec::{
    codec_bool, codec_compact_u128, codec_compact_u16, codec_compact_u32, codec_compact_u64,
    codec_compact_u8, codec_i128, codec_i16, codec_i32, codec_i64, codec_i8, codec_string,
    codec_u128, codec_u16, codec_u256, codec_u32, codec_u64, codec_u8, codec_bytes32,
    compact_spec, has_bytes, lemma_compact_len, read_compact_u32, rest, string_len,
};
use crate::error::DecodeError;
use crate::metadata::{
    get_metadata_type, ids_in, refs_in, type_path, variants_in, wf_types, PrimitiveKind,
    TypeDefinition, TypeInfo, VariantInfo,
};
use crate::strings::{copy_str, join_segments};
use vstd::prelude::*;

verus! {

/// The outcome of walking a value: where it ends, a decoding failure, a stop at a variant
/// index that the type does not have, or a walk that would not end.
pub enum Walk {
    Done(nat),
    Fail,
    Panic,
    Endless,
}

/// The size of a fixed-width primitive.
pub open spec fn fixed_size(p: PrimitiveKind) -> nat {
    match p {
        PrimitiveKind::Char | PrimitiveKind::U8 | PrimitiveKind::I8 | PrimitiveKind::Bool => 1,
        PrimitiveKind::U16 | PrimitiveKind::I16 => 2,
        PrimitiveKind::U32 | PrimitiveKind::I32 => 4,
        PrimitiveKind::U64 | PrimitiveKind::I64 => 8,
        PrimitiveKind::U128 | PrimitiveKind::I128 => 16,
        PrimitiveKind::U256 | PrimitiveKind::I256 | PrimitiveKind::Str => 32,
    }
}

/// Where the primitive `p` at `pos` ends, or `None` where it does not decode.
pub open spec fn primitive_end(p: PrimitiveKind, bytes: Seq<u8>, pos: int) -> Option<nat> {
    match p {
        PrimitiveKind::Bool => if has_bytes(bytes, pos, 1) && bytes[pos] < 2 {
            Some((pos + 1) as nat)
        } else {
            None
        },
        PrimitiveKind::Str => match string_len(rest(bytes, pos)) {
            Some(n) => Some((pos + n) as nat),
            None => None,
        },
        _ => if has_bytes(bytes, pos, fixed_size(p) as int) {
            Some((pos + fixed_size(p)) as nat)
        } else {
            None
        },
    }
}

/// The width in bytes of a primitive that has a compact encoding.
pub open spec fn compact_width(p: PrimitiveKind) -> Option<nat> {
    match p {
        PrimitiveKind::Char | PrimitiveKind::U8 => Some(1),
        PrimitiveKind::U16 => Some(2),
        PrimitiveKind::U32 => Some(4),
        PrimitiveKind::U64 => Some(8),
        PrimitiveKind::U128 => Some(16),
        _ => None,
    }
}

/// Where the compact encoding of the primitive `p` at `pos` ends, or `None`.
pub open spec fn compact_primitive_end(p: PrimitiveKind, bytes: Seq<u8>, pos: int) -> Option<nat> {
    match compact_width(p) {
        Some(w) => match compact_spec(rest(bytes, pos), w) {
            Some((_, len)) => Some((pos + len) as nat),
            None => None,
        },
        None => None,
    }
}

/// The store of a bit sequence whose store type is `t`, where it is one.
pub open spec fn bit_store_of(t: TypeInfo) -> Option<BitStore> {
    match t.def {
        TypeDefinition::Primitive(PrimitiveKind::U8) => Some(BitStore::U8),
        TypeDefinition::Primitive(PrimitiveKind::U16) => Some(BitStore::U16),
        TypeDefinition::Primitive(PrimitiveKind::U32) => Some(BitStore::U32),
        TypeDefinition::Primitive(PrimitiveKind::U64) => Some(BitStore::U64),
        _ => None,
    }
}

/// Where a bit sequence with store type `s` and order type `o` at `pos` ends, or `None`.
pub open spec fn bit_sequence_end(types: Seq<TypeInfo>, s: u32, o: u32, bytes: Seq<u8>, pos: int) -> Option<nat> {
    let order = type_path(types, o);
    if order != "bitvec::order::Lsb0"@ && order != "bitvec::order::Msb0"@ {
        None
    } else {
        match bit_store_of(types[s as int]) {
            Some(store) => bits_end(bytes, pos, store),
            None => None,
        }
    }
}

/// The position of the first variant of `vs[i..]` whose index is `index`.
pub open spec fn find_variant(vs: Seq<VariantInfo>, index: u8, i: nat) -> Option<nat>
    decreases vs.len() - i,
{
    if i >= vs.len() {
        None
    } else if vs[i as int].index == index {
        Some(i)
    } else {
        find_variant(vs, index, i + 1)
    }
}

/// The budget for a step into a nested value at `pos` of a value entered at `entry`:
/// renewed where bytes were read since, one less otherwise.
pub open spec fn step_fuel(n: nat, pos: int, entry: int, fuel: nat) -> nat {
    if pos > entry {
        n
    } else {
        (fuel - 1) as nat
    }
}

/// Walks the value of registry type `id` at `pos`. `compact` says that primitives are
/// compact-encoded; `fuel` bounds how deep the walk goes without reading a byte.
pub open spec fn walk_type(types: Seq<TypeInfo>, id: u32, bytes: Seq<u8>, pos: int, compact: bool, fuel: nat) -> Walk
    decreases bytes.len() - pos, fuel, 3nat, 0nat,
{
    if pos < 0 || pos > bytes.len() {
        Walk::Fail
    } else {
        match types[id as int].def {
            TypeDefinition::Primitive(p) => {
                let end = if compact {
                    compact_primitive_end(p, bytes, pos)
                } else {
                    primitive_end(p, bytes, pos)
                };
                match end {
                    Some(e) => Walk::Done(e),
                    None => Walk::Fail,
                }
            },
            TypeDefinition::Composite(fs) => walk_fields(types, fs@, 0, bytes, pos, pos, compact, fuel),
            TypeDefinition::Tuple(fs) => walk_fields(types, fs@, 0, bytes, pos, pos, compact, fuel),
            TypeDefinition::Array(len, t) => walk_repeat(types, t, len as nat, bytes, pos, pos, compact, fuel),
            TypeDefinition::Compact(t) => if fuel == 0 {
                Walk::Endless
            } else {
                walk_type(types, t, bytes, pos, true, (fuel - 1) as nat)
            },
            TypeDefinition::Variant(vs) => if !has_bytes(bytes, pos, 1) {
                Walk::Fail
            } else {
                match find_variant(vs@, bytes[pos], 0) {
                    Some(k) => walk_fields(types, vs@[k as int].fields@, 0, bytes, pos + 1, pos, compact, fuel),
                    None => Walk::Panic,
                }
            },
            TypeDefinition::Sequence(t) => match compact_spec(rest(bytes, pos), 4) {
                Some((n, clen)) => walk_repeat(types, t, n, bytes, pos + clen, pos, compact, fuel),
                None => Walk::Fail,
            },
            TypeDefinition::BitSequence(s, o) => match bit_sequence_end(types, s, o, bytes, pos) {
                Some(e) => Walk::Done(e),
                None => Walk::Fail,
            },
        }
    }
}

/// Walks values of the types `ids[i..]` one after another from `pos`, inside a value
/// entered at `entry`.
pub open spec fn walk_fields(types: Seq<TypeInfo>, ids: Seq<u32>, i: nat, bytes: Seq<u8>, pos: int, entry: int, compact: bool, fuel: nat) -> Walk
    decreases bytes.len() - entry, fuel, 2nat, ids.len() - i,
{
    if i >= ids.len() {
        Walk::Done(pos as nat)
    } else if pos < entry || pos > bytes.len() || (pos == entry && fuel == 0) {
        if pos == entry && fuel == 0 { Walk::Endless } else { Walk::Fail }
    } else {
        match walk_type(types, ids[i as int], bytes, pos, compact, step_fuel(types.len(), pos, entry, fuel)) {
            Walk::Done(p) => walk_fields(types, ids, i + 1, bytes, p as int, entry, compact, fuel),
            w => w,
        }
    }
}

/// Walks `count` values of type `id` one after another from `pos`, inside a value
/// entered at `entry`.
pub open spec fn walk_repeat(types: Seq<TypeInfo>, id: u32, count: nat, bytes: Seq<u8>, pos: int, entry: int, compact: bool, fuel: nat) -> Walk
    decreases bytes.len() - entry, fuel, 1nat, count,
{
    if count == 0 {
        Walk::Done(pos as nat)
    } else if pos < entry || pos > bytes.len() || (pos == entry && fuel == 0) {
        if pos == entry && fuel == 0 { Walk::Endless } else { Walk::Fail }
    } else {
        match walk_type(types, id, bytes, pos, compact, step_fuel(types.len(), pos, entry, fuel)) {
            Walk::Done(p) => walk_repeat(types, id, (count - 1) as nat, bytes, p as int, entry, compact, fuel),
            w => w,
        }
    }
}

/// Whether `r` is what a walk with outcome `w` gives.
pub open spec fn walk_matches(w: Walk, r: Result<usize, DecodeError>) -> bool {
    match w {
        Walk::Done(p) => r matches Ok(q) && q == p,
        Walk::Fail => r is Err,
        Walk::Panic => false,
        Walk::Endless => r is Err,
    }
}

/// The error with the message `e`.
fn err(e: String) -> (d: DecodeError)
    ensures
        d == DecodeError::Error(e),
{
    DecodeError::Error(e)
}

/// Decodes the primitive `p` at `pos`, keeping only where it ends.
pub fn decode_primitive(p: PrimitiveKind, bytes: &[u8], pos: usize) -> (r: Result<usize, DecodeError>)
    requires
        pos <= bytes.len(),
    ensures
        match primitive_end(p, bytes@, pos as int) {
            Some(e) => r matches Ok(q) && q == e,
            None => r is Err,
        },
{
    let n: usize = match p {
        PrimitiveKind::Bool => {
            codec_bool(bytes, pos).map_err(err)?;
            1
        },
        PrimitiveKind::Str => {
            let before = pos;
            let _ = codec_string(bytes, pos).map_err(err)?;
            proof {
                lemma_compact_len(rest(bytes@, pos as int), 4);
            }
            let (len, after) = read_compact_u32(bytes, pos).map_err(err)?;
            (after - before) + len as usize
        },
        PrimitiveKind::Char | PrimitiveKind::U8 => {
            codec_u8(bytes, pos).map_err(err)?;
            1
        },
        PrimitiveKind::U16 => {
            codec_u16(bytes, pos).map_err(err)?;
            2
        },
        PrimitiveKind::U32 => {
            codec_u32(bytes, pos).map_err(err)?;
            4
        },
        PrimitiveKind::U64 => {
            codec_u64(bytes, pos).map_err(err)?;
            8
        },
        PrimitiveKind::U128 => {
            codec_u128(bytes, pos).map_err(err)?;
            16
        },
        PrimitiveKind::U256 => {
            codec_u256(bytes, pos).map_err(err)?;
            32
        },
        PrimitiveKind::I8 => {
            codec_i8(bytes, pos).map_err(err)?;
            1
        },
        PrimitiveKind::I16 => {
            codec_i16(bytes, pos).map_err(err)?;
            2
        },
        PrimitiveKind::I32 => {
            codec_i32(bytes, pos).map_err(err)?;
            4
        },
        PrimitiveKind::I64 => {
            codec_i64(bytes, pos).map_err(err)?;
            8
        },
        PrimitiveKind::I128 => {
            codec_i128(bytes, pos).map_err(err)?;
            16
        },
        PrimitiveKind::I256 => {
            codec_bytes32(bytes, pos).map_err(err)?;
            32
        },
    };
    Ok(pos + n)
}

/// Decodes the compact encoding of the primitive `p` at `pos`, keeping only where it ends;
/// primitives without a compact encoding are an error.
pub fn decode_compact_primitive(p: PrimitiveKind, bytes: &[u8], pos: usize) -> (r: Result<usize, DecodeError>)
    requires
        pos <= bytes.len(),
    ensures
        match compact_primitive_end(p, bytes@, pos as int) {
            Some(e) => r matches Ok(q) && q == e,
            None => r is Err,
        },
{
    match p {
        PrimitiveKind::Char | PrimitiveKind::U8 => {
            codec_compact_u8(bytes, pos).map_err(err)?;
        },
        PrimitiveKind::U16 => {
            codec_compact_u16(bytes, pos).map_err(err)?;
        },
        PrimitiveKind::U32 => {
            codec_compact_u32(bytes, pos).map_err(err)?;
        },
        PrimitiveKind::U64 => {
            codec_compact_u64(bytes, pos).map_err(err)?;
        },
        PrimitiveKind::U128 => {
            codec_compact_u128(bytes, pos).map_err(err)?;
        },
        PrimitiveKind::Bool => return Err(err(copy_str("No compact for Bool."))),
        PrimitiveKind::Str => return Err(err(copy_str("No compact for Str."))),
        PrimitiveKind::U256 => return Err(err(copy_str("No compact for U256."))),
        PrimitiveKind::I8 => return Err(err(copy_str("No compact for I8."))),
        PrimitiveKind::I16 => return Err(err(copy_str("No compact for I16."))),
        PrimitiveKind::I32 => return Err(err(copy_str("No compact for I32."))),
        PrimitiveKind::I64 => return Err(err(copy_str("No compact for I64."))),
        PrimitiveKind::I128 => return Err(err(copy_str("No compact for I128."))),
        PrimitiveKind::I256 => return Err(err(copy_str("No compact for I256."))),
    }
    let ghost w = compact_width(p).unwrap();
    proof {
        lemma_compact_len(rest(bytes@, pos as int), w);
    }
    let n = crate::codec::compact_len(bytes[pos]);
    Ok(pos + n)
}

/// Decodes the bit sequence with the given store and order types at `pos`, keeping only
/// where it ends. The order must be `bitvec::order::Lsb0` or `Msb0`, the store an unsigned
/// primitive of at most 64 bits.
pub fn decode_bit_sequence(bit_store_type: &TypeInfo, bit_order_type: &TypeInfo, bytes: &[u8], pos: usize) -> (r: Result<usize, DecodeError>)
    requires
        pos <= bytes.len(),
    ensures
        match (if crate::strings::join_path(crate::strings::views(bit_order_type.path@)) != "bitvec::order::Lsb0"@
            && crate::strings::join_path(crate::strings::views(bit_order_type.path@)) != "bitvec::order::Msb0"@ {
            None
        } else {
            match bit_store_of(*bit_store_type) {
                Some(store) => bits_end(bytes@, pos as int, store),
                None => None,
            }
        }) {
            Some(e) => r matches Ok(q) && q == e,
            None => r is Err,
        },
{
    let order_path = join_segments(&bit_order_type.path);
    let order = if order_path == copy_str("bitvec::order::Lsb0") {
        BitOrder::Lsb0
    } else if order_path == copy_str("bitvec::order::Msb0") {
        BitOrder::Msb0
    } else {
        let mut msg = copy_str("Unexpected bit sequence order: ");
        crate::strings::push_str(&mut msg, order_path.as_str());
        return Err(err(msg));
    };
    let store = match &bit_store_type.def {
        TypeDefinition::Primitive(PrimitiveKind::U8) => BitStore::U8,
        TypeDefinition::Primitive(PrimitiveKind::U16) => BitStore::U16,
        TypeDefinition::Primitive(PrimitiveKind::U32) => BitStore::U32,
        TypeDefinition::Primitive(PrimitiveKind::U64) => BitStore::U64,
        TypeDefinition::Primitive(p) => {
            let mut msg = copy_str("Unexpected bit sequence primitive: ");
            let name = crate::metadata::primitive_debug_name(*p);
            crate::strings::push_str(&mut msg, name.as_str());
            return Err(err(msg));
        },
        _ => return Err(err(copy_str("Non-primitive type fed for bit sequence."))),
    };
    let (_, end) = DecodedBits::decode(bytes, pos, store, order)?;
    Ok(end)
}

} // verus!

verus! {

/// The error of a type whose nesting does not end.
fn endless() -> (e: DecodeError)
    ensures
        e matches DecodeError::Error(m) && m@ == "Type nesting does not end."@,
{
    DecodeError::Error(copy_str("Type nesting does not end."))
}

/// A found variant is one of `vs[i..]` with the sought index.
pub proof fn lemma_find_variant(vs: Seq<VariantInfo>, index: u8, i: nat)
    ensures
        find_variant(vs, index, i) matches Some(k) ==> i <= k < vs.len() && vs[k as int].index == index,
    decreases vs.len() - i,
{
    if i < vs.len() && vs[i as int].index != index {
        lemma_find_variant(vs, index, i + 1);
    }
}

pub(crate) fn find_variant_exec(vs: &Vec<VariantInfo>, index: u8) -> (r: Option<usize>)
    ensures
        r matches Some(k) ==> find_variant(vs@, index, 0) == Some(k as nat) && k < vs.len(),
        r is None ==> find_variant(vs@, index, 0) is None,
{
    let mut i: usize = 0;
    while i < vs.len()
        invariant
            i <= vs.len(),
            find_variant(vs@, index, 0) == find_variant(vs@, index, i as nat),
        decreases vs.len() - i,
    {
        if vs[i].index == index {
            return Some(i);
        }
        i = i + 1;
    }
    None
}

fn walk_type_exec(types: &Vec<TypeInfo>, id: u32, bytes: &[u8], pos: usize, compact: bool, fuel: usize) -> (r: Result<usize, DecodeError>)
    requires
        wf_types(types@),
        id < types.len(),
        pos <= bytes.len(),
        !(walk_type(types@, id, bytes@, pos as int, compact, fuel as nat) is Panic),
    ensures
        walk_matches(walk_type(types@, id, bytes@, pos as int, compact, fuel as nat), r),
        r matches Ok(q) ==> pos <= q <= bytes.len(),
    decreases bytes.len() - pos, fuel, 3nat, 0nat,
{
    let ty = get_metadata_type(types, id);
    assert(refs_in(types@[id as int].def, types.len() as nat));
    match &ty.def {
        TypeDefinition::Primitive(p) => {
            if compact {
                decode_compact_primitive(*p, bytes, pos)
            } else {
                decode_primitive(*p, bytes, pos)
            }
        },
        TypeDefinition::Composite(fs) => walk_fields_exec(types, fs, 0, bytes, pos, pos, compact, fuel),
        TypeDefinition::Tuple(fs) => walk_fields_exec(types, fs, 0, bytes, pos, pos, compact, fuel),
        TypeDefinition::Array(len, t) => walk_repeat_exec(types, *t, *len as u64, bytes, pos, pos, compact, fuel),
        TypeDefinition::Compact(t) => {
            if fuel == 0 {
                Err(endless())
            } else {
                walk_type_exec(types, *t, bytes, pos, true, fuel - 1)
            }
        },
        TypeDefinition::Variant(vs) => {
            let index = codec_u8(bytes, pos).map_err(err)?;
            match find_variant_exec(vs, index) {
                Some(k) => {
                    proof {
                        lemma_find_variant(vs@, index, 0);
                    }
                    assert(ids_in(vs@[k as int].fields@, types.len() as nat));
                    walk_fields_exec(types, &vs[k].fields, 0, bytes, pos + 1, pos, compact, fuel)
                },
                None => Err(err(copy_str("Unknown variant index."))),
            }
        },
        TypeDefinition::Sequence(t) => {
            let (count, after) = read_compact_u32(bytes, pos).map_err(err)?;
            walk_repeat_exec(types, *t, count as u64, bytes, after, pos, compact, fuel)
        },
        TypeDefinition::BitSequence(s, o) => {
            let store = get_metadata_type(types, *s);
            let order = get_metadata_type(types, *o);
            decode_bit_sequence(store, order, bytes, pos)
        },
    }
}

fn walk_fields_exec(types: &Vec<TypeInfo>, ids: &Vec<u32>, i: usize, bytes: &[u8], pos: usize, entry: usize, compact: bool, fuel: usize) -> (r: Result<usize, DecodeError>)
    requires
        wf_types(types@),
        ids_in(ids@, types.len() as nat),
        i <= ids.len(),
        entry <= pos <= bytes.len(),
        !(walk_fields(types@, ids@, i as nat, bytes@, pos as int, entry as int, compact, fuel as nat) is Panic),
    ensures
        walk_matches(walk_fields(types@, ids@, i as nat, bytes@, pos as int, entry as int, compact, fuel as nat), r),
        r matches Ok(q) ==> pos <= q <= bytes.len(),
    decreases bytes.len() - entry, fuel, 2nat, ids.len() - i,
{
    if i >= ids.len() {
        return Ok(pos);
    }
    if pos == entry && fuel == 0 {
        return Err(endless());
    }
    let child_fuel = if pos > entry { types.len() } else { fuel - 1 };
    let p = walk_type_exec(types, ids[i], bytes, pos, compact, child_fuel)?;
    walk_fields_exec(types, ids, i + 1, bytes, p, entry, compact, fuel)
}

fn walk_repeat_exec(types: &Vec<TypeInfo>, id: u32, count: u64, bytes: &[u8], pos: usize, entry: usize, compact: bool, fuel: usize) -> (r: Result<usize, DecodeError>)
    requires
        wf_types(types@),
        id < types.len(),
        entry <= pos <= bytes.len(),
        !(walk_repeat(types@, id, count as nat, bytes@, pos as int, entry as int, compact, fuel as nat) is Panic),
    ensures
        walk_matches(walk_repeat(types@, id, count as nat, bytes@, pos as int, entry as int, compact, fuel as nat), r),
        r matches Ok(q) ==> pos <= q <= bytes.len(),
    decreases bytes.len() - entry, fuel, 1nat, count,
{
    if count == 0 {
        return Ok(pos);
    }
    if pos == entry && fuel == 0 {
        return Err(endless());
    }
    let child_fuel = if pos > entry { types.len() } else { fuel - 1 };
    let p = walk_type_exec(types, id, bytes, pos, compact, child_fuel)?;
    walk_repeat_exec(types, id, count - 1, bytes, p, entry, compact, fuel)
}

/// The walk of a value of registry type `id` at `pos`, with a full budget.
pub open spec fn field_walk(types: Seq<TypeInfo>, id: u32, bytes: Seq<u8>, pos: int, compact: bool) -> Walk {
    walk_type(types, id, bytes, pos, compact, types.len())
}

/// Decodes the value of registry type `field_type` at `pos` and gives the position after
/// it; the value itself is not kept. `is_compact` makes every primitive inside it
/// compact-encoded. A walk that would go on forever, reaching a type again without
/// reading a byte, is an error.
pub fn decode_field(types: &Vec<TypeInfo>, field_type: u32, bytes: &[u8], pos: usize, is_compact: bool) -> (r: Result<usize, DecodeError>)
    requires
        wf_types(types@),
        field_type < types.len(),
        pos <= bytes.len(),
        !(field_walk(types@, field_type, bytes@, pos as int, is_compact) is Panic),
    ensures
        walk_matches(field_walk(types@, field_type, bytes@, pos as int, is_compact), r),
        r matches Ok(q) ==> pos <= q <= bytes.len(),
{
    walk_type_exec(types, field_type, bytes, pos, is_compact, types.len())
}

} // verus!
