//! A runtime's type registry and pallet list, as the decoding logic reads them,
//! and the logic over them: type codes, field skipping, constants.
use crate::codec::{codec_u32, codec_u64, le_at};
use crate::error::DecodeError;
use crate::strings::{
    copy_str, decimal, decimal_string, ends_with, ends_with_call, join_path, join_segments, push_str,
    views,
};
use vstd::prelude::*;

verus! {

/// The primitive types of a type registry.
#[derive(Clone, Copy, Debug, PartialEq, Eq)]
pub enum PrimitiveKind {
    Bool,
    Char,
    Str,
    U8,
    U16,
    U32,
    U64,
    U128,
    U256,
    I8,
    I16,
    I32,
    I64,
    I128,
    I256,
}

/// One variant of an enumeration type: its name, its index and its field types.
#[derive(Clone, Debug)]
pub struct VariantInfo {
    pub name: String,
    pub index: u8,
    pub fields: Vec<u32>,
}

/// The shape of a registry type; other types are referred to by their ids.
#[derive(Clone, Debug)]
pub enum TypeDefinition {
    Composite(Vec<u32>),
    Variant(Vec<VariantInfo>),
    Sequence(u32),
    /// Length and element type.
    Array(u32, u32),
    Tuple(Vec<u32>),
    Primitive(PrimitiveKind),
    Compact(u32),
    /// Bit store type and bit order type.
    BitSequence(u32, u32),
}

/// A registry type: its id, the segments of its path, and its shape.
#[derive(Clone, Debug)]
pub struct TypeInfo {
    pub id: u32,
    pub path: Vec<String>,
    pub def: TypeDefinition,
}

/// A pallet constant: its name and its SCALE-encoded value.
#[derive(Clone, Debug)]
pub struct ConstantInfo {
    pub name: String,
    pub value: Vec<u8>,
}

/// A pallet: its name, its index, the types of its calls and events, its constants.
#[derive(Clone, Debug)]
pub struct PalletInfo {
    pub name: String,
    pub index: u8,
    pub calls_type: Option<u32>,
    pub event_type: Option<u32>,
    pub constants: Vec<ConstantInfo>,
}

/// What the decoding logic reads of a runtime's metadata.
#[derive(Clone, Debug)]
pub struct RuntimeMetadata {
    pub types: Vec<TypeInfo>,
    pub pallets: Vec<PalletInfo>,
}

/// Whether every type id in `ids` names a type of a registry of `n` types.
pub open spec fn ids_in(ids: Seq<u32>, n: nat) -> bool {
    forall|j: int| 0 <= j < ids.len() ==> ids[j] < n
}

/// Whether every field type of every variant names a type of a registry of `n` types.
pub open spec fn variants_in(vs: Seq<VariantInfo>, n: nat) -> bool {
    forall|j: int| 0 <= j < vs.len() ==> #[trigger] ids_in(vs[j].fields@, n)
}

/// Whether every type that `def` refers to exists in a registry of `n` types.
pub open spec fn refs_in(def: TypeDefinition, n: nat) -> bool {
    match def {
        TypeDefinition::Composite(fs) => ids_in(fs@, n),
        TypeDefinition::Variant(vs) => variants_in(vs@, n),
        TypeDefinition::Sequence(t) => t < n,
        TypeDefinition::Array(_, t) => t < n,
        TypeDefinition::Tuple(fs) => ids_in(fs@, n),
        TypeDefinition::Primitive(_) => true,
        TypeDefinition::Compact(t) => t < n,
        TypeDefinition::BitSequence(s, o) => s < n && o < n,
    }
}

/// A registry in which each type's id is its position and every referenced type exists.
pub open spec fn wf_types(types: Seq<TypeInfo>) -> bool {
    &&& types.len() <= u32::MAX
    &&& forall|i: int| 0 <= i < types.len() ==> (#[trigger] types[i]).id == i
    &&& forall|i: int| 0 <= i < types.len() ==> refs_in(#[trigger] types[i].def, types.len())
}

fn ids_below(ids: &Vec<u32>, n: usize) -> (b: bool)
    ensures
        b == ids_in(ids@, n as nat),
{
    let mut i: usize = 0;
    while i < ids.len()
        invariant
            i <= ids.len(),
            forall|j: int| 0 <= j < i ==> ids@[j] < n,
        decreases ids.len() - i,
    {
        if ids[i] as usize >= n {
            return false;
        }
        i = i + 1;
    }
    true
}

fn variants_below(vs: &Vec<VariantInfo>, n: usize) -> (b: bool)
    ensures
        b == variants_in(vs@, n as nat),
{
    let mut i: usize = 0;
    while i < vs.len()
        invariant
            i <= vs.len(),
            forall|j: int| 0 <= j < i ==> #[trigger] ids_in(vs@[j].fields@, n as nat),
        decreases vs.len() - i,
    {
        if !ids_below(&vs[i].fields, n) {
            assert(!ids_in(vs@[i as int].fields@, n as nat));
            return false;
        }
        i = i + 1;
    }
    true
}

fn def_refs_below(def: &TypeDefinition, n: usize) -> (b: bool)
    ensures
        b == refs_in(*def, n as nat),
{
    match def {
        TypeDefinition::Composite(fs) => ids_below(fs, n),
        TypeDefinition::Variant(vs) => variants_below(vs, n),
        TypeDefinition::Sequence(t) => (*t as usize) < n,
        TypeDefinition::Array(_, t) => (*t as usize) < n,
        TypeDefinition::Tuple(fs) => ids_below(fs, n),
        TypeDefinition::Primitive(_) => true,
        TypeDefinition::Compact(t) => (*t as usize) < n,
        TypeDefinition::BitSequence(s, o) => (*s as usize) < n && (*o as usize) < n,
    }
}

/// Whether the registry is one that the decoding logic can walk: each type's id is
/// its position and every type that a type refers to exists.
pub fn types_well_formed(types: &Vec<TypeInfo>) -> (b: bool)
    ensures
        b == wf_types(types@),
{
    if types.len() > u32::MAX as usize {
        return false;
    }
    let mut i: usize = 0;
    while i < types.len()
        invariant
            i <= types.len(),
            types.len() <= u32::MAX,
            forall|k: int| 0 <= k < i ==> (#[trigger] types@[k]).id == k,
            forall|k: int| 0 <= k < i ==> refs_in(#[trigger] types@[k].def, types.len() as nat),
        decreases types.len() - i,
    {
        if types[i].id as usize != i {
            return false;
        }
        if !def_refs_below(&types[i].def, types.len()) {
            return false;
        }
        i = i + 1;
    }
    true
}

/// The registry type with the given id.
pub fn get_metadata_type(types: &Vec<TypeInfo>, type_id: u32) -> (t: &TypeInfo)
    requires
        wf_types(types@),
        type_id < types.len(),
    ensures
        *t == types@[type_id as int],
        t.id == type_id,
{
    &types[type_id as usize]
}

// ---------------------------------------------------------------------------
// Type codes.
// ---------------------------------------------------------------------------

/// The outcome of a computation over the registry that, on a registry whose types refer to
/// each other in a cycle, may never finish: a value, a failure with a message, or no end.
pub enum Outcome<T> {
    Value(T),
    Failure(Seq<char>),
    Endless,
}

/// The code of a primitive type.
pub open spec fn primitive_code(p: PrimitiveKind) -> Seq<char> {
    match p {
        PrimitiveKind::Bool => "bool"@,
        PrimitiveKind::Str => "string"@,
        PrimitiveKind::Char => "char"@,
        PrimitiveKind::U8 => "u8"@,
        PrimitiveKind::U16 => "u16"@,
        PrimitiveKind::U32 => "u32"@,
        PrimitiveKind::U64 => "u64"@,
        PrimitiveKind::U128 => "u128"@,
        PrimitiveKind::U256 => "u256"@,
        PrimitiveKind::I8 => "i8"@,
        PrimitiveKind::I16 => "i16"@,
        PrimitiveKind::I32 => "i32"@,
        PrimitiveKind::I64 => "i64"@,
        PrimitiveKind::I128 => "i128"@,
        PrimitiveKind::I256 => "i256"@,
    }
}

/// The debug name of a primitive type.
pub open spec fn primitive_name(p: PrimitiveKind) -> Seq<char> {
    match p {
        PrimitiveKind::Bool => "Bool"@,
        PrimitiveKind::Str => "Str"@,
        PrimitiveKind::Char => "Char"@,
        PrimitiveKind::U8 => "U8"@,
        PrimitiveKind::U16 => "U16"@,
        PrimitiveKind::U32 => "U32"@,
        PrimitiveKind::U64 => "U64"@,
        PrimitiveKind::U128 => "U128"@,
        PrimitiveKind::U256 => "U256"@,
        PrimitiveKind::I8 => "I8"@,
        PrimitiveKind::I16 => "I16"@,
        PrimitiveKind::I32 => "I32"@,
        PrimitiveKind::I64 => "I64"@,
        PrimitiveKind::I128 => "I128"@,
        PrimitiveKind::I256 => "I256"@,
    }
}

/// The code of a primitive type.
pub fn get_primitive_type_code(p: PrimitiveKind) -> (code: String)
    ensures
        code@ == primitive_code(p),
{
    let s = match p {
        PrimitiveKind::Bool => "bool",
        PrimitiveKind::Str => "string",
        PrimitiveKind::Char => "char",
        PrimitiveKind::U8 => "u8",
        PrimitiveKind::U16 => "u16",
        PrimitiveKind::U32 => "u32",
        PrimitiveKind::U64 => "u64",
        PrimitiveKind::U128 => "u128",
        PrimitiveKind::U256 => "u256",
        PrimitiveKind::I8 => "i8",
        PrimitiveKind::I16 => "i16",
        PrimitiveKind::I32 => "i32",
        PrimitiveKind::I64 => "i64",
        PrimitiveKind::I128 => "i128",
        PrimitiveKind::I256 => "i256",
    };
    copy_str(s)
}

/// The debug name of a primitive type.
pub fn primitive_debug_name(p: PrimitiveKind) -> (name: String)
    ensures
        name@ == primitive_name(p),
{
    let s = match p {
        PrimitiveKind::Bool => "Bool",
        PrimitiveKind::Str => "Str",
        PrimitiveKind::Char => "Char",
        PrimitiveKind::U8 => "U8",
        PrimitiveKind::U16 => "U16",
        PrimitiveKind::U32 => "U32",
        PrimitiveKind::U64 => "U64",
        PrimitiveKind::U128 => "U128",
        PrimitiveKind::U256 => "U256",
        PrimitiveKind::I8 => "I8",
        PrimitiveKind::I16 => "I16",
        PrimitiveKind::I32 => "I32",
        PrimitiveKind::I64 => "I64",
        PrimitiveKind::I128 => "I128",
        PrimitiveKind::I256 => "I256",
    };
    copy_str(s)
}

/// The joined path of the registry type `id`.
pub open spec fn type_path(types: Seq<TypeInfo>, id: u32) -> Seq<char> {
    join_path(views(types[id as int].path@))
}

/// The code of a bit sequence with the given store and order types, or the message of
/// the failure.
pub open spec fn bit_sequence_code(store: TypeInfo, order_path: Seq<char>) -> Result<Seq<char>, Seq<char>> {
    if order_path != "bitvec::order::Lsb0"@ && order_path != "bitvec::order::Msb0"@ {
        Err("Unexpected bit sequence order: "@ + order_path)
    } else {
        let order_code = if order_path == "bitvec::order::Lsb0"@ {
            "lsb0,"@
        } else {
            "msb0,"@
        };
        match store.def {
            TypeDefinition::Primitive(p) => match p {
                PrimitiveKind::U8 => Ok("bs<"@ + order_code + "u8"@ + ">"@),
                PrimitiveKind::U16 => Ok("bs<"@ + order_code + "u16"@ + ">"@),
                PrimitiveKind::U32 => Ok("bs<"@ + order_code + "u32"@ + ">"@),
                PrimitiveKind::U64 => Ok("bs<"@ + order_code + "u64"@ + ">"@),
                PrimitiveKind::U128 => Ok("bs<"@ + order_code + "u128"@ + ">"@),
                _ => Err("Unexpected bit sequence primitive: "@ + primitive_name(p)),
            },
            _ => Err("Non-primitive type fed for bit sequence."@),
        }
    }
}

/// The code of a bit sequence whose store and order are the given registry types.
pub fn get_bit_sequence_type_code(bit_store_type: &TypeInfo, bit_order_type: &TypeInfo) -> (r: Result<String, DecodeError>)
    ensures
        match bit_sequence_code(*bit_store_type, join_path(views(bit_order_type.path@))) {
            Ok(c) => r matches Ok(s) && s@ == c,
            Err(m) => r matches Err(DecodeError::Error(e)) && e@ == m,
        },
{
    let mut code = String::new();
    push_str(&mut code, "bs<");
    let order_path = join_segments(&bit_order_type.path);
    let lsb0 = copy_str("bitvec::order::Lsb0");
    let msb0 = copy_str("bitvec::order::Msb0");
    if order_path == lsb0 {
        push_str(&mut code, "lsb0,");
    } else if order_path == msb0 {
        push_str(&mut code, "msb0,");
    } else {
        let mut msg = copy_str("Unexpected bit sequence order: ");
        push_str(&mut msg, order_path.as_str());
        return Err(DecodeError::Error(msg));
    }
    match &bit_store_type.def {
        TypeDefinition::Primitive(p) => match p {
            PrimitiveKind::U8 => push_str(&mut code, "u8"),
            PrimitiveKind::U16 => push_str(&mut code, "u16"),
            PrimitiveKind::U32 => push_str(&mut code, "u32"),
            PrimitiveKind::U64 => push_str(&mut code, "u64"),
            PrimitiveKind::U128 => push_str(&mut code, "u128"),
            _ => {
                let mut msg = copy_str("Unexpected bit sequence primitive: ");
                let name = primitive_debug_name(*p);
                push_str(&mut msg, name.as_str());
                return Err(DecodeError::Error(msg));
            },
        },
        _ => {
            return Err(DecodeError::Error(copy_str("Non-primitive type fed for bit sequence.")));
        },
    }
    push_str(&mut code, ">");
    Ok(code)
}

} // verus!

verus! {

/// The code of a type reached as a field, a tuple member or a parameter: its path where it
/// has one (`Call` for a path ending in `Call`), else the code of the type itself.
pub open spec fn ref_code(types: Seq<TypeInfo>, id: u32, fuel: nat) -> Outcome<Seq<char>>
    decreases fuel, 1nat, 0nat,
{
    let path = type_path(types, id);
    if path.len() == 0 {
        if fuel == 0 {
            Outcome::Endless
        } else {
            type_code(types, id, (fuel - 1) as nat)
        }
    } else if ends_with(path, "Call"@) {
        Outcome::Value("Call"@)
    } else {
        Outcome::Value(path)
    }
}

/// The codes of the types `ids[i..]`, separated by commas.
pub open spec fn list_code(types: Seq<TypeInfo>, ids: Seq<u32>, i: nat, fuel: nat) -> Outcome<Seq<char>>
    decreases fuel, 2nat, ids.len() - i,
{
    if i >= ids.len() {
        Outcome::Value(Seq::empty())
    } else {
        match ref_code(types, ids[i as int], fuel) {
            Outcome::Value(c) => match list_code(types, ids, i + 1, fuel) {
                Outcome::Value(r) => Outcome::Value(
                    c + (if i + 1 < ids.len() {
                        ","@
                    } else {
                        Seq::empty()
                    }) + r,
                ),
                o => o,
            },
            o => o,
        }
    }
}

/// The codes of the variants `vs[i..]`, separated by commas: each variant's name, then the
/// codes of its fields in braces where it has fields.
pub open spec fn variants_code(types: Seq<TypeInfo>, vs: Seq<VariantInfo>, i: nat, fuel: nat) -> Outcome<Seq<char>>
    decreases fuel, 3nat, vs.len() - i,
{
    if i >= vs.len() {
        Outcome::Value(Seq::empty())
    } else {
        let v = vs[i as int];
        let fields = if v.fields@.len() == 0 {
            Outcome::Value(Seq::empty())
        } else {
            match list_code(types, v.fields@, 0, fuel) {
                Outcome::Value(c) => Outcome::Value("{"@ + c + "}"@),
                o => o,
            }
        };
        match fields {
            Outcome::Value(f) => match variants_code(types, vs, i + 1, fuel) {
                Outcome::Value(r) => Outcome::Value(
                    v.name@ + f + (if i + 1 < vs.len() {
                        ","@
                    } else {
                        Seq::empty()
                    }) + r,
                ),
                o => o,
            },
            o => o,
        }
    }
}

/// The code of the registry type `id`: a compact textual description of its shape.
pub open spec fn type_code(types: Seq<TypeInfo>, id: u32, fuel: nat) -> Outcome<Seq<char>>
    decreases fuel, 4nat, 0nat,
{
    match types[id as int].def {
        TypeDefinition::Primitive(p) => Outcome::Value(primitive_code(p)),
        TypeDefinition::Composite(fs) => match list_code(types, fs@, 0, fuel) {
            Outcome::Value(c) => Outcome::Value("{"@ + c + "}"@),
            o => o,
        },
        TypeDefinition::Array(len, t) => match ref_code(types, t, fuel) {
            Outcome::Value(c) => Outcome::Value("["@ + c + ";"@ + decimal(len as nat) + "]"@),
            o => o,
        },
        TypeDefinition::Tuple(fs) => match list_code(types, fs@, 0, fuel) {
            Outcome::Value(c) => Outcome::Value("("@ + c + ")"@),
            o => o,
        },
        TypeDefinition::Compact(t) => match ref_code(types, t, fuel) {
            Outcome::Value(c) => Outcome::Value("compact<"@ + c + ">"@),
            o => o,
        },
        TypeDefinition::Variant(vs) => match variants_code(types, vs@, 0, fuel) {
            Outcome::Value(c) => Outcome::Value("var{"@ + c + "}"@),
            o => o,
        },
        TypeDefinition::Sequence(t) => match ref_code(types, t, fuel) {
            Outcome::Value(c) => Outcome::Value("seq<"@ + c + ">"@),
            o => o,
        },
        TypeDefinition::BitSequence(s, o) => match bit_sequence_code(
            types[s as int],
            type_path(types, o),
        ) {
            Ok(c) => Outcome::Value(c),
            Err(m) => Outcome::Failure(m),
        },
    }
}

/// Whether `r` is what a computation with outcome `o` gives: the value, the failure's
/// message, or an error where the walk would not end.
pub open spec fn code_matches(o: Outcome<Seq<char>>, r: Result<String, DecodeError>) -> bool {
    match o {
        Outcome::Value(c) => r matches Ok(s) && s@ == c,
        Outcome::Failure(m) => r matches Err(DecodeError::Error(e)) && e@ == m,
        Outcome::Endless => r is Err,
    }
}

/// The error of a type whose nesting does not end.
fn nesting_error() -> (e: DecodeError)
    ensures
        e matches DecodeError::Error(m) && m@ == "Type nesting does not end."@,
{
    DecodeError::Error(copy_str("Type nesting does not end."))
}

fn ref_code_exec(types: &Vec<TypeInfo>, id: u32, fuel: usize) -> (r: Result<String, DecodeError>)
    requires
        wf_types(types@),
        id < types.len(),
    ensures
        code_matches(ref_code(types@, id, fuel as nat), r),
    decreases fuel, 1nat, 0nat,
{
    let ty = get_metadata_type(types, id);
    let path = join_segments(&ty.path);
    if path.as_str().unicode_len() == 0 {
        if fuel == 0 {
            Err(nesting_error())
        } else {
            type_code_exec(types, id, fuel - 1)
        }
    } else if ends_with_call(&path) {
        Ok(copy_str("Call"))
    } else {
        Ok(path)
    }
}

fn list_code_exec(types: &Vec<TypeInfo>, ids: &Vec<u32>, i: usize, fuel: usize) -> (r: Result<String, DecodeError>)
    requires
        wf_types(types@),
        ids_in(ids@, types.len() as nat),
        i <= ids.len(),
    ensures
        code_matches(list_code(types@, ids@, i as nat, fuel as nat), r),
    decreases fuel, 2nat, ids.len() - i,
{
    if i >= ids.len() {
        return Ok(String::new());
    }
    let mut code = ref_code_exec(types, ids[i], fuel)?;
    let rest = list_code_exec(types, ids, i + 1, fuel)?;
    if i + 1 < ids.len() {
        push_str(&mut code, ",");
    }
    push_str(&mut code, rest.as_str());
    proof {
        let c = ref_code(types@, ids@[i as int], fuel as nat);
        let rr = list_code(types@, ids@, (i + 1) as nat, fuel as nat);
        if i + 1 < ids.len() {
            assert(code@ =~= c->Value_0 + ","@ + rr->Value_0);
        } else {
            assert(code@ =~= c->Value_0 + Seq::<char>::empty() + rr->Value_0);
        }
    }
    Ok(code)
}

fn variants_code_exec(types: &Vec<TypeInfo>, vs: &Vec<VariantInfo>, i: usize, fuel: usize) -> (r: Result<String, DecodeError>)
    requires
        wf_types(types@),
        variants_in(vs@, types.len() as nat),
        i <= vs.len(),
    ensures
        code_matches(variants_code(types@, vs@, i as nat, fuel as nat), r),
    decreases fuel, 3nat, vs.len() - i,
{
    if i >= vs.len() {
        return Ok(String::new());
    }
    let v = &vs[i];
    assert(ids_in(vs@[i as int].fields@, types.len() as nat));
    let mut code = copy_str(v.name.as_str());
    if v.fields.len() > 0 {
        let inner = list_code_exec(types, &v.fields, 0, fuel)?;
        push_str(&mut code, "{");
        push_str(&mut code, inner.as_str());
        push_str(&mut code, "}");
    }
    let rest = variants_code_exec(types, vs, i + 1, fuel)?;
    if i + 1 < vs.len() {
        push_str(&mut code, ",");
    }
    push_str(&mut code, rest.as_str());
    proof {
        let vv = vs@[i as int];
        let rr = variants_code(types@, vs@, (i + 1) as nat, fuel as nat);
        let f = if vv.fields@.len() == 0 {
            Seq::<char>::empty()
        } else {
            "{"@ + list_code(types@, vv.fields@, 0, fuel as nat)->Value_0 + "}"@
        };
        let sep = if i + 1 < vs.len() {
            ","@
        } else {
            Seq::<char>::empty()
        };
        assert(code@ =~= vv.name@ + f + sep + rr->Value_0);
    }
    Ok(code)
}

fn type_code_exec(types: &Vec<TypeInfo>, id: u32, fuel: usize) -> (r: Result<String, DecodeError>)
    requires
        wf_types(types@),
        id < types.len(),
    ensures
        code_matches(type_code(types@, id, fuel as nat), r),
    decreases fuel, 4nat, 0nat,
{
    let ty = get_metadata_type(types, id);
    assert(refs_in(types@[id as int].def, types.len() as nat));
    match &ty.def {
        TypeDefinition::Primitive(p) => Ok(get_primitive_type_code(*p)),
        TypeDefinition::Composite(fs) => {
            let mut code = copy_str("{");
            let inner = list_code_exec(types, fs, 0, fuel)?;
            push_str(&mut code, inner.as_str());
            push_str(&mut code, "}");
            Ok(code)
        },
        TypeDefinition::Array(len, t) => {
            let mut code = copy_str("[");
            let inner = ref_code_exec(types, *t, fuel)?;
            push_str(&mut code, inner.as_str());
            push_str(&mut code, ";");
            let digits = decimal_string(*len as u128);
            push_str(&mut code, digits.as_str());
            push_str(&mut code, "]");
            Ok(code)
        },
        TypeDefinition::Tuple(fs) => {
            let mut code = copy_str("(");
            let inner = list_code_exec(types, fs, 0, fuel)?;
            push_str(&mut code, inner.as_str());
            push_str(&mut code, ")");
            Ok(code)
        },
        TypeDefinition::Compact(t) => {
            let mut code = copy_str("compact<");
            let inner = ref_code_exec(types, *t, fuel)?;
            push_str(&mut code, inner.as_str());
            push_str(&mut code, ">");
            Ok(code)
        },
        TypeDefinition::Variant(vs) => {
            let mut code = copy_str("var{");
            let inner = variants_code_exec(types, vs, 0, fuel)?;
            push_str(&mut code, inner.as_str());
            push_str(&mut code, "}");
            Ok(code)
        },
        TypeDefinition::Sequence(t) => {
            let mut code = copy_str("seq<");
            let inner = ref_code_exec(types, *t, fuel)?;
            push_str(&mut code, inner.as_str());
            push_str(&mut code, ">");
            Ok(code)
        },
        TypeDefinition::BitSequence(s, o) => {
            let store = get_metadata_type(types, *s);
            let order = get_metadata_type(types, *o);
            get_bit_sequence_type_code(store, order)
        },
    }
}

/// The code of the registry type `type_id`. Where the type reaches itself through
/// path-less types, so that the description would never end, the result is an error.
pub fn get_type_code(types: &Vec<TypeInfo>, type_id: u32) -> (r: Result<String, DecodeError>)
    requires
        wf_types(types@),
        type_id < types.len(),
    ensures
        code_matches(type_code(types@, type_id, types.len() as nat), r),
{
    type_code_exec(types, type_id, types.len())
}

/// The codes of the types `fields[i..]`, separated by commas, each computed in full.
pub open spec fn fields_type_code(types: Seq<TypeInfo>, fields: Seq<u32>, i: nat) -> Outcome<Seq<char>>
    decreases fields.len() - i,
{
    if i >= fields.len() {
        Outcome::Value(Seq::empty())
    } else {
        match type_code(types, fields[i as int], types.len() as nat) {
            Outcome::Value(c) => match fields_type_code(types, fields, i + 1) {
                Outcome::Value(r) => Outcome::Value(
                    c + (if i + 1 < fields.len() {
                        ","@
                    } else {
                        Seq::empty()
                    }) + r,
                ),
                o => o,
            },
            o => o,
        }
    }
}

/// The code of a variant's fields: the full codes of its field types, separated by commas,
/// in braces.
pub open spec fn variant_code(types: Seq<TypeInfo>, variant: VariantInfo) -> Outcome<Seq<char>> {
    match fields_type_code(types, variant.fields@, 0) {
        Outcome::Value(c) => Outcome::Value("{"@ + c + "}"@),
        o => o,
    }
}

fn fields_type_code_exec(types: &Vec<TypeInfo>, fields: &Vec<u32>, i: usize) -> (r: Result<String, DecodeError>)
    requires
        wf_types(types@),
        ids_in(fields@, types.len() as nat),
        i <= fields.len(),
    ensures
        code_matches(fields_type_code(types@, fields@, i as nat), r),
    decreases fields.len() - i,
{
    if i >= fields.len() {
        return Ok(String::new());
    }
    let mut code = get_type_code(types, fields[i])?;
    let rest = fields_type_code_exec(types, fields, i + 1)?;
    if i + 1 < fields.len() {
        push_str(&mut code, ",");
    }
    push_str(&mut code, rest.as_str());
    proof {
        let c = type_code(types@, fields@[i as int], types.len() as nat);
        let rr = fields_type_code(types@, fields@, (i + 1) as nat);
        if i + 1 < fields.len() {
            assert(code@ =~= c->Value_0 + ","@ + rr->Value_0);
        } else {
            assert(code@ =~= c->Value_0 + Seq::<char>::empty() + rr->Value_0);
        }
    }
    Ok(code)
}

/// The code of a variant's fields, in braces.
pub fn get_variant_type_code(types: &Vec<TypeInfo>, variant: &VariantInfo) -> (r: Result<String, DecodeError>)
    requires
        wf_types(types@),
        ids_in(variant.fields@, types.len() as nat),
    ensures
        code_matches(variant_code(types@, *variant), r),
{
    let mut code = copy_str("{");
    let inner = fields_type_code_exec(types, &variant.fields, 0)?;
    push_str(&mut code, inner.as_str());
    push_str(&mut code, "}");
    Ok(code)
}

} // verus!

verus! {

// ---------------------------------------------------------------------------
// Pallets and constants.
// ---------------------------------------------------------------------------

/// The first pallet of `ps` named `name`.
pub open spec fn pallet_named(ps: Seq<PalletInfo>, name: Seq<char>) -> Option<PalletInfo>
    decreases ps.len(),
{
    if ps.len() == 0 {
        None
    } else if ps[0].name@ == name {
        Some(ps[0])
    } else {
        pallet_named(ps.drop_first(), name)
    }
}

/// The first pallet of `ps` whose index is `index`.
pub open spec fn pallet_with_index(ps: Seq<PalletInfo>, index: u8) -> Option<PalletInfo>
    decreases ps.len(),
{
    if ps.len() == 0 {
        None
    } else if ps[0].index == index {
        Some(ps[0])
    } else {
        pallet_with_index(ps.drop_first(), index)
    }
}

/// The first constant of `cs` named `name`.
pub open spec fn constant_named(cs: Seq<ConstantInfo>, name: Seq<char>) -> Option<ConstantInfo>
    decreases cs.len(),
{
    if cs.len() == 0 {
        None
    } else if cs[0].name@ == name {
        Some(cs[0])
    } else {
        constant_named(cs.drop_first(), name)
    }
}

/// The encoded value of the constant `constant` of the pallet `module`, where the metadata
/// has that pallet and the pallet that constant.
pub open spec fn metadata_constant(m: RuntimeMetadata, module: Seq<char>, constant: Seq<char>) -> Option<Seq<u8>> {
    match pallet_named(m.pallets@, module) {
        Some(p) => match constant_named(p.constants@, constant) {
            Some(c) => Some(c.value@),
            None => None,
        },
        None => None,
    }
}

/// The first pallet named `name`.
pub fn find_pallet_named<'a>(pallets: &'a Vec<PalletInfo>, name: &str) -> (r: Option<&'a PalletInfo>)
    ensures
        r matches Some(p) ==> pallet_named(pallets@, name@) == Some(*p),
        r is None ==> pallet_named(pallets@, name@) is None,
{
    let mut i: usize = 0;
    assert(pallets@.subrange(0, pallets.len() as int) =~= pallets@);
    while i < pallets.len()
        invariant
            i <= pallets.len(),
            pallet_named(pallets@, name@) == pallet_named(pallets@.subrange(i as int, pallets.len() as int), name@),
        decreases pallets.len() - i,
    {
        let ghost tail = pallets@.subrange(i as int, pallets.len() as int);
        assert(tail.drop_first() =~= pallets@.subrange(i + 1, pallets.len() as int));
        if crate::strings::str_equals(pallets[i].name.as_str(), name) {
            return Some(&pallets[i]);
        }
        i = i + 1;
    }
    None
}

/// The first pallet whose index is `index`.
pub fn find_pallet_with_index(pallets: &Vec<PalletInfo>, index: u8) -> (r: Option<&PalletInfo>)
    ensures
        r matches Some(p) ==> pallet_with_index(pallets@, index) == Some(*p),
        r is None ==> pallet_with_index(pallets@, index) is None,
{
    let mut i: usize = 0;
    assert(pallets@.subrange(0, pallets.len() as int) =~= pallets@);
    while i < pallets.len()
        invariant
            i <= pallets.len(),
            pallet_with_index(pallets@, index) == pallet_with_index(
                pallets@.subrange(i as int, pallets.len() as int),
                index,
            ),
        decreases pallets.len() - i,
    {
        let ghost tail = pallets@.subrange(i as int, pallets.len() as int);
        assert(tail.drop_first() =~= pallets@.subrange(i + 1, pallets.len() as int));
        if pallets[i].index == index {
            return Some(&pallets[i]);
        }
        i = i + 1;
    }
    None
}

/// The first constant named `name`.
pub fn find_constant_named<'a>(constants: &'a Vec<ConstantInfo>, name: &str) -> (r: Option<&'a ConstantInfo>)
    ensures
        r matches Some(c) ==> constant_named(constants@, name@) == Some(*c),
        r is None ==> constant_named(constants@, name@) is None,
{
    let mut i: usize = 0;
    assert(constants@.subrange(0, constants.len() as int) =~= constants@);
    while i < constants.len()
        invariant
            i <= constants.len(),
            constant_named(constants@, name@) == constant_named(
                constants@.subrange(i as int, constants.len() as int),
                name@,
            ),
        decreases constants.len() - i,
    {
        let ghost tail = constants@.subrange(i as int, constants.len() as int);
        assert(tail.drop_first() =~= constants@.subrange(i + 1, constants.len() as int));
        if crate::strings::str_equals(constants[i].name.as_str(), name) {
            return Some(&constants[i]);
        }
        i = i + 1;
    }
    None
}

/// The encoded value of the constant `constant_name` of the pallet `module_name`.
pub fn get_metadata_constant<'a>(metadata: &'a RuntimeMetadata, module_name: &str, constant_name: &str) -> (r: &'a Vec<u8>)
    requires
        metadata_constant(*metadata, module_name@, constant_name@) is Some,
    ensures
        r@ == metadata_constant(*metadata, module_name@, constant_name@).unwrap(),
{
    let pallet = find_pallet_named(&metadata.pallets, module_name).unwrap();
    let constant = find_constant_named(&pallet.constants, constant_name).unwrap();
    &constant.value
}

/// The constant's value read as a `u64`: its first eight bytes, little-endian.
pub open spec fn constant_u64(m: RuntimeMetadata, module: Seq<char>, constant: Seq<char>) -> Option<u64> {
    let v = metadata_constant(m, module, constant).unwrap();
    if v.len() >= 8 {
        Some(le_at(v, 0, 8) as u64)
    } else {
        None
    }
}

/// The constant's value read as a `u32`: its first four bytes, little-endian.
pub open spec fn constant_u32(m: RuntimeMetadata, module: Seq<char>, constant: Seq<char>) -> Option<u32> {
    let v = metadata_constant(m, module, constant).unwrap();
    if v.len() >= 4 {
        Some(le_at(v, 0, 4) as u32)
    } else {
        None
    }
}

/// The `u64` constant `constant_name` of the pallet `module_name`.
pub fn get_metadata_constant_u64(metadata: &RuntimeMetadata, module_name: &str, constant_name: &str) -> (r: Result<u64, DecodeError>)
    requires
        metadata_constant(*metadata, module_name@, constant_name@) is Some,
    ensures
        r is Ok <==> constant_u64(*metadata, module_name@, constant_name@) is Some,
        r matches Ok(v) ==> v == constant_u64(*metadata, module_name@, constant_name@).unwrap(),
{
    let bytes = get_metadata_constant(metadata, module_name, constant_name);
    match codec_u64(bytes.as_slice(), 0) {
        Ok(v) => Ok(v),
        Err(e) => Err(DecodeError::Error(e)),
    }
}

/// The `u32` constant `constant_name` of the pallet `module_name`.
pub fn get_metadata_constant_u32(metadata: &RuntimeMetadata, module_name: &str, constant_name: &str) -> (r: Result<u32, DecodeError>)
    requires
        metadata_constant(*metadata, module_name@, constant_name@) is Some,
    ensures
        r is Ok <==> constant_u32(*metadata, module_name@, constant_name@) is Some,
        r matches Ok(v) ==> v == constant_u32(*metadata, module_name@, constant_name@).unwrap(),
{
    let bytes = get_metadata_constant(metadata, module_name, constant_name);
    match codec_u32(bytes.as_slice(), 0) {
        Ok(v) => Ok(v),
        Err(e) => Err(DecodeError::Error(e)),
    }
}

/// The expected block time in milliseconds.
pub open spec fn block_time(m: RuntimeMetadata) -> Option<u64> {
    constant_u64(m, "Babe"@, "ExpectedBlockTime"@)
}

/// The epoch duration in blocks.
pub open spec fn epoch_blocks(m: RuntimeMetadata) -> Option<u64> {
    constant_u64(m, "Babe"@, "EpochDuration"@)
}

/// The number of sessions in an era.
pub open spec fn sessions_per_era(m: RuntimeMetadata) -> Option<u32> {
    constant_u32(m, "Staking"@, "SessionsPerEra"@)
}

/// The expected block time of the runtime, in milliseconds.
pub fn get_metadata_expected_block_time_millis(metadata: &RuntimeMetadata) -> (r: Result<u64, DecodeError>)
    requires
        metadata_constant(*metadata, "Babe"@, "ExpectedBlockTime"@) is Some,
    ensures
        r is Ok <==> block_time(*metadata) is Some,
        r matches Ok(v) ==> v == block_time(*metadata).unwrap(),
{
    get_metadata_constant_u64(metadata, "Babe", "ExpectedBlockTime")
}

/// The duration of an epoch in milliseconds: its blocks times the block time.
pub fn get_metadata_epoch_duration_millis(metadata: &RuntimeMetadata) -> (r: Result<u64, DecodeError>)
    requires
        metadata_constant(*metadata, "Babe"@, "ExpectedBlockTime"@) is Some,
        metadata_constant(*metadata, "Babe"@, "EpochDuration"@) is Some,
        block_time(*metadata) matches Some(t) && epoch_blocks(*metadata) matches Some(e) ==> e * t
            <= u64::MAX,
    ensures
        r is Ok <==> block_time(*metadata) is Some && epoch_blocks(*metadata) is Some,
        r matches Ok(v) ==> v == epoch_blocks(*metadata).unwrap() * block_time(*metadata).unwrap(),
{
    let t = get_metadata_expected_block_time_millis(metadata)?;
    let e = get_metadata_constant_u64(metadata, "Babe", "EpochDuration")?;
    Ok(e * t)
}

/// The duration of an era in milliseconds: its sessions times the blocks of an epoch times
/// the block time.
pub fn get_metadata_era_duration_millis(metadata: &RuntimeMetadata) -> (r: Result<u64, DecodeError>)
    requires
        metadata_constant(*metadata, "Babe"@, "ExpectedBlockTime"@) is Some,
        metadata_constant(*metadata, "Babe"@, "EpochDuration"@) is Some,
        metadata_constant(*metadata, "Staking"@, "SessionsPerEra"@) is Some,
        block_time(*metadata) matches Some(t) && epoch_blocks(*metadata) matches Some(e)
            && sessions_per_era(*metadata) matches Some(s) ==> e * s <= u64::MAX && e * s * t
            <= u64::MAX,
    ensures
        r is Ok <==> block_time(*metadata) is Some && epoch_blocks(*metadata) is Some
            && sessions_per_era(*metadata) is Some,
        r matches Ok(v) ==> v == epoch_blocks(*metadata).unwrap() * sessions_per_era(
            *metadata,
        ).unwrap() * block_time(*metadata).unwrap(),
{
    let s = get_metadata_constant_u32(metadata, "Staking", "SessionsPerEra")?;
    let e = get_metadata_constant_u64(metadata, "Babe", "EpochDuration")?;
    let t = get_metadata_expected_block_time_millis(metadata)?;
    let blocks = e * s as u64;
    Ok(blocks * t)
}

/// Whether a runtime of this version encodes dispatch errors in the older layout.
pub fn is_dispatch_error_legacy(runtime_version: u32) -> (b: bool)
    ensures
        b == (runtime_version < 9190),
{
    runtime_version < 9190
}

/// Whether a runtime of this version encodes weights in the older, single-number layout.
pub fn is_weight_legacy(runtime_version: u32) -> (b: bool)
    ensures
        b == (runtime_version <= 9300),
{
    runtime_version <= 9300
}

} // verus!

verus! {

// ---------------------------------------------------------------------------
// The report of a runtime's event and call type codes.
// ---------------------------------------------------------------------------

/// The report line of a variant of pallet `pname` with the type code `code`.
pub open spec fn variant_line(pname: Seq<char>, vname: Seq<char>, code: Seq<char>) -> Seq<char> {
    "        "@ + pname + "."@ + vname + " "@ + code
}

/// The report lines of the variants `vs[i..]` of pallet `pname`, and whether every code
/// was found; the lines stop before the first variant whose code is not found.
pub open spec fn variant_lines(types: Seq<TypeInfo>, pname: Seq<char>, vs: Seq<VariantInfo>, i: nat) -> (Seq<Seq<char>>, bool)
    decreases vs.len() - i,
{
    if i >= vs.len() {
        (Seq::empty(), true)
    } else {
        match variant_code(types, vs[i as int]) {
            Outcome::Value(c) => {
                let (rest, ok) = variant_lines(types, pname, vs, i + 1);
                (seq![variant_line(pname, vs[i as int].name@, c)] + rest, ok)
            },
            _ => (Seq::empty(), false),
        }
    }
}

/// The report lines of a pallet's events (`kind` is `events`) or calls: the count, then a
/// line for each variant. A pallet without events says so; one without calls says nothing.
pub open spec fn section_lines(types: Seq<TypeInfo>, pname: Seq<char>, t: Option<u32>, kind: Seq<char>, say_none: bool) -> (Seq<Seq<char>>, bool) {
    match t {
        None => if say_none {
            (seq!["    0 "@ + kind], true)
        } else {
            (Seq::empty(), true)
        },
        Some(id) => match types[id as int].def {
            TypeDefinition::Variant(vs) => {
                let (ls, ok) = variant_lines(types, pname, vs@, 0);
                (seq!["    "@ + decimal(vs.len() as nat) + " "@ + kind] + ls, ok)
            },
            _ => (Seq::empty(), false),
        },
    }
}

/// The report lines of a pallet: its name, its events, its calls.
pub open spec fn pallet_lines(types: Seq<TypeInfo>, p: PalletInfo) -> (Seq<Seq<char>>, bool) {
    let (a, ok1) = section_lines(types, p.name@, p.event_type, "events"@, true);
    if !ok1 {
        (seq![p.name@] + a, false)
    } else {
        let (b, ok2) = section_lines(types, p.name@, p.calls_type, "calls"@, false);
        (seq![p.name@] + a + b, ok2)
    }
}

/// The report lines of the pallets `ps[i..]`, up to the first failure.
pub open spec fn report_lines(types: Seq<TypeInfo>, ps: Seq<PalletInfo>, i: nat) -> (Seq<Seq<char>>, bool)
    decreases ps.len() - i,
{
    if i >= ps.len() {
        (Seq::empty(), true)
    } else {
        let (a, ok) = pallet_lines(types, ps[i as int]);
        if !ok {
            (a, false)
        } else {
            let (b, ok2) = report_lines(types, ps, i + 1);
            (a + b, ok2)
        }
    }
}

/// Whether every pallet's event and calls types exist in the registry.
pub open spec fn pallet_types_in(ps: Seq<PalletInfo>, n: nat) -> bool {
    forall|i: int|
        0 <= i < ps.len() ==> (#[trigger] ps[i]).event_type.unwrap_or(0) < n && ps[i].calls_type.unwrap_or(0) < n
            && (ps[i].event_type is Some || ps[i].calls_type is Some ==> n > 0)
}

/// The views of a list of texts.
pub open spec fn string_views(v: Seq<String>) -> Seq<Seq<char>> {
    v.map_values(|s: String| s@)
}

fn push_variant_lines(types: &Vec<TypeInfo>, pname: &str, vs: &Vec<VariantInfo>, lines: &mut Vec<String>) -> (ok: bool)
    requires
        wf_types(types@),
        variants_in(vs@, types.len() as nat),
    ensures
        string_views(final(lines)@) == string_views(old(lines)@) + variant_lines(types@, pname@, vs@, 0).0,
        ok == variant_lines(types@, pname@, vs@, 0).1,
{
    let ghost start = string_views(lines@);
    let mut i: usize = 0;
    while i < vs.len()
        invariant
            i <= vs.len(),
            wf_types(types@),
            variants_in(vs@, types.len() as nat),
            start == string_views(old(lines)@),
            variant_lines(types@, pname@, vs@, 0).1 ==> variant_lines(types@, pname@, vs@, i as nat).1,
            string_views(lines@) + variant_lines(types@, pname@, vs@, i as nat).0 == start + variant_lines(
                types@,
                pname@,
                vs@,
                0,
            ).0,
            variant_lines(types@, pname@, vs@, 0).1 == variant_lines(types@, pname@, vs@, i as nat).1,
        decreases vs.len() - i,
    {
        assert(ids_in(vs@[i as int].fields@, types.len() as nat));
        let code = get_variant_type_code(types, &vs[i]);
        match code {
            Ok(c) => {
                let mut line = copy_str("        ");
                push_str(&mut line, pname);
                push_str(&mut line, ".");
                push_str(&mut line, vs[i].name.as_str());
                push_str(&mut line, " ");
                push_str(&mut line, c.as_str());
                let ghost before = string_views(lines@);
                lines.push(line);
                proof {
                    assert(string_views(lines@) =~= before.push(line@));
                    let (rest, _) = variant_lines(types@, pname@, vs@, (i + 1) as nat);
                    assert(variant_lines(types@, pname@, vs@, i as nat).0 =~= seq![line@] + rest);
                    assert(before.push(line@) + rest =~= before + (seq![line@] + rest));
                }
                i = i + 1;
            },
            Err(_) => {
                proof {
                    assert(variant_lines(types@, pname@, vs@, i as nat).0 =~= Seq::<Seq<char>>::empty());
                    assert(string_views(lines@) + Seq::<Seq<char>>::empty() =~= string_views(lines@));
                }
                return false;
            },
        }
    }
    proof {
        assert(variant_lines(types@, pname@, vs@, i as nat).0 =~= Seq::<Seq<char>>::empty());
        assert(string_views(lines@) + Seq::<Seq<char>>::empty() =~= string_views(lines@));
    }
    true
}

fn push_section_lines(types: &Vec<TypeInfo>, pname: &str, t: Option<u32>, kind: &str, say_none: bool, lines: &mut Vec<String>) -> (ok: bool)
    requires
        wf_types(types@),
        t.unwrap_or(0) < types.len() || t is None,
    ensures
        string_views(final(lines)@) == string_views(old(lines)@) + section_lines(types@, pname@, t, kind@, say_none).0,
        ok == section_lines(types@, pname@, t, kind@, say_none).1,
{
    let ghost before = string_views(lines@);
    match t {
        None => {
            if say_none {
                let mut line = copy_str("    0 ");
                push_str(&mut line, kind);
                lines.push(line);
                assert(string_views(lines@) =~= before + seq![line@]);
            } else {
                assert(string_views(lines@) =~= before + Seq::<Seq<char>>::empty());
            }
            true
        },
        Some(id) => {
            let ty = get_metadata_type(types, id);
            match &ty.def {
                TypeDefinition::Variant(vs) => {
                    let mut line = copy_str("    ");
                    let count = decimal_string(vs.len() as u128);
                    push_str(&mut line, count.as_str());
                    push_str(&mut line, " ");
                    push_str(&mut line, kind);
                    lines.push(line);
                    assert(string_views(lines@) =~= before.push(line@));
                    let ghost mid = string_views(lines@);
                    proof {
                        assert(variants_in(vs@, types.len() as nat));
                    }
                    let ok = push_variant_lines(types, pname, vs, lines);
                    proof {
                        let (ls, _) = variant_lines(types@, pname@, vs@, 0);
                        assert(mid + ls =~= before + (seq![line@] + ls));
                    }
                    ok
                },
                _ => {
                    assert(string_views(lines@) =~= before + Seq::<Seq<char>>::empty());
                    false
                },
            }
        },
    }
}

/// The report of a runtime's pallets, each with its events and calls and the type code of
/// each, line by line; and whether it is complete. The report stops at the first event or
/// call whose code is not found, or whose type is not an enumeration.
pub fn metadata_type_code_lines(metadata: &RuntimeMetadata) -> (r: (Vec<String>, bool))
    requires
        wf_types(metadata.types@),
        pallet_types_in(metadata.pallets@, metadata.types.len() as nat),
    ensures
        string_views(r.0@) == report_lines(metadata.types@, metadata.pallets@, 0).0,
        r.1 == report_lines(metadata.types@, metadata.pallets@, 0).1,
{
    let mut lines: Vec<String> = Vec::new();
    let mut i: usize = 0;
    while i < metadata.pallets.len()
        invariant
            i <= metadata.pallets.len(),
            wf_types(metadata.types@),
            pallet_types_in(metadata.pallets@, metadata.types.len() as nat),
            string_views(lines@) + report_lines(metadata.types@, metadata.pallets@, i as nat).0 == report_lines(
                metadata.types@,
                metadata.pallets@,
                0,
            ).0,
            report_lines(metadata.types@, metadata.pallets@, 0).1 == report_lines(metadata.types@, metadata.pallets@, i as nat).1,
        decreases metadata.pallets.len() - i,
    {
        let p = &metadata.pallets[i];
        assert(metadata.pallets@[i as int] == *p);
        let ghost before = string_views(lines@);
        lines.push(p.name.clone());
        assert(string_views(lines@) =~= before.push(p.name@));
        let ghost after_name = string_views(lines@);
        let ok1 = push_section_lines(&metadata.types, p.name.as_str(), p.event_type, "events", true, &mut lines);
        let ghost after_events = string_views(lines@);
        let ghost a = section_lines(metadata.types@, p.name@, p.event_type, "events"@, true);
        if !ok1 {
            proof {
                let (rest, _) = report_lines(metadata.types@, metadata.pallets@, i as nat);
                assert(rest =~= seq![p.name@] + a.0);
                assert(string_views(lines@) =~= before + (seq![p.name@] + a.0));
            }
            return (lines, false);
        }
        let ok2 = push_section_lines(&metadata.types, p.name.as_str(), p.calls_type, "calls", false, &mut lines);
        proof {
            let b = section_lines(metadata.types@, p.name@, p.calls_type, "calls"@, false);
            let pl = seq![p.name@] + a.0 + b.0;
            assert(pallet_lines(metadata.types@, *p).0 == pl);
            assert(string_views(lines@) =~= before + pl);
            let (rest, _) = report_lines(metadata.types@, metadata.pallets@, (i + 1) as nat);
            if ok2 {
                assert(report_lines(metadata.types@, metadata.pallets@, i as nat).0 == pl + rest);
                assert(before + pl + rest =~= before + (pl + rest));
            } else {
                assert(report_lines(metadata.types@, metadata.pallets@, i as nat).0 == pl);
            }
        }
        if !ok2 {
            return (lines, false);
        }
        i = i + 1;
    }
    proof {
        assert(report_lines(metadata.types@, metadata.pallets@, i as nat).0 =~= Seq::<Seq<char>>::empty());
        assert(string_views(lines@) + Seq::<Seq<char>>::empty() =~= string_views(lines@));
    }
    (lines, true)
}

} // verus!
