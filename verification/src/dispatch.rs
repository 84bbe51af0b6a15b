//! The outcome of a dispatch as events report it: weights, dispatch information, dispatch
//! errors and results, in the SCALE layouts of the runtimes before and after the changes
//! of their encoding.
use crate::codec::{codec_u64, codec_u8, le_at};
use crate::error::DecodeError;
use crate::metadata::{is_dispatch_error_legacy, is_weight_legacy};
use crate::staking::{compact_at, read_compact_u64_at};
use crate::strings::copy_str;
use vstd::prelude::*;

verus! {

/// The class of a dispatch.
#[derive(Clone, Copy, Debug, PartialEq, Eq)]
pub enum DispatchClass {
    Normal,
    Operational,
    Mandatory,
}

/// Whether a dispatch pays its fee.
#[derive(Clone, Copy, Debug, PartialEq, Eq)]
pub enum Pays {
    Yes,
    No,
}

/// The weight of a dispatch: its computation time and the size of its proof.
#[derive(Clone, Copy, Debug, PartialEq, Eq)]
pub struct Weight {
    pub ref_time: u64,
    pub proof_size: u64,
}

/// What a dispatch weighed, its class and whether it paid its fee.
#[derive(Clone, Copy, Debug, PartialEq, Eq)]
pub struct DispatchInfo {
    pub weight: Weight,
    pub class: DispatchClass,
    pub pays_fee: Pays,
}

/// An error raised by a pallet: the pallet's index and the error's encoded bytes.
#[derive(Clone, Copy, Debug, PartialEq, Eq)]
pub struct ModuleError {
    pub index: u8,
    pub error: [u8; 4],
}

/// An error to do with tokens.
#[derive(Clone, Copy, Debug, PartialEq, Eq)]
pub enum TokenError {
    FundsUnavailable,
    OnlyProvider,
    BelowMinimum,
    CannotCreate,
    UnknownAsset,
    Frozen,
    Unsupported,
    CannotCreateHold,
    NotExpendable,
    Blocked,
}

/// An arithmetic error.
#[derive(Clone, Copy, Debug, PartialEq, Eq)]
pub enum ArithmeticError {
    Underflow,
    Overflow,
    DivisionByZero,
}

/// An error of the transactional layers.
#[derive(Clone, Copy, Debug, PartialEq, Eq)]
pub enum TransactionalError {
    LimitReached,
    NoLayer,
}

/// Why a dispatch failed.
#[derive(Clone, Copy, Debug, PartialEq, Eq)]
pub enum DispatchError {
    Other,
    CannotLookup,
    BadOrigin,
    Module(ModuleError),
    ConsumerRemaining,
    NoProviders,
    TooManyConsumers,
    Token(TokenError),
    Arithmetic(ArithmeticError),
    Transactional(TransactionalError),
    Exhausted,
    Corruption,
    Unavailable,
    RootNotAllowed,
}

/// The token error whose tag is `t`.
pub open spec fn token_error_of(t: u8) -> Option<TokenError> {
    if t == 0 {
        Some(TokenError::FundsUnavailable)
    } else if t == 1 {
        Some(TokenError::OnlyProvider)
    } else if t == 2 {
        Some(TokenError::BelowMinimum)
    } else if t == 3 {
        Some(TokenError::CannotCreate)
    } else if t == 4 {
        Some(TokenError::UnknownAsset)
    } else if t == 5 {
        Some(TokenError::Frozen)
    } else if t == 6 {
        Some(TokenError::Unsupported)
    } else if t == 7 {
        Some(TokenError::CannotCreateHold)
    } else if t == 8 {
        Some(TokenError::NotExpendable)
    } else if t == 9 {
        Some(TokenError::Blocked)
    } else {
        None
    }
}

/// The arithmetic error whose tag is `t`.
pub open spec fn arithmetic_error_of(t: u8) -> Option<ArithmeticError> {
    if t == 0 {
        Some(ArithmeticError::Underflow)
    } else if t == 1 {
        Some(ArithmeticError::Overflow)
    } else if t == 2 {
        Some(ArithmeticError::DivisionByZero)
    } else {
        None
    }
}

/// The transactional error whose tag is `t`.
pub open spec fn transactional_error_of(t: u8) -> Option<TransactionalError> {
    if t == 0 {
        Some(TransactionalError::LimitReached)
    } else if t == 1 {
        Some(TransactionalError::NoLayer)
    } else {
        None
    }
}

/// The error bytes of a module error whose bytes are `s`.
pub open spec fn error_bytes(s: Seq<u8>) -> [u8; 4] {
    choose|a: [u8; 4]| a@ == s
}

/// A dispatch error in the layout of the runtimes before 9190: a module error carries one
/// byte, and there are no transactional, exhaustion, corruption, unavailability or root
/// errors.
#[derive(Clone, Copy, Debug, PartialEq, Eq)]
pub enum LegacyDispatchError {
    Other,
    CannotLookup,
    BadOrigin,
    Module { index: u8, error: u8 },
    ConsumerRemaining,
    NoProviders,
    TooManyConsumers,
    Token(TokenError),
    Arithmetic(ArithmeticError),
}

/// The dispatch error that a legacy one stands for: a module error's byte becomes the
/// first of four.
pub open spec fn legacy_meaning(e: LegacyDispatchError) -> DispatchError {
    match e {
        LegacyDispatchError::Other => DispatchError::Other,
        LegacyDispatchError::CannotLookup => DispatchError::CannotLookup,
        LegacyDispatchError::BadOrigin => DispatchError::BadOrigin,
        LegacyDispatchError::Module { index, error } => DispatchError::Module(
            ModuleError { index, error: error_bytes(seq![error, 0u8, 0u8, 0u8]) },
        ),
        LegacyDispatchError::ConsumerRemaining => DispatchError::ConsumerRemaining,
        LegacyDispatchError::NoProviders => DispatchError::NoProviders,
        LegacyDispatchError::TooManyConsumers => DispatchError::TooManyConsumers,
        LegacyDispatchError::Token(t) => DispatchError::Token(t),
        LegacyDispatchError::Arithmetic(a) => DispatchError::Arithmetic(a),
    }
}

impl DispatchError {
    /// The dispatch error that a legacy one stands for.
    pub fn from(legacy_error: LegacyDispatchError) -> (e: DispatchError)
        ensures
            e == legacy_meaning(legacy_error),
    {
        match legacy_error {
            LegacyDispatchError::Other => DispatchError::Other,
            LegacyDispatchError::CannotLookup => DispatchError::CannotLookup,
            LegacyDispatchError::BadOrigin => DispatchError::BadOrigin,
            LegacyDispatchError::Module { index, error } => {
                let bytes: [u8; 4] = [error, 0, 0, 0];
                proof {
                    assert(bytes@ =~= seq![error, 0u8, 0u8, 0u8]);
                    let c = error_bytes(seq![error, 0u8, 0u8, 0u8]);
                    assert(c@ == bytes@);
                    assert(c =~= bytes);
                }
                DispatchError::Module(ModuleError { index, error: bytes })
            },
            LegacyDispatchError::ConsumerRemaining => DispatchError::ConsumerRemaining,
            LegacyDispatchError::NoProviders => DispatchError::NoProviders,
            LegacyDispatchError::TooManyConsumers => DispatchError::TooManyConsumers,
            LegacyDispatchError::Token(t) => DispatchError::Token(t),
            LegacyDispatchError::Arithmetic(a) => DispatchError::Arithmetic(a),
        }
    }
}

/// The legacy dispatch error at `pos` in `b`, and the position after it.
pub open spec fn legacy_dispatch_error_at(b: Seq<u8>, pos: int) -> Option<(LegacyDispatchError, nat)> {
    if pos < 0 || pos >= b.len() {
        None
    } else {
        let t = b[pos];
        if t == 3 {
            if pos + 3 <= b.len() {
                Some((LegacyDispatchError::Module { index: b[pos + 1], error: b[pos + 2] }, (pos + 3) as nat))
            } else {
                None
            }
        } else if t == 7 || t == 8 {
            if pos + 2 <= b.len() {
                if t == 7 {
                    match token_error_of(b[pos + 1]) {
                        Some(e) => Some((LegacyDispatchError::Token(e), (pos + 2) as nat)),
                        None => None,
                    }
                } else {
                    match arithmetic_error_of(b[pos + 1]) {
                        Some(e) => Some((LegacyDispatchError::Arithmetic(e), (pos + 2) as nat)),
                        None => None,
                    }
                }
            } else {
                None
            }
        } else if t == 0 {
            Some((LegacyDispatchError::Other, (pos + 1) as nat))
        } else if t == 1 {
            Some((LegacyDispatchError::CannotLookup, (pos + 1) as nat))
        } else if t == 2 {
            Some((LegacyDispatchError::BadOrigin, (pos + 1) as nat))
        } else if t == 4 {
            Some((LegacyDispatchError::ConsumerRemaining, (pos + 1) as nat))
        } else if t == 5 {
            Some((LegacyDispatchError::NoProviders, (pos + 1) as nat))
        } else if t == 6 {
            Some((LegacyDispatchError::TooManyConsumers, (pos + 1) as nat))
        } else {
            None
        }
    }
}

/// The error of one byte tag that carries nothing, where `t` is one.
pub open spec fn plain_error_of(t: u8) -> Option<DispatchError> {
    if t == 0 {
        Some(DispatchError::Other)
    } else if t == 1 {
        Some(DispatchError::CannotLookup)
    } else if t == 2 {
        Some(DispatchError::BadOrigin)
    } else if t == 4 {
        Some(DispatchError::ConsumerRemaining)
    } else if t == 5 {
        Some(DispatchError::NoProviders)
    } else if t == 6 {
        Some(DispatchError::TooManyConsumers)
    } else if t == 10 {
        Some(DispatchError::Exhausted)
    } else if t == 11 {
        Some(DispatchError::Corruption)
    } else if t == 12 {
        Some(DispatchError::Unavailable)
    } else if t == 13 {
        Some(DispatchError::RootNotAllowed)
    } else {
        None
    }
}

/// The dispatch error at `pos` in `b`, and the position after it; `None` where it is cut
/// short or a tag is unknown. The runtimes before 9190 (`legacy`) write it in the legacy
/// layout, which reads as the error it stands for.
pub open spec fn dispatch_error_at(b: Seq<u8>, pos: int, legacy: bool) -> Option<(DispatchError, nat)> {
    if legacy {
        match legacy_dispatch_error_at(b, pos) {
            Some((e, p)) => Some((legacy_meaning(e), p)),
            None => None,
        }
    } else if pos < 0 || pos >= b.len() {
        None
    } else {
        let t = b[pos];
        if t == 3 {
            if pos + 6 <= b.len() {
                Some((
                    DispatchError::Module(
                        ModuleError { index: b[pos + 1], error: error_bytes(b.subrange(pos + 2, pos + 6)) },
                    ),
                    (pos + 6) as nat,
                ))
            } else {
                None
            }
        } else if t == 7 || t == 8 || t == 9 {
            if pos + 2 <= b.len() {
                let s = b[pos + 1];
                if t == 7 {
                    match token_error_of(s) {
                        Some(e) => Some((DispatchError::Token(e), (pos + 2) as nat)),
                        None => None,
                    }
                } else if t == 8 {
                    match arithmetic_error_of(s) {
                        Some(e) => Some((DispatchError::Arithmetic(e), (pos + 2) as nat)),
                        None => None,
                    }
                } else {
                    match transactional_error_of(s) {
                        Some(e) => Some((DispatchError::Transactional(e), (pos + 2) as nat)),
                        None => None,
                    }
                }
            } else {
                None
            }
        } else {
            match plain_error_of(t) {
                Some(e) => Some((e, (pos + 1) as nat)),
                None => None,
            }
        }
    }
}

/// The weight at `pos` in `b` and the position after it: in the runtimes up to 9300
/// (`legacy`) one eight-byte computation time and no proof size; after them, a compact
/// computation time and a compact proof size.
pub open spec fn weight_at(b: Seq<u8>, pos: int, legacy: bool) -> Option<(Weight, nat)> {
    if legacy {
        if 0 <= pos && pos + 8 <= b.len() {
            Some((Weight { ref_time: le_at(b, pos, 8) as u64, proof_size: 0 }, (pos + 8) as nat))
        } else {
            None
        }
    } else {
        match compact_at(b, pos, 8) {
            None => None,
            Some((t, l)) => match compact_at(b, pos + l, 8) {
                None => None,
                Some((p, m)) => Some((Weight { ref_time: t as u64, proof_size: p as u64 }, (pos + l + m) as nat)),
            },
        }
    }
}

/// The dispatch class whose tag is `t`.
pub open spec fn dispatch_class_of(t: u8) -> Option<DispatchClass> {
    if t == 0 {
        Some(DispatchClass::Normal)
    } else if t == 1 {
        Some(DispatchClass::Operational)
    } else if t == 2 {
        Some(DispatchClass::Mandatory)
    } else {
        None
    }
}

/// The dispatch information at `pos` in `b` (weight, class, fee payment) and the position
/// after it.
pub open spec fn dispatch_info_at(b: Seq<u8>, pos: int, legacy_weight: bool) -> Option<(DispatchInfo, nat)> {
    match weight_at(b, pos, legacy_weight) {
        None => None,
        Some((w, p)) => if p + 2 <= b.len() {
            match dispatch_class_of(b[p as int]) {
                None => None,
                Some(c) => {
                    let f = b[p + 1int];
                    if f == 0 {
                        Some((DispatchInfo { weight: w, class: c, pays_fee: Pays::Yes }, p + 2))
                    } else if f == 1 {
                        Some((DispatchInfo { weight: w, class: c, pays_fee: Pays::No }, p + 2))
                    } else {
                        None
                    }
                },
            }
        } else {
            None
        },
    }
}

/// The dispatch result at `pos` in `b` and the position after it: tag 0 for success, tag 1
/// and the dispatch error for failure.
pub open spec fn dispatch_result_at(b: Seq<u8>, pos: int, legacy: bool) -> Option<(Result<(), DispatchError>, nat)> {
    if pos < 0 || pos >= b.len() {
        None
    } else if b[pos] == 0 {
        Some((Ok(()), (pos + 1) as nat))
    } else if b[pos] == 1 {
        match dispatch_error_at(b, pos + 1, legacy) {
            Some((e, p)) => Some((Err(e), p)),
            None => None,
        }
    } else {
        None
    }
}

/// The error of a value that could not be read.
fn cannot_decode(what: &str) -> (e: DecodeError)
    ensures
        e matches DecodeError::Error(m) && m@ == what@,
{
    DecodeError::Error(copy_str(what))
}

/// Reads the byte at `pos`.
fn read_byte(bytes: &[u8], pos: usize) -> (r: Result<u8, DecodeError>)
    requires
        pos <= bytes.len(),
    ensures
        r is Ok <==> pos < bytes.len(),
        r matches Ok(v) ==> v == bytes@[pos as int],
{
    match codec_u8(bytes, pos) {
        Ok(v) => Ok(v),
        Err(e) => Err(DecodeError::Error(e)),
    }
}

/// Reads the token error whose tag is at `pos`.
fn read_token_error(bytes: &[u8], pos: usize) -> (r: Result<TokenError, DecodeError>)
    requires
        pos <= bytes.len(),
    ensures
        r is Ok <==> pos < bytes.len() && token_error_of(bytes@[pos as int]) is Some,
        r matches Ok(e) ==> token_error_of(bytes@[pos as int]) == Some(e),
{
    let s = read_byte(bytes, pos)?;
    if s == 0 {
        Ok(TokenError::FundsUnavailable)
    } else if s == 1 {
        Ok(TokenError::OnlyProvider)
    } else if s == 2 {
        Ok(TokenError::BelowMinimum)
    } else if s == 3 {
        Ok(TokenError::CannotCreate)
    } else if s == 4 {
        Ok(TokenError::UnknownAsset)
    } else if s == 5 {
        Ok(TokenError::Frozen)
    } else if s == 6 {
        Ok(TokenError::Unsupported)
    } else if s == 7 {
        Ok(TokenError::CannotCreateHold)
    } else if s == 8 {
        Ok(TokenError::NotExpendable)
    } else if s == 9 {
        Ok(TokenError::Blocked)
    } else {
        Err(cannot_decode("Could not decode `TokenError`, variant doesn't exist"))
    }
}

/// Reads the arithmetic error whose tag is at `pos`.
fn read_arithmetic_error(bytes: &[u8], pos: usize) -> (r: Result<ArithmeticError, DecodeError>)
    requires
        pos <= bytes.len(),
    ensures
        r is Ok <==> pos < bytes.len() && arithmetic_error_of(bytes@[pos as int]) is Some,
        r matches Ok(e) ==> arithmetic_error_of(bytes@[pos as int]) == Some(e),
{
    let s = read_byte(bytes, pos)?;
    if s == 0 {
        Ok(ArithmeticError::Underflow)
    } else if s == 1 {
        Ok(ArithmeticError::Overflow)
    } else if s == 2 {
        Ok(ArithmeticError::DivisionByZero)
    } else {
        Err(cannot_decode("Could not decode `ArithmeticError`, variant doesn't exist"))
    }
}

/// Reads the legacy dispatch error at `pos`: the error and the position after it.
pub fn decode_legacy_dispatch_error(bytes: &[u8], pos: usize) -> (r: Result<(LegacyDispatchError, usize), DecodeError>)
    requires
        pos <= bytes.len(),
    ensures
        r is Ok <==> legacy_dispatch_error_at(bytes@, pos as int) is Some,
        r matches Ok((e, next)) ==> legacy_dispatch_error_at(bytes@, pos as int) == Some((e, next as nat)),
{
    let t = read_byte(bytes, pos)?;
    if t == 3 {
        let index = read_byte(bytes, pos + 1)?;
        let error = read_byte(bytes, pos + 2)?;
        Ok((LegacyDispatchError::Module { index, error }, pos + 3))
    } else if t == 7 {
        let e = read_token_error(bytes, pos + 1)?;
        Ok((LegacyDispatchError::Token(e), pos + 2))
    } else if t == 8 {
        let e = read_arithmetic_error(bytes, pos + 1)?;
        Ok((LegacyDispatchError::Arithmetic(e), pos + 2))
    } else if t == 0 {
        Ok((LegacyDispatchError::Other, pos + 1))
    } else if t == 1 {
        Ok((LegacyDispatchError::CannotLookup, pos + 1))
    } else if t == 2 {
        Ok((LegacyDispatchError::BadOrigin, pos + 1))
    } else if t == 4 {
        Ok((LegacyDispatchError::ConsumerRemaining, pos + 1))
    } else if t == 5 {
        Ok((LegacyDispatchError::NoProviders, pos + 1))
    } else if t == 6 {
        Ok((LegacyDispatchError::TooManyConsumers, pos + 1))
    } else {
        Err(cannot_decode("Cannot decode legacy dispatch error"))
    }
}

/// Reads the dispatch error at `pos` in the layout of the runtime version: the error and
/// the position after it.
pub fn decode_dispatch_error(runtime_version: u32, bytes: &[u8], pos: usize) -> (r: Result<(DispatchError, usize), DecodeError>)
    requires
        pos <= bytes.len(),
    ensures
        r is Ok <==> dispatch_error_at(bytes@, pos as int, runtime_version < 9190) is Some,
        r matches Ok((e, next)) ==> dispatch_error_at(bytes@, pos as int, runtime_version < 9190) == Some(
            (e, next as nat),
        ),
{
    if is_dispatch_error_legacy(runtime_version) {
        let (legacy_error, next) = decode_legacy_dispatch_error(bytes, pos)?;
        return Ok((DispatchError::from(legacy_error), next));
    }
    let t = read_byte(bytes, pos)?;
    if t == 3 {
        let index = read_byte(bytes, pos + 1)?;
        let e0 = read_byte(bytes, pos + 2)?;
        let e1 = read_byte(bytes, pos + 3)?;
        let e2 = read_byte(bytes, pos + 4)?;
        let e3 = read_byte(bytes, pos + 5)?;
        let error: [u8; 4] = [e0, e1, e2, e3];
        proof {
            assert(error@ =~= bytes@.subrange(pos + 2, pos + 6));
            let c = error_bytes(bytes@.subrange(pos + 2, pos + 6));
            assert(c@ == error@);
            assert(c =~= error);
        }
        Ok((DispatchError::Module(ModuleError { index, error }), pos + 6))
    } else if t == 7 {
        let e = read_token_error(bytes, pos + 1)?;
        Ok((DispatchError::Token(e), pos + 2))
    } else if t == 8 {
        let e = read_arithmetic_error(bytes, pos + 1)?;
        Ok((DispatchError::Arithmetic(e), pos + 2))
    } else if t == 9 {
        let s = read_byte(bytes, pos + 1)?;
        let e = if s == 0 {
            TransactionalError::LimitReached
        } else if s == 1 {
            TransactionalError::NoLayer
        } else {
            return Err(cannot_decode("Could not decode `TransactionalError`, variant doesn't exist"));
        };
        Ok((DispatchError::Transactional(e), pos + 2))
    } else {
        let e = if t == 0 {
            DispatchError::Other
        } else if t == 1 {
            DispatchError::CannotLookup
        } else if t == 2 {
            DispatchError::BadOrigin
        } else if t == 4 {
            DispatchError::ConsumerRemaining
        } else if t == 5 {
            DispatchError::NoProviders
        } else if t == 6 {
            DispatchError::TooManyConsumers
        } else if t == 10 {
            DispatchError::Exhausted
        } else if t == 11 {
            DispatchError::Corruption
        } else if t == 12 {
            DispatchError::Unavailable
        } else if t == 13 {
            DispatchError::RootNotAllowed
        } else {
            return Err(cannot_decode("Cannot decode dispatch error"));
        };
        Ok((e, pos + 1))
    }
}

/// Reads the weight at `pos` in the layout of the runtime version: the weight and the
/// position after it.
pub fn decode_weight(runtime_version: u32, bytes: &[u8], pos: usize) -> (r: Result<(Weight, usize), DecodeError>)
    requires
        pos <= bytes.len(),
    ensures
        r is Ok <==> weight_at(bytes@, pos as int, runtime_version <= 9300) is Some,
        r matches Ok((w, next)) ==> weight_at(bytes@, pos as int, runtime_version <= 9300) == Some((w, next as nat)),
{
    if is_weight_legacy(runtime_version) {
        match codec_u64(bytes, pos) {
            Ok(v) => Ok((Weight { ref_time: v, proof_size: 0 }, pos + 8)),
            Err(e) => Err(DecodeError::Error(e)),
        }
    } else {
        let (ref_time, p) = read_compact_u64_at(bytes, pos)?;
        let (proof_size, q) = read_compact_u64_at(bytes, p)?;
        Ok((Weight { ref_time, proof_size }, q))
    }
}

/// Reads the dispatch information at `pos` in the layout of the runtime version: the
/// information and the position after it.
pub fn decode_dispatch_info(runtime_version: u32, bytes: &[u8], pos: usize) -> (r: Result<(DispatchInfo, usize), DecodeError>)
    requires
        pos <= bytes.len(),
    ensures
        r is Ok <==> dispatch_info_at(bytes@, pos as int, runtime_version <= 9300) is Some,
        r matches Ok((i, next)) ==> dispatch_info_at(bytes@, pos as int, runtime_version <= 9300) == Some(
            (i, next as nat),
        ),
{
    let (weight, p) = decode_weight(runtime_version, bytes, pos)?;
    let c = read_byte(bytes, p)?;
    let class = if c == 0 {
        DispatchClass::Normal
    } else if c == 1 {
        DispatchClass::Operational
    } else if c == 2 {
        DispatchClass::Mandatory
    } else {
        return Err(cannot_decode("Could not decode `DispatchClass`, variant doesn't exist"));
    };
    let f = read_byte(bytes, p + 1)?;
    let pays_fee = if f == 0 {
        Pays::Yes
    } else if f == 1 {
        Pays::No
    } else {
        return Err(cannot_decode("Could not decode `Pays`, variant doesn't exist"));
    };
    Ok((DispatchInfo { weight, class, pays_fee }, p + 2))
}

/// Reads the dispatch result at `pos` in the layout of the runtime version: the result and
/// the position after it.
pub fn decode_dispatch_result(runtime_version: u32, bytes: &[u8], pos: usize) -> (r: Result<(Result<(), DispatchError>, usize), DecodeError>)
    requires
        pos <= bytes.len(),
    ensures
        r is Ok <==> dispatch_result_at(bytes@, pos as int, runtime_version < 9190) is Some,
        r matches Ok((v, next)) ==> dispatch_result_at(bytes@, pos as int, runtime_version < 9190) == Some(
            (v, next as nat),
        ),
{
    let t = read_byte(bytes, pos)?;
    if t == 0 {
        Ok((Ok(()), pos + 1))
    } else if t == 1 {
        let (e, next) = decode_dispatch_error(runtime_version, bytes, pos + 1)?;
        Ok((Err(e), next))
    } else {
        Err(cannot_decode("Could not decode `Result`, variant doesn't exist"))
    }
}

} // verus!
