//! Extrinsics: the signed header of a transaction, the calls that SubVT follows, and the
//! reading of an extrinsic that the runtime metadata drives.
use crate::bits::pow2;
use crate::codec::{
    codec_byte_vec, codec_bytes225, codec_bytes64, codec_bytes65, codec_u16, codec_u8, le_at, rest,
};
use crate::crypto::{account_hex_bytes, hex_decode};
use crate::crypto::AccountId;
use crate::error::DecodeError;
use crate::dispatch::{weight_at, Weight};
use crate::dispatch_events::Timepoint;
use crate::event::{acct, bal, fields_walk, read_account, read_balance, read_word, word};
use crate::governance::DemocracyConviction;
use crate::referendum_events::{vote_of, Vote};
use crate::field::{decode_field, find_variant, find_variant_exec, lemma_find_variant, Walk};
use crate::metadata::{
    find_pallet_with_index, get_metadata_type, ids_in, pallet_with_index, variants_in, wf_types,
    PalletInfo, RuntimeMetadata, TypeDefinition, VariantInfo,
};
use crate::staking::{
    compact_at, preferences_spec, proxy_type_of, read_compact_u128, read_compact_u32_at,
    read_compact_u64_at, reward_destination_spec, ProxyType, RewardDestination, ValidatorPreferences,
};
use crate::strings::{copy_str, str_equals, trim_hex_prefix};
use crate::substrate::{
    multi_address_at, multi_address_len, multi_address_same, Balance, Block, MultiAddress,
};
use vstd::prelude::*;
use vstd::string::*;

verus! {

// ---------------------------------------------------------------------------
// Signatures.
// ---------------------------------------------------------------------------

/// The signature of a signed extrinsic, by the kind of key that made it.
#[derive(Clone, Copy, Debug, Eq, PartialEq)]
pub enum MultiSignature {
    Ed25519([u8; 64]),
    Sr25519([u8; 64]),
    Ecdsa([u8; 65]),
}

/// The validity period of a transaction: forever, or a period and a phase in blocks.
#[derive(Clone, Copy, Debug, Eq, PartialEq)]
pub enum TransactionEra {
    Immortal,
    Mortal(u64, u64),
}

/// The signed header of an extrinsic.
#[derive(Debug)]
pub struct Signature {
    pub signer: MultiAddress,
    pub signature: MultiSignature,
    pub era: Option<TransactionEra>,
    pub nonce: Option<u32>,
    pub tip: Option<Balance>,
}

/// Whether two headers are the same.
pub open spec fn signature_same(a: Signature, b: Signature) -> bool {
    &&& multi_address_same(a.signer, b.signer)
    &&& a.signature == b.signature
    &&& a.era == b.era
    &&& a.nonce == b.nonce
    &&& a.tip == b.tip
}

/// Whether two optional headers are the same.
pub open spec fn opt_signature_same(a: Option<Signature>, b: Option<Signature>) -> bool {
    match (a, b) {
        (Some(x), Some(y)) => signature_same(x, y),
        (None, None) => true,
        _ => false,
    }
}

impl Clone for Signature {
    fn clone(&self) -> (r: Self)
        ensures
            signature_same(r, *self),
    {
        Signature {
            signer: self.signer.clone(),
            signature: self.signature,
            era: self.era,
            nonce: self.nonce,
            tip: self.tip,
        }
    }
}

/// A copy of an optional header.
pub fn clone_signature(s: &Option<Signature>) -> (r: Option<Signature>)
    ensures
        opt_signature_same(r, *s),
{
    match s {
        Some(x) => Some(x.clone()),
        None => None,
    }
}

impl Signature {
    /// The account of the signer, where it is given by its id.
    pub fn get_signer_account_id(&self) -> (r: Option<AccountId>)
        ensures
            r == (match self.signer {
                MultiAddress::Id(a) => Some(a),
                _ => None,
            }),
    {
        self.signer.get_account_id()
    }
}

/// The encoded length of the signature at `pos`: a tag, then 64 bytes (Ed25519, Sr25519)
/// or 65 (ECDSA).
pub open spec fn signature_len(b: Seq<u8>, pos: int) -> Option<nat> {
    if pos >= b.len() {
        None
    } else if b[pos] == 0 || b[pos] == 1 {
        if pos + 65 <= b.len() {
            Some(65)
        } else {
            None
        }
    } else if b[pos] == 2 {
        if pos + 66 <= b.len() {
            Some(66)
        } else {
            None
        }
    } else {
        None
    }
}

/// Whether `s` is the signature at `pos`.
pub open spec fn signature_at(b: Seq<u8>, pos: int, s: MultiSignature) -> bool {
    match s {
        MultiSignature::Ed25519(x) => b[pos] == 0 && x@ == b.subrange(pos + 1, pos + 65),
        MultiSignature::Sr25519(x) => b[pos] == 1 && x@ == b.subrange(pos + 1, pos + 65),
        MultiSignature::Ecdsa(x) => b[pos] == 2 && x@ == b.subrange(pos + 1, pos + 66),
    }
}

/// Reads the signature at `pos`.
fn decode_multi_signature(bytes: &[u8], pos: usize) -> (r: Result<(MultiSignature, usize), DecodeError>)
    requires
        pos <= bytes.len(),
    ensures
        r is Ok <==> signature_len(bytes@, pos as int) is Some,
        r matches Ok((s, next)) ==> signature_at(bytes@, pos as int, s) && next == pos + signature_len(bytes@, pos as int).unwrap(),
{
    let tag = match codec_u8(bytes, pos) {
        Ok(t) => t,
        Err(e) => return Err(DecodeError::Error(e)),
    };
    if tag == 0 || tag == 1 {
        let x = match codec_bytes64(bytes, pos + 1) {
            Ok(x) => x,
            Err(e) => return Err(DecodeError::Error(e)),
        };
        if tag == 0 {
            Ok((MultiSignature::Ed25519(x), pos + 65))
        } else {
            Ok((MultiSignature::Sr25519(x), pos + 65))
        }
    } else if tag == 2 {
        let x = match codec_bytes65(bytes, pos + 1) {
            Ok(x) => x,
            Err(e) => return Err(DecodeError::Error(e)),
        };
        Ok((MultiSignature::Ecdsa(x), pos + 66))
    } else {
        Err(DecodeError::Error(copy_str("Could not decode `MultiSignature`, variant doesn't exist")))
    }
}

/// The two-byte mortal era code at `pos`, little-endian.
pub open spec fn era_code(b: Seq<u8>, pos: int) -> nat {
    (b[pos] + b[pos + 1] * 256) as nat
}

/// The period of a mortal era code: two to the power of one more than its low four bits.
pub open spec fn era_period(code: nat) -> nat {
    pow2(code % 16 + 1)
}

/// The phase of a mortal era code: its high twelve bits, scaled by the period's
/// quantization factor (the period divided by 4096, and at least 1).
pub open spec fn era_phase(code: nat) -> nat {
    let q = era_period(code) / 4096;
    (code / 16) * (if q >= 1 {
        q
    } else {
        1
    })
}

/// The era at `pos` and its encoded length: one zero byte for an immortal era, else two
/// bytes whose period is at least 4 and exceeds the phase.
pub open spec fn era_at(b: Seq<u8>, pos: int) -> Option<(TransactionEra, nat)> {
    if pos >= b.len() {
        None
    } else if b[pos] == 0 {
        Some((TransactionEra::Immortal, 1))
    } else if pos + 2 <= b.len() && era_period(era_code(b, pos)) >= 4 && era_phase(era_code(b, pos))
        < era_period(era_code(b, pos)) {
        Some((TransactionEra::Mortal(era_period(era_code(b, pos)) as u64, era_phase(era_code(b, pos)) as u64), 2))
    } else {
        None
    }
}

/// Reads the era at `pos`.
fn decode_era(bytes: &[u8], pos: usize) -> (r: Result<(TransactionEra, usize), DecodeError>)
    requires
        pos <= bytes.len(),
    ensures
        r is Ok <==> era_at(bytes@, pos as int) is Some,
        r matches Ok((e, next)) ==> e == era_at(bytes@, pos as int).unwrap().0 && next == pos + era_at(bytes@, pos as int).unwrap().1,
{
    let first = match codec_u8(bytes, pos) {
        Ok(t) => t,
        Err(e) => return Err(DecodeError::Error(e)),
    };
    if first == 0 {
        return Ok((TransactionEra::Immortal, pos + 1));
    }
    let second = match codec_u8(bytes, pos + 1) {
        Ok(t) => t,
        Err(e) => return Err(DecodeError::Error(e)),
    };
    let code: u64 = first as u64 + (second as u64) * 256;
    let k = code % 16;
    let mut period: u64 = 2;
    let mut j: u64 = 0;
    proof {
        reveal_with_fuel(pow2, 2);
    }
    while j < k
        invariant
            j <= k,
            k < 16,
            period == pow2((j + 1) as nat),
            period <= 65536,
        decreases k - j,
    {
        proof {
            assert(pow2((j + 2) as nat) == 2 * pow2((j + 1) as nat));
            lemma_pow2_le((j + 2) as nat, 16);
            reveal_with_fuel(pow2, 17);
            assert(pow2(16) == 65536);
        }
        period = period * 2;
        j = j + 1;
    }
    let q = period / 4096;
    let factor = if q >= 1 {
        q
    } else {
        1
    };
    proof {
        assert(code / 16 < 4096);
        assert(factor <= 16);
        assert((code / 16) * factor <= 4096 * 16) by (nonlinear_arith)
            requires
                code / 16 < 4096,
                factor <= 16,
        ;
    }
    let phase = (code / 16) * factor;
    if period >= 4 && phase < period {
        Ok((TransactionEra::Mortal(period, phase), pos + 2))
    } else {
        Err(DecodeError::Error(copy_str("Invalid period and phase")))
    }
}

/// `2^k` grows with `k`.
proof fn lemma_pow2_le(k: nat, n: nat)
    requires
        k <= n,
    ensures
        pow2(k) <= pow2(n),
    decreases n - k,
{
    if k < n {
        lemma_pow2_le(k, (n - 1) as nat);
    }
}

/// The signed header at `pos` (after the version byte) and where it ends: the signer's
/// address, the signature, the era, the compact nonce, the compact tip and one byte of
/// extension data. `None` where it does not decode.
pub open spec fn signed_header_end(b: Seq<u8>, pos: int) -> Option<nat> {
    match multi_address_len(b, pos) {
        None => None,
        Some(a) => match signature_len(b, pos + a) {
            None => None,
            Some(s) => match era_at(b, pos + a + s) {
                None => None,
                Some((_, e)) => match compact_at(b, pos + a + s + e, 4) {
                    None => None,
                    Some((_, l1)) => match compact_at(b, pos + a + s + e + l1, 16) {
                        None => None,
                        Some((_, l2)) => if pos + a + s + e + l1 + l2 < b.len() {
                            Some((pos + a + s + e + l1 + l2 + 1) as nat)
                        } else {
                            None
                        },
                    },
                },
            },
        },
    }
}

/// Whether `sig` is the signed header at `pos`, which decodes.
pub open spec fn signed_header_is(b: Seq<u8>, pos: int, sig: Signature) -> bool {
    let a = multi_address_len(b, pos).unwrap() as int;
    let s = signature_len(b, pos + a).unwrap() as int;
    let (era, e) = era_at(b, pos + a + s).unwrap();
    let (nonce, l1) = compact_at(b, pos + a + s + e, 4).unwrap();
    let (tip, _) = compact_at(b, pos + a + s + e + l1, 16).unwrap();
    &&& multi_address_at(b, pos, sig.signer)
    &&& signature_at(b, pos + a, sig.signature)
    &&& sig.era == Some(era)
    &&& sig.nonce == Some(nonce as u32)
    &&& sig.tip == Some(tip as u128)
}

/// Reads the signed header at `pos` (after the version byte).
pub fn decode_signed_header(bytes: &[u8], pos: usize) -> (r: Result<(Signature, usize), DecodeError>)
    requires
        pos <= bytes.len(),
    ensures
        r is Ok <==> signed_header_end(bytes@, pos as int) is Some,
        r matches Ok((s, next)) ==> signed_header_is(bytes@, pos as int, s) && next == signed_header_end(bytes@, pos as int).unwrap() && next <= bytes.len(),
{
    let (signer, p1) = MultiAddress::decode(bytes, pos)?;
    let (signature, p2) = decode_multi_signature(bytes, p1)?;
    let (era, p3) = decode_era(bytes, p2)?;
    let (nonce, p4) = read_compact_u32_at(bytes, p3)?;
    let (tip, p5) = read_compact_u128(bytes, p4)?;
    match codec_u8(bytes, p5) {
        Ok(_) => {},
        Err(e) => return Err(DecodeError::Error(e)),
    }
    let sig = Signature { signer, signature, era: Some(era), nonce: Some(nonce), tip: Some(tip) };
    Ok((sig, p5 + 1))
}

// ---------------------------------------------------------------------------
// Staking and timestamp calls.
// ---------------------------------------------------------------------------

/// The staking calls that SubVT follows.
#[derive(Debug)]
pub enum StakingExtrinsic {
    Bond { maybe_signature: Option<Signature>, amount: Balance, reward_destination: RewardDestination },
    Nominate { maybe_signature: Option<Signature>, targets: Vec<MultiAddress> },
    PayoutStakers { maybe_signature: Option<Signature>, validator_account_id: AccountId, era_index: u32 },
    PayoutStakersByPage {
        maybe_signature: Option<Signature>,
        validator_account_id: AccountId,
        era_index: u32,
        page_index: u32,
    },
    Validate { maybe_signature: Option<Signature>, preferences: ValidatorPreferences },
}

/// Where the `k`-th of a list of addresses that starts at `start` begins.
pub open spec fn address_pos(b: Seq<u8>, start: nat, k: nat) -> nat
    decreases k,
{
    if k == 0 {
        start
    } else {
        let p = address_pos(b, start, (k - 1) as nat);
        match multi_address_len(b, p as int) {
            Some(l) => p + l,
            None => p,
        }
    }
}

/// Whether the first `n` addresses from `start` decode.
pub open spec fn addresses_ok(b: Seq<u8>, start: nat, n: nat) -> bool
    decreases n,
{
    if n == 0 {
        true
    } else {
        addresses_ok(b, start, (n - 1) as nat) && multi_address_len(b, address_pos(b, start, (n - 1) as nat) as int) is Some
    }
}

/// If address `i` does not decode, no longer list that holds it does.
proof fn lemma_addresses_fail(b: Seq<u8>, start: nat, i: nat, n: nat)
    requires
        i < n,
        multi_address_len(b, address_pos(b, start, i) as int) is None,
    ensures
        !addresses_ok(b, start, n),
    decreases n,
{
    if i + 1 < n {
        lemma_addresses_fail(b, start, i, (n - 1) as nat);
    }
}

/// Whether the staking call `name` with its arguments at `pos` decodes.
pub open spec fn staking_call_ok(name: Seq<char>, b: Seq<u8>, pos: int) -> bool {
    if name == "bond"@ {
        compact_at(b, pos, 16) matches Some((_, l)) && reward_destination_spec(rest(b, pos + l)) is Some
    } else if name == "nominate"@ {
        compact_at(b, pos, 4) matches Some((n, l)) && addresses_ok(b, (pos + l) as nat, n)
    } else if name == "payout_stakers"@ {
        pos + 36 <= b.len()
    } else if name == "payout_stakers_by_page"@ {
        pos + 40 <= b.len()
    } else if name == "validate"@ {
        preferences_spec(rest(b, pos)) is Some
    } else {
        true
    }
}

/// Whether `r` is what the staking call `name` with its arguments at `pos`, signed with
/// `sig`, decodes to (`None` where SubVT does not follow the call).
pub open spec fn staking_call_is(name: Seq<char>, b: Seq<u8>, pos: int, sig: Option<Signature>, r: Option<StakingExtrinsic>) -> bool {
    if name == "bond"@ {
        let (amount, l) = compact_at(b, pos, 16).unwrap();
        r matches Some(StakingExtrinsic::Bond { maybe_signature, amount: a, reward_destination }) && opt_signature_same(maybe_signature, sig)
            && a == amount && reward_destination == reward_destination_spec(rest(b, pos + l)).unwrap()
    } else if name == "nominate"@ {
        let (n, l) = compact_at(b, pos, 4).unwrap();
        r matches Some(StakingExtrinsic::Nominate { maybe_signature, targets }) && opt_signature_same(maybe_signature, sig)
            && targets.len() == n && forall|k: int|
            0 <= k < n ==> multi_address_at(b, address_pos(b, (pos + l) as nat, k as nat) as int, #[trigger] targets@[k])
    } else if name == "payout_stakers"@ {
        r matches Some(StakingExtrinsic::PayoutStakers { maybe_signature, validator_account_id, era_index }) && opt_signature_same(maybe_signature, sig)
            && validator_account_id == acct(b, pos) && era_index == word(b, pos + 32)
    } else if name == "payout_stakers_by_page"@ {
        r matches Some(StakingExtrinsic::PayoutStakersByPage { maybe_signature, validator_account_id, era_index, page_index })
            && opt_signature_same(maybe_signature, sig) && validator_account_id == acct(b, pos) && era_index == word(b, pos + 32)
            && page_index == word(b, pos + 36)
    } else if name == "validate"@ {
        r matches Some(StakingExtrinsic::Validate { maybe_signature, preferences }) && opt_signature_same(maybe_signature, sig)
            && preferences == preferences_spec(rest(b, pos)).unwrap()
    } else {
        r is None
    }
}

/// Where the arguments at `pos` of the staking call `name`, which decode, end.
pub open spec fn staking_call_end(name: Seq<char>, b: Seq<u8>, pos: int) -> nat {
    if name == "bond"@ {
        let (_, l) = compact_at(b, pos, 16).unwrap();
        if b[pos + l] == 3 {
            (pos + l + 33) as nat
        } else {
            (pos + l + 1) as nat
        }
    } else if name == "nominate"@ {
        let (n, l) = compact_at(b, pos, 4).unwrap();
        address_pos(b, (pos + l) as nat, n)
    } else if name == "payout_stakers"@ {
        (pos + 36) as nat
    } else if name == "payout_stakers_by_page"@ {
        (pos + 40) as nat
    } else if name == "validate"@ {
        (pos + compact_at(b, pos, 4).unwrap().1 + 1) as nat
    } else {
        pos as nat
    }
}

/// Whether SubVT follows the staking call `name`.
pub open spec fn staking_followed(name: Seq<char>) -> bool {
    name == "bond"@ || name == "nominate"@ || name == "payout_stakers"@ || name == "payout_stakers_by_page"@
        || name == "validate"@
}

/// Reads `count` addresses from `pos`.
fn decode_addresses(bytes: &[u8], pos: usize, count: u32) -> (r: Result<(Vec<MultiAddress>, usize), DecodeError>)
    requires
        pos <= bytes.len(),
    ensures
        r is Ok <==> addresses_ok(bytes@, pos as nat, count as nat),
        r matches Ok((v, end)) ==> v.len() == count && forall|k: int|
            0 <= k < count ==> multi_address_at(bytes@, address_pos(bytes@, pos as nat, k as nat) as int, #[trigger] v@[k]),
        r matches Ok((v, end)) ==> end == address_pos(bytes@, pos as nat, count as nat) && pos <= end <= bytes.len(),
{
    let mut v: Vec<MultiAddress> = Vec::new();
    let mut q = pos;
    let mut i: u32 = 0;
    while i < count
        invariant
            i <= count,
            pos <= q <= bytes.len(),
            q == address_pos(bytes@, pos as nat, i as nat),
            addresses_ok(bytes@, pos as nat, i as nat),
            v.len() == i,
            forall|k: int|
                0 <= k < i ==> multi_address_at(bytes@, address_pos(bytes@, pos as nat, k as nat) as int, #[trigger] v@[k]),
        decreases count - i,
    {
        let (a, next) = match MultiAddress::decode(bytes, q) {
            Ok(x) => x,
            Err(e) => {
                proof {
                    lemma_addresses_fail(bytes@, pos as nat, i as nat, count as nat);
                }
                return Err(e);
            },
        };
        v.push(a);
        q = next;
        i = i + 1;
    }
    Ok((v, q))
}

impl StakingExtrinsic {
    /// Reads the staking call `name` with its arguments at `pos`: the call and where its
    /// arguments end; `None` (and `pos`) where SubVT does not follow that call.
    pub fn decode(name: &str, maybe_signature: &Option<Signature>, bytes: &[u8], pos: usize) -> (r: Result<(Option<StakingExtrinsic>, usize), DecodeError>)
        requires
            pos <= bytes.len(),
        ensures
            r is Ok <==> staking_call_ok(name@, bytes@, pos as int),
            r matches Ok((x, end)) ==> {
                &&& staking_call_is(name@, bytes@, pos as int, *maybe_signature, x)
                &&& x is Some <==> staking_followed(name@)
                &&& end == staking_call_end(name@, bytes@, pos as int)
                &&& pos <= end <= bytes.len()
            },
    {
        proof {
            assert(rest(rest(bytes@, pos as int), 0) =~= rest(bytes@, pos as int));
        }
        if str_equals(name, "bond") {
            let (amount, p) = read_compact_u128(bytes, pos)?;
            let tail = vstd::slice::slice_subrange(bytes, p, bytes.len());
            let destination = RewardDestination::from_bytes(tail)?;
            let end = if bytes[p] == 3 { p + 33 } else { p + 1 };
            Ok((Some(StakingExtrinsic::Bond { maybe_signature: clone_signature(maybe_signature), amount, reward_destination: destination }), end))
        } else if str_equals(name, "nominate") {
            let (count, p) = read_compact_u32_at(bytes, pos)?;
            let (targets, end) = decode_addresses(bytes, p, count)?;
            Ok((Some(StakingExtrinsic::Nominate { maybe_signature: clone_signature(maybe_signature), targets }), end))
        } else if str_equals(name, "payout_stakers") {
            let v = read_account(bytes, pos)?;
            let era = read_word(bytes, pos + 32)?;
            Ok((Some(StakingExtrinsic::PayoutStakers { maybe_signature: clone_signature(maybe_signature), validator_account_id: v, era_index: era }), pos + 36))
        } else if str_equals(name, "payout_stakers_by_page") {
            let v = read_account(bytes, pos)?;
            let era = read_word(bytes, pos + 32)?;
            let page = read_word(bytes, pos + 36)?;
            Ok(
                (
                    Some(
                        StakingExtrinsic::PayoutStakersByPage {
                            maybe_signature: clone_signature(maybe_signature),
                            validator_account_id: v,
                            era_index: era,
                            page_index: page,
                        },
                    ),
                    pos + 40,
                ),
            )
        } else if str_equals(name, "validate") {
            let tail = vstd::slice::slice_subrange(bytes, pos, bytes.len());
            let preferences = ValidatorPreferences::decode(tail)?;
            let (_, p) = read_compact_u32_at(bytes, pos)?;
            Ok((Some(StakingExtrinsic::Validate { maybe_signature: clone_signature(maybe_signature), preferences }), p + 1))
        } else {
            Ok((None, pos))
        }
    }
}

/// The timestamp calls.
#[derive(Debug)]
pub enum TimestampExtrinsic {
    SetTime { maybe_signature: Option<Signature>, timestamp: u64 },
}

impl TimestampExtrinsic {
    /// Reads the timestamp call `name` with its arguments at `pos`: `set` carries a compact
    /// time; other calls are not followed. Gives where the arguments end (`pos` for a call
    /// that is not followed).
    pub fn decode(name: &str, maybe_signature: &Option<Signature>, bytes: &[u8], pos: usize) -> (r: Result<(Option<TimestampExtrinsic>, usize), DecodeError>)
        requires
            pos <= bytes.len(),
        ensures
            name@ != "set"@ ==> (r matches Ok((None, end)) && end == pos),
            name@ == "set"@ ==> (r is Ok <==> compact_at(bytes@, pos as int, 8) is Some),
            name@ == "set"@ ==> (r matches Ok((x, end)) ==> x matches Some(TimestampExtrinsic::SetTime { maybe_signature: s, timestamp })
                && opt_signature_same(s, *maybe_signature) && timestamp == compact_at(bytes@, pos as int, 8).unwrap().0
                && end == pos + compact_at(bytes@, pos as int, 8).unwrap().1 && end <= bytes.len()),
    {
        if str_equals(name, "set") {
            let (t, end) = read_compact_u64_at(bytes, pos)?;
            Ok((Some(TimestampExtrinsic::SetTime { maybe_signature: clone_signature(maybe_signature), timestamp: t }), end))
        } else {
            Ok((None, pos))
        }
    }
}

// ---------------------------------------------------------------------------
// Conviction-voting calls.
// ---------------------------------------------------------------------------

/// A vote in a poll of open governance: a standard vote with its balance, a balance split
/// for and against, or split for, against and abstaining.
#[derive(Clone, Copy, Debug, PartialEq, Eq)]
pub enum ConvictionVote {
    Standard { vote: Vote, balance: Balance },
    Split { aye: Balance, nay: Balance },
    SplitAbstain { aye: Balance, nay: Balance, abstain: Balance },
}

/// The conviction-voting calls that SubVT follows.
#[derive(Debug)]
pub enum ConvictionVotingExtrinsic {
    RemoveVote { maybe_signature: Option<Signature>, class: Option<u16>, index: u32 },
    Vote { maybe_signature: Option<Signature>, poll_index: u32, vote: ConvictionVote },
}

/// The conviction vote at `pos` in `b` and the position after it.
pub open spec fn conviction_vote_at(b: Seq<u8>, pos: int) -> Option<(ConvictionVote, nat)> {
    if pos < 0 || pos >= b.len() {
        None
    } else if b[pos] == 0 {
        if pos + 18 <= b.len() {
            match vote_of(b[pos + 1]) {
                Some(v) => Some((ConvictionVote::Standard { vote: v, balance: bal(b, pos + 2) }, (pos + 18) as nat)),
                None => None,
            }
        } else {
            None
        }
    } else if b[pos] == 1 {
        if pos + 33 <= b.len() {
            Some((ConvictionVote::Split { aye: bal(b, pos + 1), nay: bal(b, pos + 17) }, (pos + 33) as nat))
        } else {
            None
        }
    } else if b[pos] == 2 {
        if pos + 49 <= b.len() {
            Some(
                (
                    ConvictionVote::SplitAbstain { aye: bal(b, pos + 1), nay: bal(b, pos + 17), abstain: bal(b, pos + 33) },
                    (pos + 49) as nat,
                ),
            )
        } else {
            None
        }
    } else {
        None
    }
}

/// The optional two-byte number at `pos` in `b` (tag 0 for none, tag 1 and the number) and
/// the position after it.
pub open spec fn opt_u16_at(b: Seq<u8>, pos: int) -> Option<(Option<u16>, nat)> {
    if pos < 0 || pos >= b.len() {
        None
    } else if b[pos] == 0 {
        Some((None, (pos + 1) as nat))
    } else if b[pos] == 1 {
        if pos + 3 <= b.len() {
            Some((Some(le_at(b, pos + 1, 2) as u16), (pos + 3) as nat))
        } else {
            None
        }
    } else {
        None
    }
}

/// Whether SubVT follows the conviction-voting call `name`.
pub open spec fn voting_followed(name: Seq<char>) -> bool {
    name == "remove_vote"@ || name == "vote"@
}

/// Where the arguments at `pos` of the followed conviction-voting call `name` end; `None`
/// where they do not decode.
pub open spec fn voting_call_end(name: Seq<char>, b: Seq<u8>, pos: int) -> Option<nat> {
    if name == "remove_vote"@ {
        match opt_u16_at(b, pos) {
            Some((_, p)) => if p + 4 <= b.len() {
                Some(p + 4)
            } else {
                None
            },
            None => None,
        }
    } else {
        match compact_at(b, pos, 4) {
            Some((_, l)) => match conviction_vote_at(b, pos + l) {
                Some((_, e)) => Some(e),
                None => None,
            },
            None => None,
        }
    }
}

/// Whether `x` is the conviction-voting call `name` with its arguments at `pos`.
pub open spec fn voting_call_is(name: Seq<char>, b: Seq<u8>, pos: int, x: ConvictionVotingExtrinsic) -> bool {
    match x {
        ConvictionVotingExtrinsic::RemoveVote { class, index, .. } => {
            let (c, p) = opt_u16_at(b, pos).unwrap();
            &&& name == "remove_vote"@
            &&& class == c
            &&& index == word(b, p as int)
        },
        ConvictionVotingExtrinsic::Vote { poll_index, vote, .. } => {
            let (n, l) = compact_at(b, pos, 4).unwrap();
            &&& name == "vote"@
            &&& poll_index as nat == n
            &&& vote == conviction_vote_at(b, pos + l).unwrap().0
        },
    }
}

/// The header that a conviction-voting call carries.
pub open spec fn voting_signature(x: ConvictionVotingExtrinsic) -> Option<Signature> {
    match x {
        ConvictionVotingExtrinsic::RemoveVote { maybe_signature, .. } => maybe_signature,
        ConvictionVotingExtrinsic::Vote { maybe_signature, .. } => maybe_signature,
    }
}

/// The error of a value that could not be read.
fn cannot_decode(what: &str) -> (e: DecodeError)
    ensures
        e matches DecodeError::Error(m) && m@ == what@,
{
    DecodeError::Error(copy_str(what))
}

/// Reads the byte at `pos`.
fn read_byte(bytes: &[u8], pos: usize) -> (r: Result<u8, DecodeError>)
    requires
        pos <= bytes.len(),
    ensures
        r is Ok <==> pos < bytes.len(),
        r matches Ok(v) ==> v == bytes@[pos as int],
{
    match codec_u8(bytes, pos) {
        Ok(v) => Ok(v),
        Err(e) => Err(DecodeError::Error(e)),
    }
}

/// Reads the conviction vote at `pos`: the vote and the position after it.
fn read_conviction_vote(bytes: &[u8], pos: usize) -> (r: Result<(ConvictionVote, usize), DecodeError>)
    requires
        pos <= bytes.len(),
    ensures
        r is Ok <==> conviction_vote_at(bytes@, pos as int) is Some,
        r matches Ok((v, e)) ==> conviction_vote_at(bytes@, pos as int) == Some((v, e as nat)),
{
    let t = read_byte(bytes, pos)?;
    if t == 0 {
        let v = read_byte(bytes, pos + 1)?;
        let c = v % 128;
        let conviction = if c == 0 {
            DemocracyConviction::NoLock
        } else if c == 1 {
            DemocracyConviction::Locked1x
        } else if c == 2 {
            DemocracyConviction::Locked2x
        } else if c == 3 {
            DemocracyConviction::Locked3x
        } else if c == 4 {
            DemocracyConviction::Locked4x
        } else if c == 5 {
            DemocracyConviction::Locked5x
        } else if c == 6 {
            DemocracyConviction::Locked6x
        } else {
            return Err(cannot_decode("Invalid conviction"));
        };
        let balance = read_balance(bytes, pos + 2)?;
        Ok((ConvictionVote::Standard { vote: Vote { aye: v >= 128, conviction }, balance }, pos + 18))
    } else if t == 1 {
        let aye = read_balance(bytes, pos + 1)?;
        let nay = read_balance(bytes, pos + 17)?;
        Ok((ConvictionVote::Split { aye, nay }, pos + 33))
    } else if t == 2 {
        let aye = read_balance(bytes, pos + 1)?;
        let nay = read_balance(bytes, pos + 17)?;
        let abstain = read_balance(bytes, pos + 33)?;
        Ok((ConvictionVote::SplitAbstain { aye, nay, abstain }, pos + 49))
    } else {
        Err(cannot_decode("Could not decode `AccountVote`, variant doesn't exist"))
    }
}

impl ConvictionVotingExtrinsic {
    /// Reads the conviction-voting call `name` with its arguments at `pos`: the call and
    /// where its arguments end; `None` (and `pos`) where SubVT does not follow that call.
    pub fn decode(name: &str, maybe_signature: &Option<Signature>, bytes: &[u8], pos: usize) -> (r: Result<(Option<ConvictionVotingExtrinsic>, usize), DecodeError>)
        requires
            pos <= bytes.len(),
        ensures
            r is Ok <==> (voting_followed(name@) ==> voting_call_end(name@, bytes@, pos as int) is Some),
            r matches Ok((None, e)) ==> !voting_followed(name@) && e == pos,
            r matches Ok((Some(x), e)) ==> {
                &&& voting_followed(name@)
                &&& voting_call_end(name@, bytes@, pos as int) == Some(e as nat)
                &&& pos < e <= bytes.len()
                &&& voting_call_is(name@, bytes@, pos as int, x)
                &&& opt_signature_same(voting_signature(x), *maybe_signature)
            },
    {
        if str_equals(name, "remove_vote") {
            let t = read_byte(bytes, pos)?;
            let (class, p): (Option<u16>, usize) = if t == 0 {
                (None, pos + 1)
            } else if t == 1 {
                match codec_u16(bytes, pos + 1) {
                    Ok(v) => (Some(v), pos + 3),
                    Err(e) => return Err(DecodeError::Error(e)),
                }
            } else {
                return Err(cannot_decode("unexpected first byte decoding Option"));
            };
            let index = read_word(bytes, p)?;
            Ok((Some(ConvictionVotingExtrinsic::RemoveVote { maybe_signature: clone_signature(maybe_signature), class, index }), p + 4))
        } else if str_equals(name, "vote") {
            let (poll_index, p) = read_compact_u32_at(bytes, pos)?;
            let (vote, e) = read_conviction_vote(bytes, p)?;
            Ok((Some(ConvictionVotingExtrinsic::Vote { maybe_signature: clone_signature(maybe_signature), poll_index, vote }), e))
        } else {
            Ok((None, pos))
        }
    }
}

// ---------------------------------------------------------------------------
// Session calls.
// ---------------------------------------------------------------------------

/// The session calls: the setting of a validator's session keys, with its proof. Reading
/// an extrinsic does not follow them (they read as other calls); a caller that knows a call
/// to be one reads it with [`SessionExtrinsic::decode`].
#[derive(Debug)]
pub enum SessionExtrinsic {
    SetKeys { maybe_signature: Option<Signature>, session_keys: [u8; 225], proof: Vec<u8> },
}

/// Where the arguments of `set_keys` at `pos` end: 225 bytes of keys, then the proof as a
/// byte vector.
pub open spec fn set_keys_end(b: Seq<u8>, pos: int) -> Option<nat> {
    if pos + 225 <= b.len() {
        match compact_at(b, pos + 225, 4) {
            Some((n, l)) => if pos + 225 + l + n <= b.len() {
                Some((pos + 225 + l + n) as nat)
            } else {
                None
            },
            None => None,
        }
    } else {
        None
    }
}

impl SessionExtrinsic {
    /// Reads the session call `name` with its arguments at `pos`: the call and where its
    /// arguments end; `None` (and `pos`) for calls other than `set_keys`.
    pub fn decode(name: &str, maybe_signature: &Option<Signature>, bytes: &[u8], pos: usize) -> (r: Result<(Option<SessionExtrinsic>, usize), DecodeError>)
        requires
            pos <= bytes.len(),
        ensures
            name@ != "set_keys"@ ==> (r matches Ok((None, e)) && e == pos),
            name@ == "set_keys"@ ==> (r is Ok <==> set_keys_end(bytes@, pos as int) is Some),
            name@ == "set_keys"@ ==> (r matches Ok((x, e)) ==> x matches Some(
                SessionExtrinsic::SetKeys { maybe_signature: s, session_keys, proof },
            ) && {
                let (n, l) = compact_at(bytes@, pos + 225, 4).unwrap();
                &&& opt_signature_same(s, *maybe_signature)
                &&& session_keys@ == bytes@.subrange(pos as int, pos + 225)
                &&& proof@ == bytes@.subrange(pos + 225 + l, pos + 225 + l + n)
                &&& e == set_keys_end(bytes@, pos as int).unwrap()
            }),
    {
        if str_equals(name, "set_keys") {
            let session_keys = match codec_bytes225(bytes, pos) {
                Ok(k) => k,
                Err(e) => return Err(DecodeError::Error(e)),
            };
            let proof = match codec_byte_vec(bytes, pos + 225) {
                Ok(v) => v,
                Err(e) => return Err(DecodeError::Error(e)),
            };
            let (n, q) = read_compact_u32_at(bytes, pos + 225)?;
            proof {
                let (m, l) = compact_at(bytes@, pos + 225, 4).unwrap();
                assert(rest(bytes@, pos + 225).subrange(l as int, (l + m) as int) =~= bytes@.subrange(
                    pos + 225 + l,
                    pos + 225 + l + m,
                ));
            }
            let end = q + proof.len();
            Ok((Some(SessionExtrinsic::SetKeys { maybe_signature: clone_signature(maybe_signature), session_keys, proof }), end))
        } else {
            Ok((None, pos))
        }
    }
}

// ---------------------------------------------------------------------------
// Calls that carry calls: batches, multisig and proxy calls.
// ---------------------------------------------------------------------------

/// The batch calls, each with the calls it carries.
#[derive(Debug)]
pub enum UtilityExtrinsic {
    Batch { maybe_signature: Option<Signature>, calls: Vec<SubstrateExtrinsic> },
    BatchAll { maybe_signature: Option<Signature>, calls: Vec<SubstrateExtrinsic> },
    ForceBatch { maybe_signature: Option<Signature>, calls: Vec<SubstrateExtrinsic> },
}

/// The multisig calls that SubVT follows, each with the call it carries.
#[derive(Debug)]
pub enum MultisigExtrinsic {
    AsMulti {
        maybe_signature: Option<Signature>,
        threshold: u16,
        other_signatories: Vec<AccountId>,
        maybe_timepoint: Option<Timepoint>,
        call: Box<SubstrateExtrinsic>,
        max_weight: Weight,
    },
    AsMultiThreshold1 { maybe_signature: Option<Signature>, other_signatories: Vec<AccountId>, call: Box<SubstrateExtrinsic> },
}

/// The proxy calls that SubVT follows, each with the call it carries.
#[derive(Debug)]
pub enum ProxyExtrinsic {
    Proxy {
        maybe_signature: Option<Signature>,
        real: MultiAddress,
        force_proxy_type: Option<ProxyType>,
        call: Box<SubstrateExtrinsic>,
    },
    ProxyAnnounced {
        maybe_signature: Option<Signature>,
        delegate: MultiAddress,
        real: MultiAddress,
        force_proxy_type: Option<ProxyType>,
        call: Box<SubstrateExtrinsic>,
    },
}

/// An extrinsic: a call that SubVT follows, or another, known by its pallet and name.
#[derive(Debug)]
pub enum SubstrateExtrinsic {
    ConvictionVoting(ConvictionVotingExtrinsic),
    Multisig(MultisigExtrinsic),
    Proxy(ProxyExtrinsic),
    Session(SessionExtrinsic),
    Staking(StakingExtrinsic),
    Timestamp(TimestampExtrinsic),
    Utility(UtilityExtrinsic),
    Other { module_name: String, call_name: String, signature: Option<Signature> },
}

/// The header that a staking call carries.
pub open spec fn staking_signature(e: StakingExtrinsic) -> Option<Signature> {
    match e {
        StakingExtrinsic::Bond { maybe_signature, .. } => maybe_signature,
        StakingExtrinsic::Nominate { maybe_signature, .. } => maybe_signature,
        StakingExtrinsic::PayoutStakers { maybe_signature, .. } => maybe_signature,
        StakingExtrinsic::PayoutStakersByPage { maybe_signature, .. } => maybe_signature,
        StakingExtrinsic::Validate { maybe_signature, .. } => maybe_signature,
    }
}

/// The header that a timestamp call carries.
pub open spec fn timestamp_signature(e: TimestampExtrinsic) -> Option<Signature> {
    match e {
        TimestampExtrinsic::SetTime { maybe_signature, .. } => maybe_signature,
    }
}

/// The header that a batch call carries.
pub open spec fn utility_signature(e: UtilityExtrinsic) -> Option<Signature> {
    match e {
        UtilityExtrinsic::Batch { maybe_signature, .. } => maybe_signature,
        UtilityExtrinsic::BatchAll { maybe_signature, .. } => maybe_signature,
        UtilityExtrinsic::ForceBatch { maybe_signature, .. } => maybe_signature,
    }
}

/// The header that a multisig call carries.
pub open spec fn multisig_signature(e: MultisigExtrinsic) -> Option<Signature> {
    match e {
        MultisigExtrinsic::AsMulti { maybe_signature, .. } => maybe_signature,
        MultisigExtrinsic::AsMultiThreshold1 { maybe_signature, .. } => maybe_signature,
    }
}

/// The header that a proxy call carries.
pub open spec fn proxy_signature(e: ProxyExtrinsic) -> Option<Signature> {
    match e {
        ProxyExtrinsic::Proxy { maybe_signature, .. } => maybe_signature,
        ProxyExtrinsic::ProxyAnnounced { maybe_signature, .. } => maybe_signature,
    }
}

/// The calls that a batch call carries.
pub open spec fn utility_calls(e: UtilityExtrinsic) -> Seq<SubstrateExtrinsic> {
    match e {
        UtilityExtrinsic::Batch { calls, .. } => calls@,
        UtilityExtrinsic::BatchAll { calls, .. } => calls@,
        UtilityExtrinsic::ForceBatch { calls, .. } => calls@,
    }
}

/// The call that a multisig or proxy call carries.
pub open spec fn carried_call(x: SubstrateExtrinsic) -> Option<SubstrateExtrinsic> {
    match x {
        SubstrateExtrinsic::Multisig(MultisigExtrinsic::AsMulti { call, .. }) => Some(*call),
        SubstrateExtrinsic::Multisig(MultisigExtrinsic::AsMultiThreshold1 { call, .. }) => Some(*call),
        SubstrateExtrinsic::Proxy(ProxyExtrinsic::Proxy { call, .. }) => Some(*call),
        SubstrateExtrinsic::Proxy(ProxyExtrinsic::ProxyAnnounced { call, .. }) => Some(*call),
        _ => None,
    }
}

/// The header that an extrinsic carries.
pub open spec fn ext_signature(x: SubstrateExtrinsic) -> Option<Signature> {
    match x {
        SubstrateExtrinsic::ConvictionVoting(e) => voting_signature(e),
        SubstrateExtrinsic::Multisig(e) => multisig_signature(e),
        SubstrateExtrinsic::Proxy(e) => proxy_signature(e),
        SubstrateExtrinsic::Session(SessionExtrinsic::SetKeys { maybe_signature, .. }) => maybe_signature,
        SubstrateExtrinsic::Staking(e) => staking_signature(e),
        SubstrateExtrinsic::Timestamp(e) => timestamp_signature(e),
        SubstrateExtrinsic::Utility(e) => utility_signature(e),
        SubstrateExtrinsic::Other { signature, .. } => signature,
    }
}

/// Whether SubVT follows the batch call `name`.
pub open spec fn utility_followed(name: Seq<char>) -> bool {
    name == "batch"@ || name == "batch_all"@ || name == "force_batch"@
}

/// Whether SubVT follows the multisig call `name`.
pub open spec fn multisig_followed(name: Seq<char>) -> bool {
    name == "as_multi"@ || name == "as_multi_threshold_1"@
}

/// Whether SubVT follows the proxy call `name`.
pub open spec fn proxy_followed(name: Seq<char>) -> bool {
    name == "proxy"@ || name == "proxy_announced"@
}

/// Whether SubVT follows the call `cname` of the pallet `pname`.
pub open spec fn call_followed(pname: Seq<char>, cname: Seq<char>) -> bool {
    if pname == "ConvictionVoting"@ {
        voting_followed(cname)
    } else if pname == "Multisig"@ {
        multisig_followed(cname)
    } else if pname == "Proxy"@ {
        proxy_followed(cname)
    } else if pname == "Staking"@ {
        staking_followed(cname)
    } else if pname == "Timestamp"@ {
        cname == "set"@
    } else if pname == "Utility"@ {
        utility_followed(cname)
    } else {
        false
    }
}

/// Where the list of accounts at `pos` in `b` (a compact count, then 32 bytes each) ends.
pub open spec fn accounts_end(b: Seq<u8>, pos: int) -> Option<nat> {
    match compact_at(b, pos, 4) {
        Some((n, l)) => if pos + l + 32 * n <= b.len() {
            Some((pos + l + 32 * n) as nat)
        } else {
            None
        },
        None => None,
    }
}

/// Whether `v` is the list of accounts at `pos` in `b`, which decodes.
pub open spec fn accounts_are(b: Seq<u8>, pos: int, v: Seq<AccountId>) -> bool {
    let (n, l) = compact_at(b, pos, 4).unwrap();
    &&& v.len() == n
    &&& forall|k: int| 0 <= k < n ==> #[trigger] v[k] == acct(b, pos + l + 32 * k)
}

/// The optional time point at `pos` in `b` and the position after it.
pub open spec fn timepoint_opt_at(b: Seq<u8>, pos: int) -> Option<(Option<Timepoint>, nat)> {
    if pos < 0 || pos >= b.len() {
        None
    } else if b[pos] == 0 {
        Some((None, (pos + 1) as nat))
    } else if b[pos] == 1 {
        if pos + 9 <= b.len() {
            Some((Some(Timepoint { height: word(b, pos + 1), index: word(b, pos + 5) }), (pos + 9) as nat))
        } else {
            None
        }
    } else {
        None
    }
}

/// The optional proxy type at `pos` in `b` and the position after it.
pub open spec fn opt_proxy_type_at(b: Seq<u8>, pos: int) -> Option<(Option<ProxyType>, nat)> {
    if pos < 0 || pos >= b.len() {
        None
    } else if b[pos] == 0 {
        Some((None, (pos + 1) as nat))
    } else if b[pos] == 1 {
        if pos + 2 <= b.len() {
            match proxy_type_of(b[pos + 1]) {
                Some(t) => Some((Some(t), (pos + 2) as nat)),
                None => None,
            }
        } else {
            None
        }
    } else {
        None
    }
}

// ---------------------------------------------------------------------------
// How an extrinsic reads.
// ---------------------------------------------------------------------------

/// How reading an extrinsic, or a run of its parts, goes.
pub enum Reading {
    /// An error is raised.
    Bad,
    /// Reading panics: the metadata lacks what the bytes name, or a call's fields do not
    /// walk.
    Panics,
    /// Reading succeeds and ends at this position.
    Good(nat),
}

/// Where the call of the extrinsic at `pos` starts: at `pos` where the header is given
/// (`signed`), else after the version byte and, where that byte marks a signed extrinsic,
/// after the signed header.
pub open spec fn call_begin(b: Seq<u8>, pos: int, signed: bool) -> Option<nat> {
    if signed {
        Some(pos as nat)
    } else if pos >= b.len() {
        None
    } else if b[pos] >= 128 {
        signed_header_end(b, pos + 1)
    } else {
        Some((pos + 1) as nat)
    }
}

/// Whether `s` is the header of the extrinsic at `pos`: the given one, the signed header
/// read, or none.
pub open spec fn header_is(b: Seq<u8>, pos: int, given: Option<Signature>, s: Option<Signature>) -> bool {
    if given is Some {
        opt_signature_same(s, given)
    } else if b[pos] >= 128 {
        s is Some && signed_header_is(b, pos + 1, s.unwrap())
    } else {
        s is None
    }
}

/// How the call at `p` names its pallet and variant.
pub enum CallHead {
    /// The indices are cut short, or the calls type is not an enumeration.
    Bad,
    /// The metadata lacks the pallet, its calls type or the variant; reading panics.
    Panics,
    /// The pallet and the variant of the call.
    Good(PalletInfo, VariantInfo),
}

/// The pallet and variant of the call at `p`.
pub open spec fn call_head(m: RuntimeMetadata, b: Seq<u8>, p: int) -> CallHead {
    if p + 2 > b.len() {
        CallHead::Bad
    } else {
        match pallet_with_index(m.pallets@, b[p]) {
            None => CallHead::Panics,
            Some(pallet) => match pallet.calls_type {
                None => CallHead::Panics,
                Some(t) => if t >= m.types.len() {
                    CallHead::Panics
                } else {
                    match m.types@[t as int].def {
                        TypeDefinition::Variant(vs) => match find_variant(vs@, b[p + 1], 0) {
                            None => CallHead::Panics,
                            Some(k) => CallHead::Good(pallet, vs@[k as int]),
                        },
                        _ => CallHead::Bad,
                    }
                },
            },
        }
    }
}

/// How the fields of the variant `v`, walked from `ap` as the metadata describes them,
/// read: a walk that fails panics.
pub open spec fn walk_reading(m: RuntimeMetadata, v: VariantInfo, b: Seq<u8>, ap: int) -> Reading {
    match fields_walk(m.types@, v.fields@, 0, b, ap) {
        Walk::Done(e) => Reading::Good(e),
        _ => Reading::Panics,
    }
}

/// How the arguments at `ap` of the call `cn` of the pallet `pn` read, where SubVT follows
/// that call (`None` where it does not); `s` where the call carries a header.
pub open spec fn followed_reading(m: RuntimeMetadata, pn: Seq<char>, cn: Seq<char>, b: Seq<u8>, ap: int, s: bool) -> Option<Reading>
    decreases b.len() - ap, 3nat,
{
    if pn == "ConvictionVoting"@ {
        if voting_followed(cn) {
            Some(
                match voting_call_end(cn, b, ap) {
                    Some(e) => Reading::Good(e),
                    None => Reading::Bad,
                },
            )
        } else {
            None
        }
    } else if pn == "Multisig"@ {
        if multisig_followed(cn) {
            Some(multisig_reading(m, cn, b, ap, s))
        } else {
            None
        }
    } else if pn == "Proxy"@ {
        if proxy_followed(cn) {
            Some(proxy_reading(m, cn, b, ap, s))
        } else {
            None
        }
    } else if pn == "Staking"@ {
        if staking_followed(cn) {
            Some(
                if staking_call_ok(cn, b, ap) {
                    Reading::Good(staking_call_end(cn, b, ap))
                } else {
                    Reading::Bad
                },
            )
        } else {
            None
        }
    } else if pn == "Timestamp"@ {
        if cn == "set"@ {
            Some(
                match compact_at(b, ap, 8) {
                    Some((_, l)) => Reading::Good((ap + l) as nat),
                    None => Reading::Bad,
                },
            )
        } else {
            None
        }
    } else if pn == "Utility"@ {
        if utility_followed(cn) {
            Some(utility_reading(m, b, ap, s))
        } else {
            None
        }
    } else {
        None
    }
}

/// How the extrinsic at `pos` reads; `signed` where its header is given. The arguments of a
/// call start after its header; the bound on where they start never binds, and makes the
/// recursion through carried calls visibly shrink.
pub open spec fn ext_reading(m: RuntimeMetadata, b: Seq<u8>, pos: int, signed: bool) -> Reading
    decreases b.len() - pos, 3nat,
{
    if pos < 0 || pos > b.len() {
        Reading::Bad
    } else {
        match call_begin(b, pos, signed) {
            None => Reading::Bad,
            Some(p) => match call_head(m, b, p as int) {
                CallHead::Bad => Reading::Bad,
                CallHead::Panics => Reading::Panics,
                CallHead::Good(pallet, v) => {
                    let ap = (p + 2) as int;
                    let s = signed || b[pos] >= 128;
                    if ap > b.len() || ap <= pos {
                        Reading::Bad
                    } else {
                        match followed_reading(m, pallet.name@, v.name@, b, ap, s) {
                            Some(r) => r,
                            None => walk_reading(m, v, b, ap),
                        }
                    }
                },
            },
        }
    }
}

/// How the `k` calls from `q` read, one after another. Each call that reads ends after it
/// starts; the bound that says so never binds.
pub open spec fn calls_reading(m: RuntimeMetadata, b: Seq<u8>, q: int, s: bool, k: nat) -> Reading
    decreases b.len() - q, 4nat,
{
    if k == 0 {
        Reading::Good(q as nat)
    } else if q < 0 || q > b.len() {
        Reading::Bad
    } else {
        match ext_reading(m, b, q, s) {
            Reading::Good(e) => if q < e && e <= b.len() {
                calls_reading(m, b, e as int, s, (k - 1) as nat)
            } else {
                Reading::Bad
            },
            r => r,
        }
    }
}

/// How the arguments at `ap` of a batch call read: a compact count, then the calls.
pub open spec fn utility_reading(m: RuntimeMetadata, b: Seq<u8>, ap: int, s: bool) -> Reading
    decreases b.len() - ap, 2nat,
{
    match compact_at(b, ap, 8) {
        None => Reading::Bad,
        Some((n, l)) => if l == 0 || ap + l > b.len() {
            Reading::Bad
        } else {
            calls_reading(m, b, ap + l, s, n)
        },
    }
}

/// How the call carried at `q` by a multisig or proxy call whose arguments start at `ap`
/// reads.
pub open spec fn inner_reading(m: RuntimeMetadata, b: Seq<u8>, ap: int, q: int, s: bool) -> Reading
    decreases b.len() - ap, 1nat,
{
    if q <= ap || q > b.len() {
        Reading::Bad
    } else {
        ext_reading(m, b, q, s)
    }
}

/// How the arguments at `ap` of the followed multisig call `name` read: for `as_multi` the
/// threshold, the other signatories, the optional time point, the call and the maximum
/// weight; for `as_multi_threshold_1` the other signatories and the call.
pub open spec fn multisig_reading(m: RuntimeMetadata, name: Seq<char>, b: Seq<u8>, ap: int, s: bool) -> Reading
    decreases b.len() - ap, 2nat,
{
    if name == "as_multi"@ {
        if ap + 2 > b.len() {
            Reading::Bad
        } else {
            match accounts_end(b, ap + 2) {
                None => Reading::Bad,
                Some(e1) => match timepoint_opt_at(b, e1 as int) {
                    None => Reading::Bad,
                    Some((_, e2)) => match inner_reading(m, b, ap, e2 as int, s) {
                        Reading::Good(e3) => match weight_at(b, e3 as int, false) {
                            Some((_, e4)) => Reading::Good(e4),
                            None => Reading::Bad,
                        },
                        r => r,
                    },
                },
            }
        }
    } else {
        match accounts_end(b, ap) {
            None => Reading::Bad,
            Some(e1) => inner_reading(m, b, ap, e1 as int, s),
        }
    }
}

/// How the arguments at `ap` of the followed proxy call `name` read: for `proxy` the real
/// account, the optional proxy type and the call; for `proxy_announced` the delegate first.
pub open spec fn proxy_reading(m: RuntimeMetadata, name: Seq<char>, b: Seq<u8>, ap: int, s: bool) -> Reading
    decreases b.len() - ap, 2nat,
{
    let d = if name == "proxy"@ {
        Some(0nat)
    } else {
        multi_address_len(b, ap)
    };
    match d {
        None => Reading::Bad,
        Some(a0) => match multi_address_len(b, ap + a0) {
            None => Reading::Bad,
            Some(a1) => match opt_proxy_type_at(b, ap + a0 + a1) {
                None => Reading::Bad,
                Some((_, e)) => inner_reading(m, b, ap, e as int, s),
            },
        },
    }
}

// ---------------------------------------------------------------------------
// What an extrinsic reads as.
// ---------------------------------------------------------------------------

/// Whether `x` is the extrinsic at `pos`, whose header is `given` where one is given.
pub open spec fn ext_is(m: RuntimeMetadata, b: Seq<u8>, pos: int, given: Option<Signature>, x: SubstrateExtrinsic) -> bool
    decreases b.len() - pos, 2nat,
{
    &&& 0 <= pos <= b.len()
    &&& header_is(b, pos, given, ext_signature(x))
    &&& ext_body_is(m, b, pos, given is Some, x)
}

/// Whether `x` is the call `cn` of the pallet `pn`, which SubVT follows, with its arguments
/// at `ap`.
pub open spec fn followed_is(m: RuntimeMetadata, pn: Seq<char>, cn: Seq<char>, b: Seq<u8>, ap: int, x: SubstrateExtrinsic) -> bool
    decreases b.len() - ap, 1nat,
{
    match x {
        SubstrateExtrinsic::ConvictionVoting(e) => pn == "ConvictionVoting"@ && voting_call_is(cn, b, ap, e),
        SubstrateExtrinsic::Multisig(e) => pn == "Multisig"@ && multisig_call_is(m, cn, b, ap, e),
        SubstrateExtrinsic::Proxy(e) => pn == "Proxy"@ && proxy_call_is(m, cn, b, ap, e),
        SubstrateExtrinsic::Staking(e) => pn == "Staking"@ && staking_call_is(cn, b, ap, staking_signature(e), Some(e)),
        SubstrateExtrinsic::Timestamp(TimestampExtrinsic::SetTime { timestamp, .. }) => {
            &&& pn == "Timestamp"@
            &&& cn == "set"@
            &&& timestamp == compact_at(b, ap, 8).unwrap().0
        },
        SubstrateExtrinsic::Utility(e) => pn == "Utility"@ && utility_call_is(m, cn, b, ap, e),
        SubstrateExtrinsic::Session(_) => false,
        SubstrateExtrinsic::Other { .. } => false,
    }
}

/// Whether `x` is, but for its header, the extrinsic at `pos`.
pub open spec fn ext_body_is(m: RuntimeMetadata, b: Seq<u8>, pos: int, signed: bool, x: SubstrateExtrinsic) -> bool
    decreases b.len() - pos, 1nat,
{
    if pos < 0 || pos > b.len() {
        false
    } else {
        match call_begin(b, pos, signed) {
            None => false,
            Some(p) => match call_head(m, b, p as int) {
                CallHead::Good(pallet, v) => {
                    let ap = (p + 2) as int;
                    let pn = pallet.name@;
                    let cn = v.name@;
                    if ap > b.len() || ap <= pos {
                        false
                    } else {
                        match x {
                            SubstrateExtrinsic::Other { module_name, call_name, .. } => {
                                &&& module_name@ == pn
                                &&& call_name@ == cn
                                &&& !call_followed(pn, cn)
                            },
                            _ => followed_is(m, pn, cn, b, ap, x),
                        }
                    }
                },
                _ => false,
            },
        }
    }
}

/// Whether `cs` are the calls from `q` that end at `end`, each with the header `given`.
pub open spec fn calls_seg(m: RuntimeMetadata, b: Seq<u8>, q: int, given: Option<Signature>, cs: Seq<SubstrateExtrinsic>, end: int) -> bool
    decreases b.len() - q, 3nat,
{
    if cs.len() == 0 {
        end == q
    } else if q < 0 || q > b.len() {
        false
    } else {
        match ext_reading(m, b, q, given is Some) {
            Reading::Good(e) => {
                &&& q < e <= b.len()
                &&& ext_is(m, b, q, given, cs[0])
                &&& calls_seg(m, b, e as int, given, cs.drop_first(), end)
            },
            _ => false,
        }
    }
}

/// Whether `x` is the batch call `name` with its arguments at `ap`.
pub open spec fn utility_call_is(m: RuntimeMetadata, name: Seq<char>, b: Seq<u8>, ap: int, x: UtilityExtrinsic) -> bool
    decreases b.len() - ap, 0nat,
{
    let (n, l) = compact_at(b, ap, 8).unwrap();
    let q = ap + l;
    let (sig, calls) = match x {
        UtilityExtrinsic::Batch { maybe_signature, calls } => (maybe_signature, calls),
        UtilityExtrinsic::BatchAll { maybe_signature, calls } => (maybe_signature, calls),
        UtilityExtrinsic::ForceBatch { maybe_signature, calls } => (maybe_signature, calls),
    };
    &&& x is Batch ==> name == "batch"@
    &&& x is BatchAll ==> name == "batch_all"@
    &&& x is ForceBatch ==> name == "force_batch"@
    &&& calls.len() == n
    &&& ap < q <= b.len()
    &&& calls_reading(m, b, q, sig is Some, n) matches Reading::Good(end) && calls_seg(m, b, q, sig, calls@, end as int)
}

/// Whether `x` is the multisig call `name` with its arguments at `ap`.
pub open spec fn multisig_call_is(m: RuntimeMetadata, name: Seq<char>, b: Seq<u8>, ap: int, x: MultisigExtrinsic) -> bool
    decreases b.len() - ap, 0nat,
{
    match x {
        MultisigExtrinsic::AsMulti { maybe_signature, threshold, other_signatories, maybe_timepoint, call, max_weight } => {
            &&& name == "as_multi"@
            &&& ap + 2 <= b.len()
            &&& threshold as nat == le_at(b, ap, 2)
            &&& accounts_are(b, ap + 2, other_signatories@)
            &&& accounts_end(b, ap + 2) matches Some(e1) && timepoint_opt_at(b, e1 as int) matches Some((t, e2)) && {
                &&& maybe_timepoint == t
                &&& ap < e2 <= b.len()
                &&& ext_is(m, b, e2 as int, maybe_signature, *call)
                &&& ext_reading(m, b, e2 as int, maybe_signature is Some) matches Reading::Good(e3) && weight_at(
                    b,
                    e3 as int,
                    false,
                ) matches Some((w, _)) && max_weight == w
            }
        },
        MultisigExtrinsic::AsMultiThreshold1 { maybe_signature, other_signatories, call } => {
            &&& name == "as_multi_threshold_1"@
            &&& accounts_are(b, ap, other_signatories@)
            &&& accounts_end(b, ap) matches Some(e1) && ap < e1 <= b.len() && ext_is(m, b, e1 as int, maybe_signature, *call)
        },
    }
}

/// Whether `x` is the proxy call `name` with its arguments at `ap`.
pub open spec fn proxy_call_is(m: RuntimeMetadata, name: Seq<char>, b: Seq<u8>, ap: int, x: ProxyExtrinsic) -> bool
    decreases b.len() - ap, 0nat,
{
    match x {
        ProxyExtrinsic::Proxy { maybe_signature, real: real_address, force_proxy_type, call } => {
            &&& name == "proxy"@
            &&& match multi_address_len(b, ap) {
                Some(a1) => {
                    &&& multi_address_at(b, ap, real_address)
                    &&& match opt_proxy_type_at(b, ap + a1) {
                        Some((t, e)) => {
                            &&& force_proxy_type == t
                            &&& ap < e <= b.len()
                            &&& ext_is(m, b, e as int, maybe_signature, *call)
                        },
                        None => false,
                    }
                },
                None => false,
            }
        },
        ProxyExtrinsic::ProxyAnnounced { maybe_signature, delegate, real: real_address, force_proxy_type, call } => {
            &&& name == "proxy_announced"@
            &&& match multi_address_len(b, ap) {
                Some(a0) => {
                    &&& multi_address_at(b, ap, delegate)
                    &&& match multi_address_len(b, ap + a0) {
                        Some(a1) => {
                            &&& multi_address_at(b, ap + a0, real_address)
                            &&& match opt_proxy_type_at(b, ap + a0 + a1) {
                                Some((t, e)) => {
                                    &&& force_proxy_type == t
                                    &&& ap < e <= b.len()
                                    &&& ext_is(m, b, e as int, maybe_signature, *call)
                                },
                                None => false,
                            }
                        },
                        None => false,
                    }
                },
                None => false,
            }
        },
    }
}

// ---------------------------------------------------------------------------
// Lemmas on headers.
// ---------------------------------------------------------------------------

/// Whether two headers that are the same are both the header of an extrinsic, or neither.
proof fn lemma_header_same(b: Seq<u8>, pos: int, given: Option<Signature>, s: Option<Signature>, t: Option<Signature>)
    requires
        opt_signature_same(s, t),
        header_is(b, pos, given, t),
    ensures
        header_is(b, pos, given, s),
{
    if given is Some {
        let g = given.unwrap();
        match (s, t) {
            (Some(x), Some(y)) => {
                assert(multi_address_same(x.signer, g.signer));
            },
            _ => {},
        }
    } else if b[pos] >= 128 {
        let x = s.unwrap();
        let y = t.unwrap();
        match (x.signer, y.signer) {
            (MultiAddress::Raw(u), MultiAddress::Raw(w)) => {
                assert(u@ == w@);
            },
            _ => {},
        }
    }
}

/// An extrinsic read with one given header reads the same with another that is the same.
proof fn lemma_ext_is_given(m: RuntimeMetadata, b: Seq<u8>, q: int, g1: Option<Signature>, g2: Option<Signature>, x: SubstrateExtrinsic)
    requires
        ext_is(m, b, q, g1, x),
        opt_signature_same(g2, g1),
    ensures
        ext_is(m, b, q, g2, x),
{
    if g1 is Some {
        let s = ext_signature(x);
        let a = g1.unwrap();
        let c = g2.unwrap();
        let y = s.unwrap();
        assert(multi_address_same(y.signer, c.signer)) by {
            match (y.signer, a.signer, c.signer) {
                (MultiAddress::Raw(u), MultiAddress::Raw(v), MultiAddress::Raw(w)) => {
                    assert(u@ == v@);
                    assert(w@ == v@);
                },
                _ => {},
            }
        }
    }
}

/// A run of calls read with one given header reads the same with another that is the same.
proof fn lemma_calls_seg_given(m: RuntimeMetadata, b: Seq<u8>, q: int, g1: Option<Signature>, g2: Option<Signature>, cs: Seq<SubstrateExtrinsic>, end: int)
    requires
        calls_seg(m, b, q, g1, cs, end),
        opt_signature_same(g2, g1),
    ensures
        calls_seg(m, b, q, g2, cs, end),
    decreases cs.len(),
{
    if cs.len() > 0 {
        let e = ext_reading(m, b, q, g1 is Some)->Good_0;
        lemma_ext_is_given(m, b, q, g1, g2, cs[0]);
        lemma_calls_seg_given(m, b, e as int, g1, g2, cs.drop_first(), end);
    }
}

/// Every call of a run read with a given header carries that header.
pub proof fn lemma_calls_seg_headers(m: RuntimeMetadata, b: Seq<u8>, q: int, given: Option<Signature>, cs: Seq<SubstrateExtrinsic>, end: int, k: int)
    requires
        calls_seg(m, b, q, given, cs, end),
        given is Some,
        0 <= k < cs.len(),
    ensures
        opt_signature_same(ext_signature(cs[k]), given),
    decreases cs.len(),
{
    let e = ext_reading(m, b, q, given is Some)->Good_0;
    if k > 0 {
        lemma_calls_seg_headers(m, b, e as int, given, cs.drop_first(), end, k - 1);
        assert(cs.drop_first()[k - 1] == cs[k]);
    } else {
        assert(ext_is(m, b, q, given, cs[0]));
        assert(header_is(b, q, given, ext_signature(cs[0])));
    }
}

/// The call that a multisig or proxy call carries has the header of the carrying call.
pub proof fn lemma_carried_header(m: RuntimeMetadata, cn: Seq<char>, b: Seq<u8>, ap: int, x: SubstrateExtrinsic)
    requires
        (x matches SubstrateExtrinsic::Multisig(e) && multisig_call_is(m, cn, b, ap, e)) || (x matches SubstrateExtrinsic::Proxy(
            e,
        ) && proxy_call_is(m, cn, b, ap, e)),
        ext_signature(x) is Some,
    ensures
        carried_call(x) is Some,
        opt_signature_same(ext_signature(carried_call(x).unwrap()), ext_signature(x)),
{
    match x {
        SubstrateExtrinsic::Multisig(e) => match e {
            MultisigExtrinsic::AsMulti { maybe_signature, call, .. } => {
                let e1 = accounts_end(b, ap + 2).unwrap();
                let (t, e2) = timepoint_opt_at(b, e1 as int).unwrap();
                assert(ext_is(m, b, e2 as int, maybe_signature, *call));
            },
            MultisigExtrinsic::AsMultiThreshold1 { maybe_signature, call, .. } => {
                let e1 = accounts_end(b, ap).unwrap();
                assert(ext_is(m, b, e1 as int, maybe_signature, *call));
            },
        },
        SubstrateExtrinsic::Proxy(e) => match e {
            ProxyExtrinsic::Proxy { maybe_signature, call, .. } => {
                let a1 = multi_address_len(b, ap).unwrap();
                let (t, q) = opt_proxy_type_at(b, ap + a1).unwrap();
                assert(ext_is(m, b, q as int, maybe_signature, *call));
            },
            ProxyExtrinsic::ProxyAnnounced { maybe_signature, call, .. } => {
                let a0 = multi_address_len(b, ap).unwrap();
                let a1 = multi_address_len(b, ap + a0).unwrap();
                let (t, q) = opt_proxy_type_at(b, ap + a0 + a1).unwrap();
                assert(ext_is(m, b, q as int, maybe_signature, *call));
            },
        },
        _ => {},
    }
}

/// A run of calls grows by the call that follows it.
proof fn lemma_calls_seg_push(m: RuntimeMetadata, b: Seq<u8>, q: int, given: Option<Signature>, cs: Seq<SubstrateExtrinsic>, end: int, c: SubstrateExtrinsic, e: int)
    requires
        calls_seg(m, b, q, given, cs, end),
        0 <= end <= b.len(),
        ext_reading(m, b, end, given is Some) == Reading::Good(e as nat),
        end < e <= b.len(),
        ext_is(m, b, end, given, c),
    ensures
        calls_seg(m, b, q, given, cs.push(c), e),
    decreases cs.len(),
{
    if cs.len() == 0 {
        assert(cs.push(c).drop_first() =~= Seq::<SubstrateExtrinsic>::empty());
        assert(cs.push(c)[0] == c);
        assert(calls_seg(m, b, e, given, cs.push(c).drop_first(), e));
    } else {
        let f = ext_reading(m, b, q, given is Some)->Good_0;
        lemma_calls_seg_push(m, b, f as int, given, cs.drop_first(), end, c, e);
        assert(cs.push(c).drop_first() =~= cs.drop_first().push(c));
        assert(cs.push(c)[0] == cs[0]);
        assert(calls_seg(m, b, f as int, given, cs.push(c).drop_first(), e));
    }
}

// ---------------------------------------------------------------------------
// Reading extrinsics.
// ---------------------------------------------------------------------------

/// Reads the list of accounts at `pos`: the accounts and the position after them.
fn read_accounts(bytes: &[u8], pos: usize) -> (r: Result<(Vec<AccountId>, usize), DecodeError>)
    requires
        pos <= bytes.len(),
    ensures
        r is Ok <==> accounts_end(bytes@, pos as int) is Some,
        r matches Ok((v, e)) ==> accounts_are(bytes@, pos as int, v@) && accounts_end(bytes@, pos as int) == Some(e as nat)
            && pos < e <= bytes.len(),
{
    let (n, p) = read_compact_u32_at(bytes, pos)?;
    let mut v: Vec<AccountId> = Vec::new();
    let mut q = p;
    let mut i: u32 = 0;
    while i < n
        invariant
            i <= n,
            p <= q <= bytes.len(),
            q == p + 32 * i,
            v.len() == i,
            compact_at(bytes@, pos as int, 4) == Some((n as nat, (p - pos) as nat)),
            forall|k: int| 0 <= k < i ==> #[trigger] v@[k] == acct(bytes@, p + 32 * k),
        decreases n - i,
    {
        let a = read_account(bytes, q)?;
        v.push(a);
        q = q + 32;
        i = i + 1;
    }
    Ok((v, q))
}

/// Reads the optional time point at `pos`: the value and the position after it.
fn read_timepoint_opt(bytes: &[u8], pos: usize) -> (r: Result<(Option<Timepoint>, usize), DecodeError>)
    requires
        pos <= bytes.len(),
    ensures
        r is Ok <==> timepoint_opt_at(bytes@, pos as int) is Some,
        r matches Ok((t, e)) ==> timepoint_opt_at(bytes@, pos as int) == Some((t, e as nat)),
{
    let tag = read_byte(bytes, pos)?;
    if tag == 0 {
        Ok((None, pos + 1))
    } else if tag == 1 {
        let height = read_word(bytes, pos + 1)?;
        let index = read_word(bytes, pos + 5)?;
        Ok((Some(Timepoint { height, index }), pos + 9))
    } else {
        Err(cannot_decode("unexpected first byte decoding Option"))
    }
}

/// Reads the optional proxy type at `pos`: the value and the position after it.
fn read_opt_proxy_type(bytes: &[u8], pos: usize) -> (r: Result<(Option<ProxyType>, usize), DecodeError>)
    requires
        pos <= bytes.len(),
    ensures
        r is Ok <==> opt_proxy_type_at(bytes@, pos as int) is Some,
        r matches Ok((t, e)) ==> opt_proxy_type_at(bytes@, pos as int) == Some((t, e as nat)),
{
    let tag = read_byte(bytes, pos)?;
    if tag == 0 {
        Ok((None, pos + 1))
    } else if tag == 1 {
        let t = ProxyType::decode(bytes, pos + 1)?;
        Ok((Some(t), pos + 2))
    } else {
        Err(cannot_decode("unexpected first byte decoding Option"))
    }
}

/// Reads `count` calls one after another from `pos`, each with the header `maybe_signature`
/// where one is given: the calls and the position after them.
pub fn get_extrinsic_calls(metadata: &RuntimeMetadata, maybe_signature: &Option<Signature>, bytes: &[u8], pos: usize, count: u64) -> (r: Result<(Vec<SubstrateExtrinsic>, usize), DecodeError>)
    requires
        wf_types(metadata.types@),
        pos <= bytes.len(),
        !(calls_reading(*metadata, bytes@, pos as int, maybe_signature is Some, count as nat) is Panics),
    ensures
        r is Ok <==> calls_reading(*metadata, bytes@, pos as int, maybe_signature is Some, count as nat) is Good,
        r matches Ok((calls, end)) ==> {
            &&& calls_reading(*metadata, bytes@, pos as int, maybe_signature is Some, count as nat) == Reading::Good(end as nat)
            &&& pos <= end <= bytes.len()
            &&& calls.len() == count
            &&& calls_seg(*metadata, bytes@, pos as int, *maybe_signature, calls@, end as int)
        },
    decreases bytes.len() - pos, 4nat,
{
    let ghost s = maybe_signature is Some;
    let mut calls: Vec<SubstrateExtrinsic> = Vec::new();
    let mut q = pos;
    let mut i: u64 = 0;
    while i < count
        invariant
            i <= count,
            pos <= q <= bytes.len(),
            wf_types(metadata.types@),
            s == maybe_signature is Some,
            calls.len() == i,
            calls_reading(*metadata, bytes@, pos as int, s, count as nat) == calls_reading(
                *metadata,
                bytes@,
                q as int,
                s,
                (count - i) as nat,
            ),
            !(calls_reading(*metadata, bytes@, pos as int, s, count as nat) is Panics),
            calls_seg(*metadata, bytes@, pos as int, *maybe_signature, calls@, q as int),
        decreases count - i,
    {
        let (c, e) = decode_extrinsic(metadata, maybe_signature, bytes, q)?;
        proof {
            lemma_calls_seg_push(*metadata, bytes@, pos as int, *maybe_signature, calls@, q as int, c, e as int);
        }
        calls.push(c);
        q = e;
        i = i + 1;
    }
    Ok((calls, q))
}

impl UtilityExtrinsic {
    /// Reads the batch call `name` with its arguments at `pos`: a compact count, then the
    /// calls, each read with the header `maybe_signature` where one is given. Gives the call
    /// and where its arguments end; `None` (and `pos`) where SubVT does not follow the call.
    pub fn decode(metadata: &RuntimeMetadata, name: &str, maybe_signature: &Option<Signature>, bytes: &[u8], pos: usize) -> (r: Result<(Option<UtilityExtrinsic>, usize), DecodeError>)
        requires
            wf_types(metadata.types@),
            pos <= bytes.len(),
            utility_followed(name@) ==> !(utility_reading(*metadata, bytes@, pos as int, maybe_signature is Some) is Panics),
        ensures
            r is Ok <==> (utility_followed(name@) ==> utility_reading(*metadata, bytes@, pos as int, maybe_signature is Some) is Good),
            r matches Ok((None, e)) ==> !utility_followed(name@) && e == pos,
            r matches Ok((Some(x), e)) ==> {
                &&& utility_followed(name@)
                &&& utility_reading(*metadata, bytes@, pos as int, maybe_signature is Some) == Reading::Good(e as nat)
                &&& pos < e <= bytes.len()
                &&& utility_call_is(*metadata, name@, bytes@, pos as int, x)
                &&& opt_signature_same(utility_signature(x), *maybe_signature)
            },
        decreases bytes.len() - pos, 2nat,
    {
        let batch = str_equals(name, "batch");
        let batch_all = str_equals(name, "batch_all");
        let force_batch = str_equals(name, "force_batch");
        if !batch && !batch_all && !force_batch {
            return Ok((None, pos));
        }
        let (n, q) = read_compact_u64_at(bytes, pos)?;
        let (calls, end) = get_extrinsic_calls(metadata, maybe_signature, bytes, q, n)?;
        let stored = clone_signature(maybe_signature);
        proof {
            lemma_calls_seg_given(*metadata, bytes@, q as int, *maybe_signature, stored, calls@, end as int);
        }
        let x = if batch {
            UtilityExtrinsic::Batch { maybe_signature: stored, calls }
        } else if batch_all {
            UtilityExtrinsic::BatchAll { maybe_signature: stored, calls }
        } else {
            UtilityExtrinsic::ForceBatch { maybe_signature: stored, calls }
        };
        Ok((Some(x), end))
    }
}

impl MultisigExtrinsic {
    /// Reads the multisig call `name` with its arguments at `pos`, the call it carries read
    /// with the header `maybe_signature` where one is given. Gives the call and where its
    /// arguments end; `None` (and `pos`) where SubVT does not follow the call.
    pub fn decode(metadata: &RuntimeMetadata, name: &str, maybe_signature: &Option<Signature>, bytes: &[u8], pos: usize) -> (r: Result<(Option<MultisigExtrinsic>, usize), DecodeError>)
        requires
            wf_types(metadata.types@),
            pos <= bytes.len(),
            multisig_followed(name@) ==> !(multisig_reading(*metadata, name@, bytes@, pos as int, maybe_signature is Some) is Panics),
        ensures
            r is Ok <==> (multisig_followed(name@) ==> multisig_reading(*metadata, name@, bytes@, pos as int, maybe_signature is Some) is Good),
            r matches Ok((None, e)) ==> !multisig_followed(name@) && e == pos,
            r matches Ok((Some(x), e)) ==> {
                &&& multisig_followed(name@)
                &&& multisig_reading(*metadata, name@, bytes@, pos as int, maybe_signature is Some) == Reading::Good(e as nat)
                &&& pos < e <= bytes.len()
                &&& multisig_call_is(*metadata, name@, bytes@, pos as int, x)
                &&& opt_signature_same(multisig_signature(x), *maybe_signature)
            },
        decreases bytes.len() - pos, 2nat,
    {
        if str_equals(name, "as_multi") {
            let threshold = match codec_u16(bytes, pos) {
                Ok(v) => v,
                Err(e) => return Err(DecodeError::Error(e)),
            };
            let (others, e1) = read_accounts(bytes, pos + 2)?;
            let (timepoint, e2) = read_timepoint_opt(bytes, e1)?;
            let (call, e3) = decode_extrinsic(metadata, maybe_signature, bytes, e2)?;
            let (ref_time, e4) = read_compact_u64_at(bytes, e3)?;
            let (proof_size, e5) = read_compact_u64_at(bytes, e4)?;
            let stored = clone_signature(maybe_signature);
            proof {
                lemma_ext_is_given(*metadata, bytes@, e2 as int, *maybe_signature, stored, call);
            }
            let x = MultisigExtrinsic::AsMulti {
                maybe_signature: stored,
                threshold,
                other_signatories: others,
                maybe_timepoint: timepoint,
                call: Box::new(call),
                max_weight: Weight { ref_time, proof_size },
            };
            Ok((Some(x), e5))
        } else if str_equals(name, "as_multi_threshold_1") {
            let (others, e1) = read_accounts(bytes, pos)?;
            let (call, e2) = decode_extrinsic(metadata, maybe_signature, bytes, e1)?;
            let stored = clone_signature(maybe_signature);
            proof {
                lemma_ext_is_given(*metadata, bytes@, e1 as int, *maybe_signature, stored, call);
            }
            let x = MultisigExtrinsic::AsMultiThreshold1 { maybe_signature: stored, other_signatories: others, call: Box::new(call) };
            Ok((Some(x), e2))
        } else {
            Ok((None, pos))
        }
    }
}

impl ProxyExtrinsic {
    /// Reads the proxy call `name` with its arguments at `pos`, the call it carries read
    /// with the header `maybe_signature` where one is given. Gives the call and where its
    /// arguments end; `None` (and `pos`) where SubVT does not follow the call.
    pub fn decode(metadata: &RuntimeMetadata, name: &str, maybe_signature: &Option<Signature>, bytes: &[u8], pos: usize) -> (r: Result<(Option<ProxyExtrinsic>, usize), DecodeError>)
        requires
            wf_types(metadata.types@),
            pos <= bytes.len(),
            proxy_followed(name@) ==> !(proxy_reading(*metadata, name@, bytes@, pos as int, maybe_signature is Some) is Panics),
        ensures
            r is Ok <==> (proxy_followed(name@) ==> proxy_reading(*metadata, name@, bytes@, pos as int, maybe_signature is Some) is Good),
            r matches Ok((None, e)) ==> !proxy_followed(name@) && e == pos,
            r matches Ok((Some(x), e)) ==> {
                &&& proxy_followed(name@)
                &&& proxy_reading(*metadata, name@, bytes@, pos as int, maybe_signature is Some) == Reading::Good(e as nat)
                &&& pos < e <= bytes.len()
                &&& proxy_call_is(*metadata, name@, bytes@, pos as int, x)
                &&& opt_signature_same(proxy_signature(x), *maybe_signature)
            },
        decreases bytes.len() - pos, 2nat,
    {
        if str_equals(name, "proxy") {
            let (real_address, e1) = MultiAddress::decode(bytes, pos)?;
            let (force_proxy_type, e2) = read_opt_proxy_type(bytes, e1)?;
            let (call, e3) = decode_extrinsic(metadata, maybe_signature, bytes, e2)?;
            let stored = clone_signature(maybe_signature);
            proof {
                lemma_ext_is_given(*metadata, bytes@, e2 as int, *maybe_signature, stored, call);
            }
            Ok((Some(ProxyExtrinsic::Proxy { maybe_signature: stored, real: real_address, force_proxy_type, call: Box::new(call) }), e3))
        } else if str_equals(name, "proxy_announced") {
            let (delegate, e0) = MultiAddress::decode(bytes, pos)?;
            let (real_address, e1) = MultiAddress::decode(bytes, e0)?;
            let (force_proxy_type, e2) = read_opt_proxy_type(bytes, e1)?;
            let (call, e3) = decode_extrinsic(metadata, maybe_signature, bytes, e2)?;
            let stored = clone_signature(maybe_signature);
            proof {
                lemma_ext_is_given(*metadata, bytes@, e2 as int, *maybe_signature, stored, call);
            }
            Ok(
                (
                    Some(
                        ProxyExtrinsic::ProxyAnnounced {
                            maybe_signature: stored,
                            delegate,
                            real: real_address,
                            force_proxy_type,
                            call: Box::new(call),
                        },
                    ),
                    e3,
                ),
            )
        } else {
            Ok((None, pos))
        }
    }
}

/// Reads the header of the extrinsic at `pos`: the one given, or the version byte and,
/// where it marks a signed extrinsic, the signed header. Gives the header and where the call
/// starts.
fn read_header(maybe_signature: &Option<Signature>, bytes: &[u8], pos: usize) -> (r: Result<(Option<Signature>, usize), DecodeError>)
    requires
        pos <= bytes.len(),
    ensures
        r is Ok <==> call_begin(bytes@, pos as int, maybe_signature is Some) is Some,
        r matches Ok((sig, p)) ==> {
            &&& call_begin(bytes@, pos as int, maybe_signature is Some) == Some(p as nat)
            &&& pos <= p <= bytes.len()
            &&& header_is(bytes@, pos as int, *maybe_signature, sig)
            &&& (sig is Some <==> (maybe_signature is Some || bytes@[pos as int] >= 128))
        },
{
    match maybe_signature {
        Some(_) => Ok((clone_signature(maybe_signature), pos)),
        None => {
            let version = read_byte(bytes, pos)?;
            if version >= 128 {
                let (s, next) = decode_signed_header(bytes, pos + 1)?;
                Ok((Some(s), next))
            } else {
                Ok((None, pos + 1))
            }
        },
    }
}

/// Finds, in the metadata, the pallet and the variant that the call at `p` names.
fn read_call_head<'a>(metadata: &'a RuntimeMetadata, bytes: &[u8], p: usize) -> (r: Result<(&'a PalletInfo, &'a VariantInfo), DecodeError>)
    requires
        wf_types(metadata.types@),
        p <= bytes.len(),
        !(call_head(*metadata, bytes@, p as int) is Panics),
    ensures
        r is Ok <==> call_head(*metadata, bytes@, p as int) is Good,
        r matches Ok((pallet, v)) ==> call_head(*metadata, bytes@, p as int) == CallHead::Good(*pallet, *v)
            && ids_in(v.fields@, metadata.types.len() as nat),
{
    let module_index = read_byte(bytes, p)?;
    let call_index = read_byte(bytes, p + 1)?;
    let pallet = find_pallet_with_index(&metadata.pallets, module_index).unwrap();
    let calls_type = pallet.calls_type.unwrap();
    let ty = get_metadata_type(&metadata.types, calls_type);
    let variants = match &ty.def {
        TypeDefinition::Variant(vs) => vs,
        _ => return Err(DecodeError::Error(copy_str("Unexpected non-variant call type."))),
    };
    let k = find_variant_exec(variants, call_index).unwrap();
    proof {
        lemma_find_variant(variants@, call_index, 0);
        assert(variants_in(variants@, metadata.types.len() as nat));
        assert(ids_in(variants@[k as int].fields@, metadata.types.len() as nat));
    }
    Ok((pallet, &variants[k]))
}

/// Walks the fields of the call variant `variant` from `ap` as the metadata describes them:
/// the position after them.
fn walk_call_fields(metadata: &RuntimeMetadata, variant: &VariantInfo, bytes: &[u8], ap: usize) -> (r: Result<usize, DecodeError>)
    requires
        wf_types(metadata.types@),
        ap <= bytes.len(),
        ids_in(variant.fields@, metadata.types.len() as nat),
        !(walk_reading(*metadata, *variant, bytes@, ap as int) is Panics),
    ensures
        r matches Ok(e) && walk_reading(*metadata, *variant, bytes@, ap as int) == Reading::Good(e as nat) && ap <= e
            <= bytes.len(),
{
    let ghost fs = ap as int;
    let mut q = ap;
    let mut i: usize = 0;
    while i < variant.fields.len()
        invariant
            i <= variant.fields.len(),
            q <= bytes.len(),
            fs <= q,
            wf_types(metadata.types@),
            ids_in(variant.fields@, metadata.types.len() as nat),
            fields_walk(metadata.types@, variant.fields@, 0, bytes@, fs) == fields_walk(
                metadata.types@,
                variant.fields@,
                i as nat,
                bytes@,
                q as int,
            ),
            fields_walk(metadata.types@, variant.fields@, 0, bytes@, fs) is Done,
        decreases variant.fields.len() - i,
    {
        let field_type = variant.fields[i];
        q = match decode_field(&metadata.types, field_type, bytes, q, false) {
            Ok(p) => p,
            Err(e) => return Err(e),
        };
        i = i + 1;
    }
    Ok(q)
}

/// Reads the arguments at `ap` of the call `call_name` of the pallet `pallet_name` where
/// SubVT follows that call, with the header `sig`: the call and where its arguments end.
/// `None` (and `ap`) where SubVT does not follow the call.
fn decode_followed_call(metadata: &RuntimeMetadata, pallet_name: &str, call_name: &str, sig: &Option<Signature>, bytes: &[u8], ap: usize) -> (r: Result<(Option<SubstrateExtrinsic>, usize), DecodeError>)
    requires
        wf_types(metadata.types@),
        ap <= bytes.len(),
        !(followed_reading(*metadata, pallet_name@, call_name@, bytes@, ap as int, sig is Some) matches Some(Reading::Panics)),
    ensures
        r is Ok <==> (followed_reading(*metadata, pallet_name@, call_name@, bytes@, ap as int, sig is Some) matches Some(rd) ==> rd is Good),
        r matches Ok((None, e)) ==> followed_reading(*metadata, pallet_name@, call_name@, bytes@, ap as int, sig is Some) is None && e == ap,
        r matches Ok((Some(x), e)) ==> {
            &&& followed_reading(*metadata, pallet_name@, call_name@, bytes@, ap as int, sig is Some) == Some(Reading::Good(e as nat))
            &&& ap <= e <= bytes.len()
            &&& followed_is(*metadata, pallet_name@, call_name@, bytes@, ap as int, x)
            &&& opt_signature_same(ext_signature(x), *sig)
            &&& !(x is Other)
        },
    decreases bytes.len() - ap, 3nat,
{
    if str_equals(pallet_name, "ConvictionVoting") {
        let (o, e) = ConvictionVotingExtrinsic::decode(call_name, sig, bytes, ap)?;
        match o {
            Some(x) => Ok((Some(SubstrateExtrinsic::ConvictionVoting(x)), e)),
            None => Ok((None, ap)),
        }
    } else if str_equals(pallet_name, "Multisig") {
        let (o, e) = MultisigExtrinsic::decode(metadata, call_name, sig, bytes, ap)?;
        match o {
            Some(x) => Ok((Some(SubstrateExtrinsic::Multisig(x)), e)),
            None => Ok((None, ap)),
        }
    } else if str_equals(pallet_name, "Proxy") {
        let (o, e) = ProxyExtrinsic::decode(metadata, call_name, sig, bytes, ap)?;
        match o {
            Some(x) => Ok((Some(SubstrateExtrinsic::Proxy(x)), e)),
            None => Ok((None, ap)),
        }
    } else if str_equals(pallet_name, "Staking") {
        let (o, e) = StakingExtrinsic::decode(call_name, sig, bytes, ap)?;
        match o {
            Some(x) => Ok((Some(SubstrateExtrinsic::Staking(x)), e)),
            None => Ok((None, ap)),
        }
    } else if str_equals(pallet_name, "Timestamp") {
        let (o, e) = TimestampExtrinsic::decode(call_name, sig, bytes, ap)?;
        match o {
            Some(x) => Ok((Some(SubstrateExtrinsic::Timestamp(x)), e)),
            None => Ok((None, ap)),
        }
    } else if str_equals(pallet_name, "Utility") {
        let (o, e) = UtilityExtrinsic::decode(metadata, call_name, sig, bytes, ap)?;
        match o {
            Some(x) => Ok((Some(SubstrateExtrinsic::Utility(x)), e)),
            None => Ok((None, ap)),
        }
    } else {
        Ok((None, ap))
    }
}

/// Reads the extrinsic at `pos`: its header (the `maybe_signature` given, or the one it
/// starts with), its pallet and call, and the arguments of the calls that SubVT follows,
/// with the calls they carry; the arguments of other calls are walked over as the metadata
/// describes them. Gives the extrinsic and the position after it.
pub fn decode_extrinsic(metadata: &RuntimeMetadata, maybe_signature: &Option<Signature>, bytes: &[u8], pos: usize) -> (r: Result<(SubstrateExtrinsic, usize), DecodeError>)
    requires
        wf_types(metadata.types@),
        pos <= bytes.len(),
        !(ext_reading(*metadata, bytes@, pos as int, maybe_signature is Some) is Panics),
    ensures
        r is Ok <==> ext_reading(*metadata, bytes@, pos as int, maybe_signature is Some) is Good,
        r matches Ok((x, next)) ==> {
            &&& ext_reading(*metadata, bytes@, pos as int, maybe_signature is Some) == Reading::Good(next as nat)
            &&& pos < next <= bytes.len()
            &&& ext_is(*metadata, bytes@, pos as int, *maybe_signature, x)
        },
    decreases bytes.len() - pos, 3nat,
{
    let (sig, p) = read_header(maybe_signature, bytes, pos)?;
    let (pallet, variant) = read_call_head(metadata, bytes, p)?;
    let ap = p + 2;
    let (o, e) = decode_followed_call(metadata, pallet.name.as_str(), variant.name.as_str(), &sig, bytes, ap)?;
    match o {
        Some(x) => {
            proof {
                lemma_header_same(bytes@, pos as int, *maybe_signature, ext_signature(x), sig);
            }
            Ok((x, e))
        },
        None => {
            let q = walk_call_fields(metadata, variant, bytes, ap)?;
            let module_name = pallet.name.clone();
            let call_name = variant.name.clone();
            Ok((SubstrateExtrinsic::Other { module_name, call_name, signature: sig }, q))
        },
    }
}

/// The SCALE byte vector inside an extrinsic's raw bytes: a compact length, then that many
/// bytes; `None` where it is cut short.
pub open spec fn inner_bytes(raw: Seq<u8>) -> Option<Seq<u8>> {
    match compact_at(raw, 0, 4) {
        Some((n, l)) => if l + n <= raw.len() {
            Some(raw.subrange(l as int, (l + n) as int))
        } else {
            None
        },
        None => None,
    }
}

/// Whether the first `i` extrinsics of a block are hex.
pub open spec fn hex_upto(exts: Seq<String>, i: int) -> bool {
    forall|j: int| 0 <= j < i ==> (#[trigger] account_hex_bytes(exts[j]@)) is Some
}

/// Whether reading the extrinsics of a block, up to the first that is not hex, never
/// panics: each hex extrinsic holds a byte vector whose extrinsic does not panic.
pub open spec fn extrinsics_panic_free(m: RuntimeMetadata, exts: Seq<String>) -> bool {
    forall|i: int|
        0 <= i < exts.len() && hex_upto(exts, i + 1) ==> {
            &&& inner_bytes(account_hex_bytes(#[trigger] exts[i]@).unwrap()) is Some
            &&& !(ext_reading(m, inner_bytes(account_hex_bytes(exts[i]@).unwrap()).unwrap(), 0, false) is Panics)
        }
}

/// Reads the extrinsics of a block, each written in hex: the result of each, in order. The
/// whole read fails where one of them is not hex.
pub fn decode_extrinsics(metadata: &RuntimeMetadata, block: &Block) -> (r: Result<Vec<Result<SubstrateExtrinsic, DecodeError>>, DecodeError>)
    requires
        wf_types(metadata.types@),
        extrinsics_panic_free(*metadata, block.extrinsics@),
    ensures
        r is Ok <==> hex_upto(block.extrinsics@, block.extrinsics.len() as int),
        r matches Ok(v) ==> {
            &&& v.len() == block.extrinsics.len()
            &&& forall|i: int|
                0 <= i < v.len() ==> {
                    let b = inner_bytes(account_hex_bytes(block.extrinsics@[i]@).unwrap()).unwrap();
                    &&& ((#[trigger] v@[i]) is Ok <==> ext_reading(*metadata, b, 0, false) is Good)
                    &&& (v@[i] is Ok ==> ext_is(*metadata, b, 0, None, v@[i]->Ok_0))
                }
        },
{
    let mut result: Vec<Result<SubstrateExtrinsic, DecodeError>> = Vec::new();
    let mut i: usize = 0;
    while i < block.extrinsics.len()
        invariant
            i <= block.extrinsics.len(),
            wf_types(metadata.types@),
            extrinsics_panic_free(*metadata, block.extrinsics@),
            hex_upto(block.extrinsics@, i as int),
            result.len() == i,
            forall|k: int|
                0 <= k < i ==> {
                    let b = inner_bytes(account_hex_bytes(block.extrinsics@[k]@).unwrap()).unwrap();
                    &&& ((#[trigger] result@[k]) is Ok <==> ext_reading(*metadata, b, 0, false) is Good)
                    &&& (result@[k] is Ok ==> ext_is(*metadata, b, 0, None, result@[k]->Ok_0))
                },
        decreases block.extrinsics.len() - i,
    {
        let text = block.extrinsics[i].as_str();
        let trimmed = trim_hex_prefix(text);
        proof {
            assert(trimmed.spec_bytes() == vstd::utf8::encode_utf8(trimmed@));
        }
        let raw = match hex_decode(trimmed) {
            Ok(b) => b,
            Err(e) => {
                proof {
                    assert(account_hex_bytes(block.extrinsics@[i as int]@) is None);
                }
                return Err(DecodeError::Error(e));
            },
        };
        proof {
            assert(hex_upto(block.extrinsics@, i + 1));
            assert(inner_bytes(account_hex_bytes(block.extrinsics@[i as int]@).unwrap()) is Some);
            assert(rest(raw@, 0) =~= raw@);
        }
        let inner = match codec_byte_vec(raw.as_slice(), 0) {
            Ok(v) => v,
            Err(e) => return Err(DecodeError::Error(e)),
        };
        proof {
            let (n, l) = compact_at(raw@, 0, 4).unwrap();
            assert(rest(raw@, 0).subrange(l as int, (l + n) as int) =~= raw@.subrange(l as int, (l + n) as int));
        }
        let decoded = match decode_extrinsic(metadata, &None, inner.as_slice(), 0) {
            Ok((x, _)) => Ok(x),
            Err(e) => Err(e),
        };
        result.push(decoded);
        i = i + 1;
    }
    Ok(result)
}

} // verus!
