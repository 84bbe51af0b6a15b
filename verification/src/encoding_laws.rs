//! What the decoders read back from values that are encoded independently of them: the
//! little-endian fields of staking events, compact numbers and validator preferences, the
//! two bytes of a mortal era, and a list of identity judgements.
use crate::bits::pow2;
use crate::crypto::AccountId;
use crate::codec::{le_at, le_value, pow256};
use crate::crypto::{compact_encoding, le_bytes};
use crate::event::{staking_event_spec, StakingEvent};
use crate::extrinsic::{era_at, TransactionEra};
use crate::identity::{judgement_pos, judgements_read};
use vstd::prelude::*;

verus! {

// ---------------------------------------------------------------------------
// Little-endian numbers.
// ---------------------------------------------------------------------------

/// The `k` little-endian bytes of a value below `256^k` read back as that value.
pub proof fn lemma_le_bytes_read_back(v: nat, k: nat)
    requires
        v < pow256(k),
    ensures
        le_bytes(v, k).len() == k,
        le_value(le_bytes(v, k)) == v,
    decreases k,
{
    if k > 0 {
        let rest = (k - 1) as nat;
        assert(v / 256 < pow256(rest)) by (nonlinear_arith)
            requires
                v < 256 * pow256(rest),
        ;
        lemma_le_bytes_read_back(v / 256, rest);
        let s = le_bytes(v, k);
        assert(s.drop_first() =~= le_bytes(v / 256, rest));
        assert(v == v % 256 + 256 * (v / 256)) by (nonlinear_arith);
    }
}

/// `256^4` and `256^16`, the bounds of a `u32` and a `u128`.
proof fn lemma_pow256_bounds()
    ensures
        pow256(4) == 0x1_0000_0000,
        pow256(16) == 0x1_0000_0000_0000_0000_0000_0000_0000_0000,
{
    reveal_with_fuel(pow256, 17);
}

// ---------------------------------------------------------------------------
// Staking events.
// ---------------------------------------------------------------------------

/// The fields of the era payment event `EraPaid` (named `EraPayout` by older runtimes) are the
/// era index, the validators' payout and the remainder, in that order: the SCALE encoding of
/// `(era_index: u32, validator_payout: u128, remainder: u128)` decodes to exactly those three.
pub proof fn law_era_paid_fields_in_order(xi: Option<u32>, era: u32, payout: u128, remainder: u128)
    ensures
        ({
            let b = le_bytes(era as nat, 4) + le_bytes(payout as nat, 16) + le_bytes(remainder as nat, 16);
            &&& staking_event_spec("EraPaid"@, xi, b) == Some(
                Some(StakingEvent::EraPaid { extrinsic_index: xi, era_index: era, validator_payout: payout, remainder }),
            )
            &&& staking_event_spec("EraPayout"@, xi, b) == Some(
                Some(StakingEvent::EraPaid { extrinsic_index: xi, era_index: era, validator_payout: payout, remainder }),
            )
        }),
{
    lemma_pow256_bounds();
    let e = le_bytes(era as nat, 4);
    let p = le_bytes(payout as nat, 16);
    let r = le_bytes(remainder as nat, 16);
    lemma_le_bytes_read_back(era as nat, 4);
    lemma_le_bytes_read_back(payout as nat, 16);
    lemma_le_bytes_read_back(remainder as nat, 16);
    let b = e + p + r;
    assert(b.subrange(0, 4) =~= e);
    assert(b.subrange(4, 20) =~= p);
    assert(b.subrange(20, 36) =~= r);
    assert(le_at(b, 0, 4) == era);
    assert(le_at(b, 4, 16) == payout);
    assert(le_at(b, 20, 16) == remainder);
    reveal_strlit("EraPaid");
    reveal_strlit("EraPayout");
    reveal_strlit("Bonded");
    reveal_strlit("Chilled");
    reveal_strlit("Chill");
    assert(b.len() == 36);
    assert(crate::event::word(b, 0) == era);
    assert(crate::event::bal(b, 4) == payout);
    assert(crate::event::bal(b, 20) == remainder);
    assert("EraPaid"@[0] != "Bonded"@[0]);
    assert("EraPaid"@[0] != "Chilled"@[0]);
    assert("EraPaid"@[0] != "Chill"@[0]);
    assert("EraPayout"@[0] != "Bonded"@[0]);
    assert("EraPayout"@[0] != "Chilled"@[0]);
    assert("EraPayout"@[0] != "Chill"@[0]);
}

/// The names of the staking events differ from each other where the reading of one comes
/// before that of another.
proof fn lemma_staking_names_differ()
    ensures
        "Rewarded"@ != "Bonded"@,
        "Rewarded"@ != "Chilled"@,
        "Rewarded"@ != "Chill"@,
        "Rewarded"@ != "EraPaid"@,
        "Rewarded"@ != "EraPayout"@,
        "Rewarded"@ != "Kicked"@,
        "Rewarded"@ != "OldSlashingReportDiscarded"@,
        "Rewarded"@ != "PayoutStarted"@,
        "Reward"@ != "Bonded"@,
        "Reward"@ != "Chilled"@,
        "Reward"@ != "Chill"@,
        "Reward"@ != "EraPaid"@,
        "Reward"@ != "EraPayout"@,
        "Reward"@ != "Kicked"@,
        "Reward"@ != "OldSlashingReportDiscarded"@,
        "Reward"@ != "PayoutStarted"@,
        "Slashed"@ != "Bonded"@,
        "Slashed"@ != "Chilled"@,
        "Slashed"@ != "Chill"@,
        "Slashed"@ != "EraPaid"@,
        "Slashed"@ != "EraPayout"@,
        "Slashed"@ != "Kicked"@,
        "Slashed"@ != "OldSlashingReportDiscarded"@,
        "Slashed"@ != "PayoutStarted"@,
        "Slashed"@ != "Rewarded"@,
        "Slashed"@ != "Reward"@,
        "Slash"@ != "Bonded"@,
        "Slash"@ != "Chilled"@,
        "Slash"@ != "Chill"@,
        "Slash"@ != "EraPaid"@,
        "Slash"@ != "EraPayout"@,
        "Slash"@ != "Kicked"@,
        "Slash"@ != "OldSlashingReportDiscarded"@,
        "Slash"@ != "PayoutStarted"@,
        "Slash"@ != "Rewarded"@,
        "Slash"@ != "Reward"@,
        "Unbonded"@ != "Bonded"@,
        "Unbonded"@ != "Chilled"@,
        "Unbonded"@ != "Chill"@,
        "Unbonded"@ != "EraPaid"@,
        "Unbonded"@ != "EraPayout"@,
        "Unbonded"@ != "Kicked"@,
        "Unbonded"@ != "OldSlashingReportDiscarded"@,
        "Unbonded"@ != "PayoutStarted"@,
        "Unbonded"@ != "Rewarded"@,
        "Unbonded"@ != "Reward"@,
        "Unbonded"@ != "Slashed"@,
        "Unbonded"@ != "Slash"@,
        "Unbonded"@ != "StakersElected"@,
        "Unbonded"@ != "StakingElection"@,
        "Unbonded"@ != "StakingElectionFailed"@,
        "Withdrawn"@ != "Bonded"@,
        "Withdrawn"@ != "Chilled"@,
        "Withdrawn"@ != "Chill"@,
        "Withdrawn"@ != "EraPaid"@,
        "Withdrawn"@ != "EraPayout"@,
        "Withdrawn"@ != "Kicked"@,
        "Withdrawn"@ != "OldSlashingReportDiscarded"@,
        "Withdrawn"@ != "PayoutStarted"@,
        "Withdrawn"@ != "Rewarded"@,
        "Withdrawn"@ != "Reward"@,
        "Withdrawn"@ != "Slashed"@,
        "Withdrawn"@ != "Slash"@,
        "Withdrawn"@ != "StakersElected"@,
        "Withdrawn"@ != "StakingElection"@,
        "Withdrawn"@ != "StakingElectionFailed"@,
        "Withdrawn"@ != "Unbonded"@,
        "PayoutStarted"@ != "Bonded"@,
        "PayoutStarted"@ != "Chilled"@,
        "PayoutStarted"@ != "Chill"@,
        "PayoutStarted"@ != "EraPaid"@,
        "PayoutStarted"@ != "EraPayout"@,
        "PayoutStarted"@ != "Kicked"@,
        "PayoutStarted"@ != "OldSlashingReportDiscarded"@,
        "Kicked"@ != "Bonded"@,
        "Kicked"@ != "Chilled"@,
        "Kicked"@ != "Chill"@,
        "Kicked"@ != "EraPaid"@,
        "Kicked"@ != "EraPayout"@,
        "EraPaid"@ != "Bonded"@,
        "EraPaid"@ != "Chilled"@,
        "EraPaid"@ != "Chill"@,
        "EraPayout"@ != "Bonded"@,
        "EraPayout"@ != "Chilled"@,
        "EraPayout"@ != "Chill"@,
{
    reveal_strlit("Bonded");
    reveal_strlit("Chilled");
    reveal_strlit("Chill");
    reveal_strlit("EraPaid");
    reveal_strlit("EraPayout");
    reveal_strlit("Kicked");
    reveal_strlit("OldSlashingReportDiscarded");
    reveal_strlit("PayoutStarted");
    reveal_strlit("Rewarded");
    reveal_strlit("Reward");
    reveal_strlit("Slashed");
    reveal_strlit("Slash");
    reveal_strlit("StakersElected");
    reveal_strlit("StakingElection");
    reveal_strlit("StakingElectionFailed");
    reveal_strlit("Unbonded");
    reveal_strlit("Withdrawn");
    assert("Rewarded"@[0] != "Bonded"@[0]);
    assert("Rewarded"@[0] != "Chilled"@[0]);
    assert("Rewarded"@[0] != "Chill"@[0]);
    assert("Rewarded"@[0] != "EraPaid"@[0]);
    assert("Rewarded"@[0] != "EraPayout"@[0]);
    assert("Rewarded"@[0] != "Kicked"@[0]);
    assert("Rewarded"@[0] != "OldSlashingReportDiscarded"@[0]);
    assert("Rewarded"@[0] != "PayoutStarted"@[0]);
    assert("Reward"@[0] != "Bonded"@[0]);
    assert("Reward"@[0] != "Chilled"@[0]);
    assert("Reward"@[0] != "Chill"@[0]);
    assert("Reward"@[0] != "EraPaid"@[0]);
    assert("Reward"@[0] != "EraPayout"@[0]);
    assert("Reward"@[0] != "Kicked"@[0]);
    assert("Reward"@[0] != "OldSlashingReportDiscarded"@[0]);
    assert("Reward"@[0] != "PayoutStarted"@[0]);
    assert("Slashed"@[0] != "Bonded"@[0]);
    assert("Slashed"@[0] != "Chilled"@[0]);
    assert("Slashed"@[0] != "Chill"@[0]);
    assert("Slashed"@[0] != "EraPaid"@[0]);
    assert("Slashed"@[0] != "EraPayout"@[0]);
    assert("Slashed"@[0] != "Kicked"@[0]);
    assert("Slashed"@[0] != "OldSlashingReportDiscarded"@[0]);
    assert("Slashed"@[0] != "PayoutStarted"@[0]);
    assert("Slashed"@[0] != "Rewarded"@[0]);
    assert("Slashed"@[0] != "Reward"@[0]);
    assert("Slash"@[0] != "Bonded"@[0]);
    assert("Slash"@[0] != "Chilled"@[0]);
    assert("Slash"@[0] != "Chill"@[0]);
    assert("Slash"@[0] != "EraPaid"@[0]);
    assert("Slash"@[0] != "EraPayout"@[0]);
    assert("Slash"@[0] != "Kicked"@[0]);
    assert("Slash"@[0] != "OldSlashingReportDiscarded"@[0]);
    assert("Slash"@[0] != "PayoutStarted"@[0]);
    assert("Slash"@[0] != "Rewarded"@[0]);
    assert("Slash"@[0] != "Reward"@[0]);
    assert("Unbonded"@[0] != "Bonded"@[0]);
    assert("Unbonded"@[0] != "Chilled"@[0]);
    assert("Unbonded"@[0] != "Chill"@[0]);
    assert("Unbonded"@[0] != "EraPaid"@[0]);
    assert("Unbonded"@[0] != "EraPayout"@[0]);
    assert("Unbonded"@[0] != "Kicked"@[0]);
    assert("Unbonded"@[0] != "OldSlashingReportDiscarded"@[0]);
    assert("Unbonded"@[0] != "PayoutStarted"@[0]);
    assert("Unbonded"@[0] != "Rewarded"@[0]);
    assert("Unbonded"@[0] != "Reward"@[0]);
    assert("Unbonded"@[0] != "Slashed"@[0]);
    assert("Unbonded"@[0] != "Slash"@[0]);
    assert("Unbonded"@[0] != "StakersElected"@[0]);
    assert("Unbonded"@[0] != "StakingElection"@[0]);
    assert("Unbonded"@[0] != "StakingElectionFailed"@[0]);
    assert("Withdrawn"@[0] != "Bonded"@[0]);
    assert("Withdrawn"@[0] != "Chilled"@[0]);
    assert("Withdrawn"@[0] != "Chill"@[0]);
    assert("Withdrawn"@[0] != "EraPaid"@[0]);
    assert("Withdrawn"@[0] != "EraPayout"@[0]);
    assert("Withdrawn"@[0] != "Kicked"@[0]);
    assert("Withdrawn"@[0] != "OldSlashingReportDiscarded"@[0]);
    assert("Withdrawn"@[0] != "PayoutStarted"@[0]);
    assert("Withdrawn"@[0] != "Rewarded"@[0]);
    assert("Withdrawn"@[0] != "Reward"@[0]);
    assert("Withdrawn"@[0] != "Slashed"@[0]);
    assert("Withdrawn"@[0] != "Slash"@[0]);
    assert("Withdrawn"@[0] != "StakersElected"@[0]);
    assert("Withdrawn"@[0] != "StakingElection"@[0]);
    assert("Withdrawn"@[0] != "StakingElectionFailed"@[0]);
    assert("Withdrawn"@[0] != "Unbonded"@[0]);
    assert("PayoutStarted"@[0] != "Bonded"@[0]);
    assert("PayoutStarted"@[0] != "Chilled"@[0]);
    assert("PayoutStarted"@[0] != "Chill"@[0]);
    assert("PayoutStarted"@[0] != "EraPaid"@[0]);
    assert("PayoutStarted"@[0] != "EraPayout"@[0]);
    assert("PayoutStarted"@[0] != "Kicked"@[0]);
    assert("PayoutStarted"@[0] != "OldSlashingReportDiscarded"@[0]);
    assert("Kicked"@[0] != "Bonded"@[0]);
    assert("Kicked"@[0] != "Chilled"@[0]);
    assert("Kicked"@[0] != "Chill"@[0]);
    assert("Kicked"@[0] != "EraPaid"@[0]);
    assert("Kicked"@[0] != "EraPayout"@[0]);
    assert("EraPaid"@[0] != "Bonded"@[0]);
    assert("EraPaid"@[0] != "Chilled"@[0]);
    assert("EraPaid"@[0] != "Chill"@[0]);
    assert("EraPayout"@[0] != "Bonded"@[0]);
    assert("EraPayout"@[0] != "Chilled"@[0]);
    assert("EraPayout"@[0] != "Chill"@[0]);
}

/// The account at the start of `b`, where `b` starts with the 32 bytes of `id`, is `id`.
proof fn lemma_account_read(b: Seq<u8>, pos: int, id: AccountId)
    requires
        0 <= pos,
        pos + 32 <= b.len(),
        b.subrange(pos, pos + 32) == id.0@,
    ensures
        crate::event::acct(b, pos) == id,
{
    let a = crate::event::acct(b, pos).0;
    assert(a@ == id.0@);
    assert(a =~= id.0);
}

/// The staking events whose fields are an account and an amount (`Bonded`, `Rewarded`,
/// `Slashed`, `Unbonded`, `Withdrawn`, and the older names `Reward` and `Slash`) read the
/// account from the first 32 bytes and the amount from the 16 little-endian bytes after it:
/// the encoding of `(id, amount)` decodes to exactly those two.
pub proof fn law_account_amount_events_in_order(xi: Option<u32>, id: AccountId, amount: u128)
    ensures
        ({
            let b = id.0@ + le_bytes(amount as nat, 16);
            &&& staking_event_spec("Bonded"@, xi, b) == Some(
                Some(StakingEvent::Bonded { extrinsic_index: xi, account_id: id, balance: amount }),
            )
            &&& staking_event_spec("Rewarded"@, xi, b) == Some(
                Some(StakingEvent::Rewarded { extrinsic_index: xi, rewardee_account_id: id, amount }),
            )
            &&& staking_event_spec("Reward"@, xi, b) == Some(
                Some(StakingEvent::Rewarded { extrinsic_index: xi, rewardee_account_id: id, amount }),
            )
            &&& staking_event_spec("Slashed"@, xi, b) == Some(
                Some(StakingEvent::Slashed { extrinsic_index: xi, validator_account_id: id, amount }),
            )
            &&& staking_event_spec("Slash"@, xi, b) == Some(
                Some(StakingEvent::Slashed { extrinsic_index: xi, validator_account_id: id, amount }),
            )
            &&& staking_event_spec("Unbonded"@, xi, b) == Some(
                Some(StakingEvent::Unbonded { extrinsic_index: xi, account_id: id, amount }),
            )
            &&& staking_event_spec("Withdrawn"@, xi, b) == Some(
                Some(StakingEvent::Withdrawn { extrinsic_index: xi, account_id: id, amount }),
            )
        }),
{
    lemma_pow256_bounds();
    lemma_le_bytes_read_back(amount as nat, 16);
    let b = id.0@ + le_bytes(amount as nat, 16);
    assert(b.subrange(0, 32) =~= id.0@);
    assert(b.subrange(32, 48) =~= le_bytes(amount as nat, 16));
    lemma_account_read(b, 0, id);
    assert(crate::event::bal(b, 32) == amount);
    lemma_staking_names_differ();
}

/// `PayoutStarted` reads the era index from the first 4 little-endian bytes and the validator
/// from the 32 after them; `Kicked` reads the nominator from the first 32 bytes and the
/// validator from the next 32.
pub proof fn law_payout_started_and_kicked_in_order(xi: Option<u32>, era: u32, a: AccountId, v: AccountId)
    ensures
        staking_event_spec("PayoutStarted"@, xi, le_bytes(era as nat, 4) + v.0@) == Some(
            Some(StakingEvent::PayoutStarted { extrinsic_index: xi, era_index: era, validator_account_id: v }),
        ),
        staking_event_spec("Kicked"@, xi, a.0@ + v.0@) == Some(
            Some(StakingEvent::NominatorKicked { extrinsic_index: xi, nominator_account_id: a, validator_account_id: v }),
        ),
{
    lemma_pow256_bounds();
    lemma_le_bytes_read_back(era as nat, 4);
    let b = le_bytes(era as nat, 4) + v.0@;
    assert(b.subrange(0, 4) =~= le_bytes(era as nat, 4));
    assert(b.subrange(4, 36) =~= v.0@);
    lemma_account_read(b, 4, v);
    assert(crate::event::word(b, 0) == era);
    let k = a.0@ + v.0@;
    assert(k.subrange(0, 32) =~= a.0@);
    assert(k.subrange(32, 64) =~= v.0@);
    lemma_account_read(k, 0, a);
    lemma_account_read(k, 32, v);
    lemma_staking_names_differ();
}

// ---------------------------------------------------------------------------
// Mortal eras.
// ---------------------------------------------------------------------------

/// The quantization factor of the mortal era of period `2^k`: the period divided by 4096, and
/// at least 1.
pub open spec fn era_quantum(k: nat) -> nat {
    if k > 12 {
        pow2((k - 12) as nat)
    } else {
        1
    }
}

/// The two bytes that encode the mortal era of period `2^k` and phase `phase`: a 16-bit
/// little-endian number whose low four bits hold `k - 1` and whose high twelve bits hold the
/// phase divided by the quantization factor.
pub open spec fn mortal_era_bytes(k: nat, phase: nat) -> Seq<u8> {
    let code = (k - 1) + 16 * (phase / era_quantum(k));
    seq![(code % 256) as u8, (code / 256) as u8]
}

/// `2^k` for the exponents of an era's period.
proof fn lemma_pow2_values(k: nat)
    requires
        k <= 16,
    ensures
        pow2(0) == 1,
        pow2(2) == 4,
        pow2(12) == 4096,
        pow2(16) == 65536,
        k >= 2 ==> 4 <= pow2(k) <= 65536,
        k <= 12 ==> pow2(k) <= 4096,
        k < 12 ==> pow2(k) < 4096,
        k > 12 ==> pow2(k) == 4096 * pow2((k - 12) as nat) && 1 <= pow2((k - 12) as nat) <= 16,
{
    reveal_with_fuel(pow2, 17);
    if k == 0 {} else if k == 1 {} else if k == 2 {} else if k == 3 {} else if k == 4 {}
    else if k == 5 {} else if k == 6 {} else if k == 7 {} else if k == 8 {} else if k == 9 {}
    else if k == 10 {} else if k == 11 {} else if k == 12 {} else if k == 13 {} else if k == 14 {}
    else if k == 15 {} else {}
}

/// A mortal era reads back as the period and phase that it encodes: for every period `2^k`
/// from 4 to 65536 and every phase below it that the quantization factor divides, the two bytes
/// read as the era of that period and phase, two bytes long.
pub proof fn law_mortal_era_read_back(k: nat, phase: nat, rest: Seq<u8>)
    requires
        2 <= k <= 16,
        phase < pow2(k),
        phase % era_quantum(k) == 0,
    ensures
        era_at(mortal_era_bytes(k, phase) + rest, 0) == Some((TransactionEra::Mortal(pow2(k) as u64, phase as u64), 2nat)),
{
    lemma_pow2_values(k);
    let q = era_quantum(k);
    let m = phase / q;
    assert(1 <= q <= 16);
    assert(pow2(k) <= 4096 * q);
    assert(m < 4096) by (nonlinear_arith)
        requires
            phase < 4096 * q,
            q >= 1,
            m == phase / q,
    ;
    assert(m * q == phase) by (nonlinear_arith)
        requires
            phase % q == 0,
            q >= 1,
            m == phase / q,
    ;
    let code: nat = ((k - 1) + 16 * m) as nat;
    assert(code < 65536);
    assert(code % 16 == k - 1);
    assert(code / 16 == m);
    let b = mortal_era_bytes(k, phase) + rest;
    assert(b[0] == (code % 256) as u8);
    assert(b[1] == (code / 256) as u8);
    assert(crate::extrinsic::era_code(b, 0) == code);
    assert(crate::extrinsic::era_period(code) == pow2(k));
    assert(pow2(k) / 4096 == (if k >= 12 { q } else { 0 }));
    assert(crate::extrinsic::era_phase(code) == phase);
    assert(b[0] != 0);
}

// ---------------------------------------------------------------------------
// Identity judgements.
// ---------------------------------------------------------------------------

/// The encoding of the judgement `tag` of registrar `registrar`: the registrar's 4-byte
/// little-endian index, the judgement's tag, and after tag 1 (fee paid) the 16-byte fee.
pub open spec fn judgement_bytes(registrar: u32, tag: u8, fee: u128) -> Seq<u8> {
    le_bytes(registrar as nat, 4) + seq![tag] + (if tag == 1 {
        le_bytes(fee as nat, 16)
    } else {
        Seq::empty()
    })
}

/// The encodings of the judgements `js` (registrar, tag, fee), one after the other.
pub open spec fn judgements_bytes(js: Seq<(u32, u8, u128)>) -> Seq<u8>
    decreases js.len(),
{
    if js.len() == 0 {
        Seq::empty()
    } else {
        judgements_bytes(js.drop_last()) + judgement_bytes(js.last().0, js.last().1, js.last().2)
    }
}

/// A list of judgements reads in full, and confirms the identity exactly when every judgement
/// in it is `Reasonable` (tag 2) or `KnownGood` (tag 3); the list ends where its encoding ends.
pub proof fn law_judgements_confirm_when_all_reasonable_or_known_good(js: Seq<(u32, u8, u128)>, rest: Seq<u8>)
    requires
        forall|i: int| 0 <= i < js.len() ==> #[trigger] js[i].1 <= 6,
    ensures
        judgements_read(judgements_bytes(js) + rest, 0, js.len()) == (
            true,
            forall|i: int| 0 <= i < js.len() ==> #[trigger] js[i].1 == 2 || js[i].1 == 3,
        ),
        judgement_pos(judgements_bytes(js) + rest, 0, js.len()) == judgements_bytes(js).len(),
    decreases js.len(),
{
    if js.len() > 0 {
        let init = js.drop_last();
        let (r, t, f) = js.last();
        let enc = judgement_bytes(r, t, f);
        let rest2 = enc + rest;
        assert forall|i: int| 0 <= i < init.len() implies #[trigger] init[i].1 <= 6 by {
            assert(init[i] == js[i]);
        }
        law_judgements_confirm_when_all_reasonable_or_known_good(init, rest2);
        let b = judgements_bytes(js) + rest;
        assert(b =~= judgements_bytes(init) + rest2);
        lemma_pow256_bounds();
        lemma_le_bytes_read_back(r as nat, 4);
        lemma_le_bytes_read_back(f as nat, 16);
        let p = judgements_bytes(init).len();
        assert(js.last().1 <= 6);
        assert(b[(p + 4) as int] == enc[4]);
        assert(enc[4] == t);
        if t == 1 {
            assert(enc.len() == 21);
        } else {
            assert(enc.len() == 5);
        }
        let all_init = forall|i: int| 0 <= i < init.len() ==> #[trigger] init[i].1 == 2 || init[i].1 == 3;
        let all = forall|i: int| 0 <= i < js.len() ==> #[trigger] js[i].1 == 2 || js[i].1 == 3;
        assert(all == (all_init && (t == 2 || t == 3))) by {
            if all {
                assert forall|i: int| 0 <= i < init.len() implies #[trigger] init[i].1 == 2 || init[i].1 == 3 by {
                    assert(init[i] == js[i]);
                }
                assert(js[js.len() - 1].1 == 2 || js[js.len() - 1].1 == 3);
            }
            if all_init && (t == 2 || t == 3) {
                assert forall|i: int| 0 <= i < js.len() implies #[trigger] js[i].1 == 2 || js[i].1 == 3 by {
                    if i < init.len() {
                        assert(init[i] == js[i]);
                    }
                }
            }
        }
    }
}

// ---------------------------------------------------------------------------
// Compact numbers.
// ---------------------------------------------------------------------------

/// A number below `2^32` reads back from its compact encoding, whatever follows it: in one
/// byte below 64, two below `2^14`, four below `2^30`, and a marker byte and four bytes above,
/// for every integer type at least 4 bytes wide.
pub proof fn law_compact_read_back(n: nat, width: nat, rest: Seq<u8>)
    requires
        n < 0x1_0000_0000,
        width >= 4,
    ensures
        crate::codec::compact_spec(compact_encoding(n) + rest, width) == Some((n, compact_encoding(n).len())),
{
    let e = compact_encoding(n);
    let s = e + rest;
    lemma_pow256_bounds();
    lemma_pow256_grows(4, width);
    if n < 64 {
        assert(s[0] == (n * 4) as u8);
    } else if n < 0x4000 {
        let v = n * 4 + 1;
        assert(s[0] == (v % 256) as u8);
        assert(s[1] == (v / 256) as u8);
        assert(s.subrange(0, 2) =~= seq![(v % 256) as u8, (v / 256) as u8]);
        let t = s.subrange(0, 2);
        assert(t.drop_first().drop_first() =~= Seq::<u8>::empty());
        assert(le_value(t.drop_first().drop_first()) == 0);
        assert(le_value(t.drop_first()) == v / 256);
        assert(le_value(t) == v);
        assert((v % 256) % 4 == 1);
    } else if n < 0x4000_0000 {
        let v = n * 4 + 2;
        lemma_le_bytes_read_back(v, 4);
        assert(s.subrange(0, 4) =~= le_bytes(v, 4));
        assert(s[0] == (v % 256) as u8);
        assert((v % 256) % 4 == 2);
    } else {
        lemma_le_bytes_read_back(n, 4);
        assert(s[0] == 3);
        assert(s.subrange(1, 5) =~= le_bytes(n, 4));
    }
}

/// `256^k` grows with `k`.
proof fn lemma_pow256_grows(k: nat, m: nat)
    requires
        k <= m,
    ensures
        pow256(k) <= pow256(m),
    decreases m - k,
{
    if k < m {
        lemma_pow256_grows(k, (m - 1) as nat);
    }
}

/// Validator preferences are a compact commission and then a flag byte: the commission read
/// is the one encoded (one billion where more is encoded), and nominations are blocked
/// exactly when the flag is 1.
pub proof fn law_preferences_read_in_order(commission: u32, blocked: bool, rest: Seq<u8>)
    ensures
        crate::staking::preferences_spec(compact_encoding(commission as nat) + seq![if blocked { 1u8 } else { 0u8 }] + rest)
            == Some(
            crate::staking::ValidatorPreferences {
                commission_per_billion: if commission <= 1_000_000_000 {
                    commission
                } else {
                    1_000_000_000
                },
                blocks_nominations: blocked,
            },
        ),
{
    let flag: u8 = if blocked { 1 } else { 0 };
    let e = compact_encoding(commission as nat);
    let b = e + seq![flag] + rest;
    law_compact_read_back(commission as nat, 4, seq![flag] + rest);
    assert(b =~= e + (seq![flag] + rest));
    assert(crate::codec::rest(b, 0) =~= b);
    assert(b[e.len() as int] == flag);
}

} // verus!
