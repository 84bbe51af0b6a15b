//! Properties of the library as a whole: what holds of every input, or across functions.
use crate::crypto::{
    account_hex_bytes, account_text_reading, hex_decode_spec, hex_digit_lower, hex_digit_upper, hex_lower, hex_upper,
    hex_val, AccountId,
};
use crate::strings::{digit_char, trim_hex_prefix_spec};
use vstd::utf8::{encode_scalar, encode_utf8, leading_byte_width_1};
use crate::event::{staking_event_spec, event_extrinsic_index, event_head, event_is, phase_at, EventHead, ImOnlineEvent, SubstrateEvent};
use crate::event::lemma_event_index;
use crate::extrinsic::{
    call_begin, call_head, calls_reading, carried_call, ext_body_is, ext_is, ext_signature,
    followed_is, lemma_calls_seg_headers, lemma_carried_header, opt_signature_same, utility_call_is,
    utility_calls, utility_signature, CallHead, Signature, SubstrateExtrinsic, UtilityExtrinsic,
};
use crate::metadata::RuntimeMetadata;
use crate::staking::compact_at;
use crate::governance::{
    nft_chain_id, nft_chain_of_lowercase, referendum_status_name, referendum_status_of, NFTChain,
    ReferendumStatus,
};
use crate::report::{count_votes, ParaVote, ParaVoteType};
use crate::staking::NominationSummary;
use crate::storage::{blake2_128_hash, hashed_key, twox_64_hash, StorageHasher};
use crate::substrate::{
    account_confirmed, max_stake_index, min_stake_index, sum_total_stakes, Account, ValidatorStake,
};
use crate::server::{finalized_block_event, finalized_block_events, last_seen_block, BusEvent};
use crate::subvt::inactive_of;
use crate::diff::{same_account_record, same_nomination, same_opt_validator_stake};
use crate::substrate::{account_display, account_text};
use crate::telegram::{chat_state_name, chat_state_of, TelegramChatState};
use vstd::prelude::*;

verus! {

/// An account whose parent account is confirmed is confirmed too.
pub proof fn law_confirmed_parent_confirms_child(child: Account, parent: Account)
    requires
        *child.parent == Some(parent),
        account_confirmed(parent),
    ensures
        account_confirmed(child),
{
}

/// Every vote is explicit, implicit or missed: the three counts add up to the number of
/// votes.
pub proof fn law_para_vote_counts_add_up(votes: Seq<ParaVote>)
    ensures
        count_votes(votes, ParaVoteType::EXPLICIT) + count_votes(votes, ParaVoteType::IMPLICIT)
            + count_votes(votes, ParaVoteType::MISSED) == votes.len(),
    decreases votes.len(),
{
    if votes.len() > 0 {
        law_para_vote_counts_add_up(votes.drop_last());
    }
}

/// The least total stake of an era is at most every validator's total stake, and the
/// greatest at least every one.
pub proof fn law_min_max_stake_bound_all(s: Seq<ValidatorStake>, i: int)
    requires
        0 <= i < s.len(),
    ensures
        s[min_stake_index(s, s.len()) as int].total_stake <= s[i].total_stake,
        s[i].total_stake <= s[max_stake_index(s, s.len()) as int].total_stake,
{
    lemma_min_index_least(s, s.len(), i);
    lemma_max_index_greatest(s, s.len(), i);
}

proof fn lemma_min_index_least(s: Seq<ValidatorStake>, n: nat, i: int)
    requires
        0 <= i < n <= s.len(),
    ensures
        min_stake_index(s, n) < n,
        s[min_stake_index(s, n) as int].total_stake <= s[i].total_stake,
    decreases n,
{
    if n > 1 {
        if i < n - 1 {
            lemma_min_index_least(s, (n - 1) as nat, i);
        } else {
            lemma_min_index_least(s, (n - 1) as nat, 0);
        }
    }
}

proof fn lemma_max_index_greatest(s: Seq<ValidatorStake>, n: nat, i: int)
    requires
        0 <= i < n <= s.len(),
    ensures
        max_stake_index(s, n) < n,
        s[i].total_stake <= s[max_stake_index(s, n) as int].total_stake,
    decreases n,
{
    if n > 1 {
        if i < n - 1 {
            lemma_max_index_greatest(s, (n - 1) as nat, i);
        } else {
            lemma_max_index_greatest(s, (n - 1) as nat, 0);
        }
    }
}

/// The average total stake lies between the least and the greatest.
pub proof fn law_average_stake_between_min_and_max(s: Seq<ValidatorStake>)
    requires
        s.len() > 0,
    ensures
        s[min_stake_index(s, s.len()) as int].total_stake <= sum_total_stakes(s) / s.len(),
        sum_total_stakes(s) / s.len() <= s[max_stake_index(s, s.len()) as int].total_stake,
{
    let lo = s[min_stake_index(s, s.len()) as int].total_stake as nat;
    let hi = s[max_stake_index(s, s.len()) as int].total_stake as nat;
    assert forall|i: int| 0 <= i < s.len() implies lo <= (#[trigger] s[i]).total_stake <= hi by {
        law_min_max_stake_bound_all(s, i);
    }
    lemma_sum_bounds(s, s.len(), lo, hi);
    let n = s.len();
    let t = sum_total_stakes(s);
    assert(lo * n <= t && t <= hi * n);
    assert(lo <= t / n) by (nonlinear_arith)
        requires
            lo * n <= t,
            n > 0,
    ;
    assert(t / n <= hi) by (nonlinear_arith)
        requires
            t <= hi * n,
            n > 0,
    ;
}

proof fn lemma_sum_bounds(s: Seq<ValidatorStake>, n: nat, lo: nat, hi: nat)
    requires
        n == s.len(),
        n > 0,
        forall|i: int| 0 <= i < s.len() ==> lo <= (#[trigger] s[i]).total_stake <= hi,
    ensures
        lo * n <= sum_total_stakes(s) <= hi * n,
    decreases n,
{
    assert(sum_total_stakes(s) == sum_total_stakes(s.drop_last()) + s.last().total_stake);
    assert(s.last() == s[s.len() - 1]);
    assert(lo <= s[s.len() - 1].total_stake <= hi);
    if n > 1 {
        let t = s.drop_last();
        assert forall|i: int| 0 <= i < t.len() implies lo <= (#[trigger] t[i]).total_stake <= hi by {
            assert(t[i] == s[i]);
        }
        lemma_sum_bounds(t, (n - 1) as nat, lo, hi);
        let x = s.last().total_stake as nat;
        assert(sum_total_stakes(s) == sum_total_stakes(t) + x);
        let m = (n - 1) as nat;
        assert(lo * m <= sum_total_stakes(t) <= hi * m);
        assert(lo * n == lo * (n - 1) + lo) by (nonlinear_arith)
            requires
                n >= 1,
        ;
        assert(hi * n == hi * (n - 1) + hi) by (nonlinear_arith)
            requires
                n >= 1,
        ;
    } else {
        assert(s.drop_last().len() == 0);
        assert(lo * 1 == lo);
        assert(hi * 1 == hi);
    }
}

/// No nomination counted as inactive is made by a stash among the active stakers, and
/// every inactive nomination is one of the nominations.
pub proof fn law_inactive_nominations_are_not_active(noms: Seq<NominationSummary>, ids: Seq<AccountId>)
    ensures
        forall|k: int|
            0 <= k < inactive_of(noms, ids).len() ==> !ids.contains(
                (#[trigger] inactive_of(noms, ids)[k]).stash_account.id,
            ) && noms.contains(inactive_of(noms, ids)[k]),
        inactive_of(noms, ids).len() <= noms.len(),
    decreases noms.len(),
{
    if noms.len() > 0 {
        let p = noms.drop_last();
        law_inactive_nominations_are_not_active(p, ids);
        let r = inactive_of(noms, ids);
        let q = inactive_of(p, ids);
        assert forall|k: int| 0 <= k < r.len() implies !ids.contains((#[trigger] r[k]).stash_account.id) && noms.contains(r[k]) by {
            if k < q.len() {
                assert(r[k] == q[k]);
                let j = choose|j: int| 0 <= j < p.len() && p[j] == q[k];
                assert(noms[j] == p[j]);
            } else {
                assert(r[k] == noms.last());
                assert(noms[noms.len() - 1] == noms.last());
            }
        }
    }
}

/// A chat state read back from its name is the same state.
pub proof fn law_chat_state_name_round_trip(s: TelegramChatState)
    ensures
        chat_state_of(chat_state_name(s)) == Some(s),
{
    reveal_strlit("Default");
    reveal_strlit("AddValidator");
    reveal_strlit("EnterBugReport");
    reveal_strlit("EnterFeatureRequest");
    assert("Default"@[0] != "AddValidator"@[0]);
    assert("Default"@[0] != "EnterBugReport"@[0]);
    assert("Default"@[0] != "EnterFeatureRequest"@[0]);
    assert("AddValidator"@[0] != "EnterBugReport"@[0]);
    assert("AddValidator"@[0] != "EnterFeatureRequest"@[0]);
    assert("EnterBugReport"@.len() != "EnterFeatureRequest"@.len());
}

/// An NFT chain read back from its identifier is the same chain.
pub proof fn law_nft_chain_id_round_trip(c: NFTChain)
    ensures
        nft_chain_of_lowercase(nft_chain_id(c)) == Some(c),
{
    reveal_strlit("acala");
    reveal_strlit("karura");
    reveal_strlit("rmrk1");
    reveal_strlit("rmrk2");
    reveal_strlit("statemine");
    reveal_strlit("statemint");
    reveal_strlit("unique");
    assert("acala"@[0] != "karura"@[0]);
    assert("acala"@[0] != "rmrk1"@[0]);
    assert("acala"@[0] != "rmrk2"@[0]);
    assert("acala"@[0] != "statemine"@[0]);
    assert("acala"@[0] != "statemint"@[0]);
    assert("acala"@[0] != "unique"@[0]);
    assert("karura"@[0] != "rmrk1"@[0]);
    assert("karura"@[0] != "rmrk2"@[0]);
    assert("karura"@[0] != "statemine"@[0]);
    assert("karura"@[0] != "statemint"@[0]);
    assert("karura"@[0] != "unique"@[0]);
    assert("rmrk1"@[4] != "rmrk2"@[4]);
    assert("rmrk1"@[0] != "statemine"@[0]);
    assert("rmrk1"@[0] != "statemint"@[0]);
    assert("rmrk1"@[0] != "unique"@[0]);
    assert("rmrk2"@[0] != "statemine"@[0]);
    assert("rmrk2"@[0] != "statemint"@[0]);
    assert("rmrk2"@[0] != "unique"@[0]);
    assert("statemine"@[8] != "statemint"@[8]);
    assert("statemine"@[0] != "unique"@[0]);
    assert("statemint"@[0] != "unique"@[0]);
}

/// A referendum status read back from its name is the same status, for every status that
/// the reader accepts (all but `ConfirmStarted` and `Killed`).
pub proof fn law_referendum_status_round_trip(s: ReferendumStatus)
    requires
        s != ReferendumStatus::ConfirmStarted,
        s != ReferendumStatus::Killed,
    ensures
        referendum_status_of(referendum_status_name(s)) == Some(s),
{
    reveal_strlit("Submitted");
    reveal_strlit("DecisionDepositPlaced");
    reveal_strlit("Deciding");
    reveal_strlit("Executed");
    reveal_strlit("ExecutionFailed");
    reveal_strlit("TimedOut");
    reveal_strlit("Cancelled");
    reveal_strlit("Rejected");
    reveal_strlit("Confirmed");
    let names = seq![
        "Submitted"@,
        "DecisionDepositPlaced"@,
        "Deciding"@,
        "Executed"@,
        "ExecutionFailed"@,
        "TimedOut"@,
        "Cancelled"@,
        "Rejected"@,
        "Confirmed"@,
    ];
    assert("Submitted"@[0] != "DecisionDepositPlaced"@[0]);
    assert("Submitted"@[0] != "Deciding"@[0]);
    assert("Submitted"@[0] != "Executed"@[0]);
    assert("Submitted"@[0] != "ExecutionFailed"@[0]);
    assert("Submitted"@[0] != "TimedOut"@[0]);
    assert("Submitted"@[0] != "Cancelled"@[0]);
    assert("Submitted"@[0] != "Rejected"@[0]);
    assert("Submitted"@[0] != "Confirmed"@[0]);
    assert("DecisionDepositPlaced"@.len() != "Deciding"@.len());
    assert("DecisionDepositPlaced"@[0] != "Executed"@[0]);
    assert("DecisionDepositPlaced"@[0] != "ExecutionFailed"@[0]);
    assert("DecisionDepositPlaced"@[0] != "TimedOut"@[0]);
    assert("DecisionDepositPlaced"@[0] != "Cancelled"@[0]);
    assert("DecisionDepositPlaced"@[0] != "Rejected"@[0]);
    assert("DecisionDepositPlaced"@[0] != "Confirmed"@[0]);
    assert("Deciding"@[0] != "Executed"@[0]);
    assert("Deciding"@[0] != "ExecutionFailed"@[0]);
    assert("Deciding"@[0] != "TimedOut"@[0]);
    assert("Deciding"@[0] != "Cancelled"@[0]);
    assert("Deciding"@[0] != "Rejected"@[0]);
    assert("Deciding"@[0] != "Confirmed"@[0]);
    assert("Executed"@.len() != "ExecutionFailed"@.len());
    assert("Executed"@[0] != "TimedOut"@[0]);
    assert("Executed"@[0] != "Cancelled"@[0]);
    assert("Executed"@[0] != "Rejected"@[0]);
    assert("Executed"@[0] != "Confirmed"@[0]);
    assert("ExecutionFailed"@[0] != "TimedOut"@[0]);
    assert("ExecutionFailed"@[0] != "Cancelled"@[0]);
    assert("ExecutionFailed"@[0] != "Rejected"@[0]);
    assert("ExecutionFailed"@[0] != "Confirmed"@[0]);
    assert("TimedOut"@[0] != "Cancelled"@[0]);
    assert("TimedOut"@[0] != "Rejected"@[0]);
    assert("TimedOut"@[0] != "Confirmed"@[0]);
    assert("Cancelled"@[1] != "Confirmed"@[1]);
    assert("Cancelled"@[0] != "Rejected"@[0]);
    assert("Rejected"@[0] != "Confirmed"@[0]);
}

/// A concatenating hasher's key part ends with the key itself, after a hash of fixed
/// length; a plain hasher's key part is the hash alone.
pub proof fn law_concat_hashers_keep_the_key(bytes: Seq<u8>)
    ensures
        hashed_key(StorageHasher::Blake2_128Concat, bytes) == hashed_key(StorageHasher::Blake2_128, bytes) + bytes,
        hashed_key(StorageHasher::Twox64Concat, bytes) == twox_64_hash(bytes) + bytes,
        hashed_key(StorageHasher::Identity, bytes) == bytes,
{
}

// ---------------------------------------------------------------------------
// How an account is shown.
// ---------------------------------------------------------------------------

/// An account with no parent is shown by the display name of its identity where it has one
/// (what `Account::get_display` gives), else by its address; a sub-identity is shown by its
/// parent's text, ` / ` and its own display, or by its address where it has no display.
pub proof fn law_account_shown_by_display_name(a: Account)
    ensures
        *a.parent is None && account_display(a) is Some ==> account_text(a) == account_display(a).unwrap()@,
        *a.parent is None && account_display(a) is None ==> account_text(a) == a.address@,
        *a.parent is Some && a.child_display is Some ==> account_text(a) == account_text((*a.parent).unwrap()) + " / "@
            + a.child_display.unwrap()@,
        *a.parent is Some && a.child_display is None ==> account_text(a) == a.address@,
{
}

// ---------------------------------------------------------------------------
// Changes of a validator's details.
// ---------------------------------------------------------------------------

/// Two accounts taken as the same have the same id and address, the same times, and the
/// same child display.
pub proof fn law_same_accounts_agree(a: Account, b: Account)
    requires
        same_account_record(a, b),
    ensures
        a.id == b.id,
        a.address@ == b.address@,
        a.discovered_at == b.discovered_at,
        a.killed_at == b.killed_at,
        (*a.parent is Some) == (*b.parent is Some),
        (a.identity is Some) == (b.identity is Some),
        (a.child_display is Some) == (b.child_display is Some),
        a.child_display matches Some(c) ==> b.child_display.unwrap()@ == c@,
        a.identity matches Some(x) ==> ({
            let y = b.identity.unwrap();
            &&& x.confirmed == y.confirmed
            &&& (x.display is Some) == (y.display is Some)
            &&& (x.display matches Some(d) ==> y.display.unwrap()@ == d@)
        }),
{
}

/// Two nominations taken as the same agree on the nominator's account id, the era of
/// submission, the number of nominees and the whole stake.
pub proof fn law_same_nominations_agree(a: NominationSummary, b: NominationSummary)
    requires
        same_nomination(a, b),
    ensures
        a.stash_account.id == b.stash_account.id,
        a.submission_era_index == b.submission_era_index,
        a.nominee_count == b.nominee_count,
        a.stake == b.stake,
{
}

/// Two active stakes that the details' changes count as unchanged are equal in every amount:
/// the validator's account id, its self stake, its total stake, and each nominator's account id
/// and stake, in order. So whenever any of these differs, the changes report the new active
/// stake.
pub proof fn law_unchanged_validator_stakes_agree(a: Option<ValidatorStake>, b: Option<ValidatorStake>)
    requires
        same_opt_validator_stake(a, b),
    ensures
        a is Some == b is Some,
        a matches Some(x) ==> ({
            let y = b.unwrap();
            &&& x.account.id == y.account.id
            &&& x.self_stake == y.self_stake
            &&& x.total_stake == y.total_stake
            &&& x.nominators.len() == y.nominators.len()
            &&& forall|i: int|
                0 <= i < x.nominators.len() ==> #[trigger] x.nominators@[i].stake == y.nominators@[i].stake
                    && x.nominators@[i].account.id == y.nominators@[i].account.id
        }),
{
    if let Some(x) = a {
        let y = b.unwrap();
        assert forall|i: int| 0 <= i < x.nominators.len() implies #[trigger] x.nominators@[i].stake == y.nominators@[i].stake
            && x.nominators@[i].account.id == y.nominators@[i].account.id by {
            assert(crate::diff::same_nominator_stake(x.nominators@[i], y.nominators@[i]));
        }
    }
}

// ---------------------------------------------------------------------------
// Finalized blocks.
// ---------------------------------------------------------------------------

/// After the finalized block numbers `ns` were published in turn, starting from `last`, the
/// last one seen is the last one published. Each number is announced exactly where it differs
/// from the one before it (from `last` for the first); the announcements come in the order of
/// publication, and no two that follow each other announce the same block, nor the first one
/// the block `last`.
pub proof fn law_finalized_blocks_announce_each_new_number(last: u64, ns: Seq<u64>)
    ensures
        last_seen_block(last, ns) == (if ns.len() == 0 {
            last
        } else {
            ns.last()
        }),
        forall|k: int|
            0 <= k < ns.len() ==> #[trigger] finalized_block_event(last_seen_block(last, ns.take(k)), ns[k]) == (
            if ns[k] == (if k == 0 {
                last
            } else {
                ns[k - 1]
            }) {
                None
            } else {
                Some(BusEvent::NewFinalizedBlock(ns[k]))
            }),
        forall|i: int|
            0 <= i < finalized_block_events(last, ns).len() - 1 ==> #[trigger] finalized_block_events(last, ns)[i]
                != finalized_block_events(last, ns)[i + 1],
        finalized_block_events(last, ns).len() > 0 ==> finalized_block_events(last, ns)[0]
            != BusEvent::NewFinalizedBlock(last),
        forall|i: int|
            0 <= i < finalized_block_events(last, ns).len() ==> (#[trigger] finalized_block_events(last, ns)[i] is NewFinalizedBlock),
        finalized_block_events(last, ns).len() > 0 ==> finalized_block_events(last, ns).last()
            == BusEvent::NewFinalizedBlock(last_seen_block(last, ns)),
        finalized_block_events(last, ns).len() == 0 ==> last_seen_block(last, ns) == last,
    decreases ns.len(),
{
    if ns.len() > 0 {
        let init = ns.drop_last();
        law_finalized_blocks_announce_each_new_number(last, init);
        assert forall|k: int| 0 <= k < ns.len() implies #[trigger] finalized_block_event(last_seen_block(last, ns.take(k)), ns[k]) == (
            if ns[k] == (if k == 0 {
                last
            } else {
                ns[k - 1]
            }) {
                None
            } else {
                Some(BusEvent::NewFinalizedBlock(ns[k]))
            }) by {
            if k == 0 {
                assert(ns.take(0) =~= Seq::<u64>::empty());
            } else {
                let t = ns.take(k);
                assert(t.drop_last() =~= ns.take(k - 1));
                assert(t.last() == ns[k - 1]);
                lemma_last_seen_is_last(last, t);
            }
        }
        let ev = finalized_block_events(last, ns);
        let ev0 = finalized_block_events(last, init);
        let l = last_seen_block(last, init);
        if finalized_block_event(l, ns.last()) is Some {
            assert(ev == ev0.push(BusEvent::NewFinalizedBlock(ns.last())));
            assert forall|i: int| 0 <= i < ev.len() - 1 implies #[trigger] ev[i] != ev[i + 1] by {
                if i + 1 < ev0.len() {
                    assert(ev0[i] != ev0[i + 1]);
                }
            }
            if ev0.len() > 0 {
                assert(ev[0] == ev0[0]);
            }
            assert forall|i: int| 0 <= i < ev.len() implies (#[trigger] ev[i] is NewFinalizedBlock) by {
                if i < ev0.len() {
                    assert(ev0[i] is NewFinalizedBlock);
                }
            }
        }
    }
}

/// The last finalized block number seen is the last one published, where any was.
proof fn lemma_last_seen_is_last(last: u64, ns: Seq<u64>)
    ensures
        last_seen_block(last, ns) == (if ns.len() == 0 {
            last
        } else {
            ns.last()
        }),
    decreases ns.len(),
{
    if ns.len() > 0 {
        lemma_last_seen_is_last(last, ns.drop_last());
    }
}

// ---------------------------------------------------------------------------
// Account ids in hex.
// ---------------------------------------------------------------------------

/// The upper-case hex of `data` has two digits per byte: the high nibble, then the low one.
proof fn lemma_hex_upper_digits(data: Seq<u8>)
    ensures
        hex_upper(data).len() == 2 * data.len(),
        forall|i: int|
            0 <= i < data.len() ==> hex_upper(data)[2 * i] == hex_digit_upper((#[trigger] data[i] / 16) as nat)
                && hex_upper(data)[2 * i + 1] == hex_digit_upper((data[i] % 16) as nat),
    decreases data.len(),
{
    if data.len() > 0 {
        let d = data.drop_last();
        lemma_hex_upper_digits(d);
        assert forall|i: int|
            0 <= i < data.len() implies hex_upper(data)[2 * i] == hex_digit_upper((#[trigger] data[i] / 16) as nat)
                && hex_upper(data)[2 * i + 1] == hex_digit_upper((data[i] % 16) as nat) by {
            if i < d.len() {
                assert(data[i] == d[i]);
            }
        }
    }
}

/// A hex digit is an ASCII character, whose byte reads back as the digit.
proof fn lemma_hex_digit_ascii(d: nat)
    requires
        d < 16,
    ensures
        (hex_digit_upper(d) as u32) < 128,
        hex_val((hex_digit_upper(d) as u32) as u8) == Some(d as u8),
        hex_digit_upper(d) != 'x',
{
    if d < 10 {
        assert(hex_digit_upper(d) == digit_char(d));
    }
}

/// The lower-case hex of `data` has two digits per byte: the high nibble, then the low one.
proof fn lemma_hex_lower_digits(data: Seq<u8>)
    ensures
        hex_lower(data).len() == 2 * data.len(),
        forall|i: int|
            0 <= i < data.len() ==> hex_lower(data)[2 * i] == hex_digit_lower((#[trigger] data[i] / 16) as nat)
                && hex_lower(data)[2 * i + 1] == hex_digit_lower((data[i] % 16) as nat),
    decreases data.len(),
{
    if data.len() > 0 {
        let d = data.drop_last();
        lemma_hex_lower_digits(d);
        assert forall|i: int|
            0 <= i < data.len() implies hex_lower(data)[2 * i] == hex_digit_lower((#[trigger] data[i] / 16) as nat)
                && hex_lower(data)[2 * i + 1] == hex_digit_lower((data[i] % 16) as nat) by {
            if i < d.len() {
                assert(data[i] == d[i]);
            }
        }
    }
}

/// A lower-case hex digit is an ASCII character, whose byte reads back as the digit.
proof fn lemma_hex_digit_lower_ascii(d: nat)
    requires
        d < 16,
    ensures
        (hex_digit_lower(d) as u32) < 128,
        hex_val((hex_digit_lower(d) as u32) as u8) == Some(d as u8),
        hex_digit_lower(d) != 'x',
{
    if d < 10 {
        assert(hex_digit_lower(d) == digit_char(d));
    }
}

/// The UTF-8 encoding of ASCII characters is their codes, one byte each.
proof fn lemma_encode_ascii(s: Seq<char>)
    requires
        forall|i: int| 0 <= i < s.len() ==> (#[trigger] s[i] as u32) < 128,
    ensures
        encode_utf8(s).len() == s.len(),
        forall|i: int| 0 <= i < s.len() ==> #[trigger] encode_utf8(s)[i] == (s[i] as u32) as u8,
    decreases s.len(),
{
    if s.len() > 0 {
        let t = s.drop_first();
        assert forall|i: int| 0 <= i < t.len() implies (#[trigger] t[i] as u32) < 128 by {
            assert(t[i] == s[i + 1]);
        }
        lemma_encode_ascii(t);
        let c = s[0] as u32;
        assert(c < 128);
        assert(leading_byte_width_1(c) == c as u8) by (bit_vector)
            requires
                c < 128,
        ;
        assert(encode_scalar(c) == seq![c as u8]);
        let e = encode_utf8(s);
        assert(e == seq![c as u8] + encode_utf8(t));
        assert forall|i: int| 0 <= i < s.len() implies #[trigger] encode_utf8(s)[i] == (s[i] as u32) as u8 by {
            if i > 0 {
                assert(s[i] == t[i - 1]);
                assert(e[i] == encode_utf8(t)[i - 1]);
            } else {
                assert(e[0] == c as u8);
            }
        }
    }
}

/// Reading an account id back from its hex gives the same id: what `AccountId::to_hex_string`
/// writes (`0x` and upper-case digits), `AccountId::from_hex` and `AccountId::from_str` read
/// back, and `AccountId::from_str` reads the lower-case hex, with or without `0x`, too.
pub proof fn law_account_hex_round_trip(a: AccountId)
    ensures
        account_hex_bytes("0x"@ + hex_upper(a.0@)) == Some(a.0@),
        account_text_reading("0x"@ + hex_upper(a.0@)) == Some(a.0@),
        account_text_reading(hex_upper(a.0@)) == Some(a.0@),
        account_text_reading("0x"@ + hex_lower(a.0@)) == Some(a.0@),
        account_text_reading(hex_lower(a.0@)) == Some(a.0@),
{
    let data = a.0@;
    assert(data.len() == 32);
    lemma_hex_upper_digits(data);
    assert forall|i: int| 0 <= i < data.len() implies #[trigger] hex_pair_of(hex_upper(data), data, i) by {
        lemma_hex_digit_ascii((data[i] / 16) as nat);
        lemma_hex_digit_ascii((data[i] % 16) as nat);
    }
    lemma_hex_text_reads(hex_upper(data), data);
    lemma_hex_lower_digits(data);
    assert forall|i: int| 0 <= i < data.len() implies #[trigger] hex_pair_of(hex_lower(data), data, i) by {
        lemma_hex_digit_lower_ascii((data[i] / 16) as nat);
        lemma_hex_digit_lower_ascii((data[i] % 16) as nat);
    }
    lemma_hex_text_reads(hex_lower(data), data);
}

/// The two characters of `h` at `2 * i` are ASCII hex digits, neither of them `x`, that read as
/// the high and the low nibble of `data[i]`.
pub open spec fn hex_pair_of(h: Seq<char>, data: Seq<u8>, i: int) -> bool {
    &&& (h[2 * i] as u32) < 128
    &&& (h[2 * i + 1] as u32) < 128
    &&& hex_val((h[2 * i] as u32) as u8) == Some((data[i] / 16) as u8)
    &&& hex_val((h[2 * i + 1] as u32) as u8) == Some((data[i] % 16) as u8)
    &&& h[2 * i] != 'x'
    &&& h[2 * i + 1] != 'x'
}

/// A hex text of 32 bytes, with a `0x` prefix or without, surely reads as those bytes.
proof fn lemma_hex_text_reads(h: Seq<char>, data: Seq<u8>)
    requires
        data.len() == 32,
        h.len() == 2 * data.len(),
        forall|i: int| 0 <= i < data.len() ==> #[trigger] hex_pair_of(h, data, i),
    ensures
        account_hex_bytes("0x"@ + h) == Some(data),
        account_hex_bytes(h) == Some(data),
        account_text_reading("0x"@ + h) == Some(data),
        account_text_reading(h) == Some(data),
{
    reveal_strlit("0x");
    let s = "0x"@ + h;
    assert(s.subrange(2, s.len() as int) =~= h);
    assert(trim_hex_prefix_spec(s) == trim_hex_prefix_spec(h));
    assert(hex_pair_of(h, data, 0));
    assert(h[1] != 'x');
    assert(trim_hex_prefix_spec(h) == h);
    assert forall|i: int| 0 <= i < h.len() implies (#[trigger] h[i] as u32) < 128 && hex_val((h[i] as u32) as u8) is Some by {
        let k = i / 2;
        assert(0 <= k < 32);
        assert(hex_pair_of(h, data, k));
        if i % 2 == 0 {
            assert(i == 2 * k);
        } else {
            assert(i == 2 * k + 1);
        }
    }
    lemma_encode_ascii(h);
    let b = encode_utf8(h);
    assert forall|i: int| 0 <= i < b.len() implies (#[trigger] hex_val(b[i])) is Some by {
        assert(b[i] == (h[i] as u32) as u8);
    }
    let decoded = hex_decode_spec(b).unwrap();
    assert forall|i: int| 0 <= i < 32 implies #[trigger] decoded[i] == data[i] by {
        assert(hex_pair_of(h, data, i));
        assert(b[2 * i] == (h[2 * i] as u32) as u8);
        assert(b[2 * i + 1] == (h[2 * i + 1] as u32) as u8);
    }
    assert(decoded =~= data);
    assert(s[0] == '0');
    assert(s.contains('0'));
    assert(h.len() > 50);
}

/// Every event read from a record reports, as the index of the extrinsic that raised it,
/// the index that the record's phase names (none outside an extrinsic's application); the
/// heartbeat pallet's report of offline validators carries none.
pub proof fn law_event_reports_its_phase(m: RuntimeMetadata, rv: u32, b: Seq<u8>, pos: int, e: SubstrateEvent, next: nat)
    requires
        event_is(m, rv, b, pos, e, next),
        !(e matches SubstrateEvent::ImOnline(ImOnlineEvent::SomeOffline { .. })),
    ensures
        event_extrinsic_index(e) == phase_at(b, pos).unwrap().0,
{
    match event_head(m, b, pos) {
        EventHead::Good(xi, pallet, v, fs, fe, end) => {
            lemma_event_index(rv, pallet.name@, v.name@, xi, b.subrange(fs as int, fe as int), e);
        },
        _ => {},
    }
}

/// Every call that a signed batch carries is attributed to the batch's signer: it carries
/// the same header.
pub proof fn law_batched_calls_carry_the_batch_header(m: RuntimeMetadata, b: Seq<u8>, pos: int, given: Option<Signature>, u: UtilityExtrinsic, k: int)
    requires
        ext_is(m, b, pos, given, SubstrateExtrinsic::Utility(u)),
        utility_signature(u) is Some,
        0 <= k < utility_calls(u).len(),
    ensures
        opt_signature_same(ext_signature(utility_calls(u)[k]), utility_signature(u)),
{
    let x = SubstrateExtrinsic::Utility(u);
    assert(ext_body_is(m, b, pos, given is Some, x));
    let p = call_begin(b, pos, given is Some).unwrap();
    match call_head(m, b, p as int) {
        CallHead::Good(pallet, v) => {
            let ap = (p + 2) as int;
            assert(followed_is(m, pallet.name@, v.name@, b, ap, x));
            assert(utility_call_is(m, v.name@, b, ap, u));
            let (n, l) = compact_at(b, ap, 8).unwrap();
            let q = ap + l;
            let sig = utility_signature(u);
            let end = calls_reading(m, b, q, sig is Some, n)->Good_0;
            lemma_calls_seg_headers(m, b, q, sig, utility_calls(u), end as int, k);
        },
        _ => {},
    }
}

/// The call that a signed multisig or proxy call carries is attributed to the same signer:
/// it carries the same header.
pub proof fn law_carried_call_carries_the_header(m: RuntimeMetadata, b: Seq<u8>, pos: int, given: Option<Signature>, x: SubstrateExtrinsic)
    requires
        ext_is(m, b, pos, given, x),
        carried_call(x) is Some,
        ext_signature(x) is Some,
    ensures
        opt_signature_same(ext_signature(carried_call(x).unwrap()), ext_signature(x)),
{
    assert(ext_body_is(m, b, pos, given is Some, x));
    let p = call_begin(b, pos, given is Some).unwrap();
    match call_head(m, b, p as int) {
        CallHead::Good(pallet, v) => {
            let ap = (p + 2) as int;
            assert(followed_is(m, pallet.name@, v.name@, b, ap, x));
            lemma_carried_header(m, v.name@, b, ap, x);
        },
        _ => {},
    }
}

/// The staking events that older runtimes name `Chill`, `EraPayout`, `Reward`, `Slash` and
/// `StakingElection` read as the events named `Chilled`, `EraPaid`, `Rewarded`, `Slashed`
/// and `StakersElected`.
pub proof fn law_older_staking_event_names(xi: Option<u32>, b: Seq<u8>)
    ensures
        staking_event_spec("Chill"@, xi, b) == staking_event_spec("Chilled"@, xi, b),
        staking_event_spec("EraPayout"@, xi, b) == staking_event_spec("EraPaid"@, xi, b),
        staking_event_spec("Reward"@, xi, b) == staking_event_spec("Rewarded"@, xi, b),
        staking_event_spec("Slash"@, xi, b) == staking_event_spec("Slashed"@, xi, b),
        staking_event_spec("StakingElection"@, xi, b) == staking_event_spec("StakersElected"@, xi, b),
{
    // The names differ from each other in their first letter or their length.
    reveal_strlit("Bonded");
    assert("Bonded"@[0] == 'B' && "Bonded"@.len() == 6);
    reveal_strlit("Chilled");
    assert("Chilled"@[0] == 'C' && "Chilled"@.len() == 7);
    reveal_strlit("Chill");
    assert("Chill"@[0] == 'C' && "Chill"@.len() == 5);
    reveal_strlit("EraPaid");
    assert("EraPaid"@[0] == 'E' && "EraPaid"@.len() == 7);
    reveal_strlit("EraPayout");
    assert("EraPayout"@[0] == 'E' && "EraPayout"@.len() == 9);
    reveal_strlit("Kicked");
    assert("Kicked"@[0] == 'K' && "Kicked"@.len() == 6);
    reveal_strlit("OldSlashingReportDiscarded");
    assert("OldSlashingReportDiscarded"@[0] == 'O' && "OldSlashingReportDiscarded"@.len() == 26);
    reveal_strlit("PayoutStarted");
    assert("PayoutStarted"@[0] == 'P' && "PayoutStarted"@.len() == 13);
    reveal_strlit("Rewarded");
    assert("Rewarded"@[0] == 'R' && "Rewarded"@.len() == 8);
    reveal_strlit("Reward");
    assert("Reward"@[0] == 'R' && "Reward"@.len() == 6);
    reveal_strlit("Slashed");
    assert("Slashed"@[0] == 'S' && "Slashed"@.len() == 7);
    reveal_strlit("Slash");
    assert("Slash"@[0] == 'S' && "Slash"@.len() == 5);
    reveal_strlit("StakersElected");
    assert("StakersElected"@[0] == 'S' && "StakersElected"@.len() == 14);
    reveal_strlit("StakingElection");
    assert("StakingElection"@[0] == 'S' && "StakingElection"@.len() == 15);
    assert(staking_event_spec("Chill"@, xi, b) == staking_event_spec("Chilled"@, xi, b));
    assert(staking_event_spec("EraPayout"@, xi, b) == staking_event_spec("EraPaid"@, xi, b));
    assert(staking_event_spec("Reward"@, xi, b) == staking_event_spec("Rewarded"@, xi, b));
    assert(staking_event_spec("Slash"@, xi, b) == staking_event_spec("Slashed"@, xi, b));
    assert(staking_event_spec("StakingElection"@, xi, b) == staking_event_spec("StakersElected"@, xi, b));
}

} // verus!
