//! Staking records: ledgers, nominations, exposures, validator preferences and reward
//! destinations, with the SCALE layouts in which the runtime stores them.
use crate::codec::{
    codec_bool, codec_bytes32, codec_compact_u128, codec_compact_u32, codec_compact_u64, codec_u32, codec_u8,
    compact_spec, has_bytes, le_at, lemma_compact_len, rest,
};
use crate::crypto::{ss58_text, AccountId};
use crate::error::DecodeError;
use crate::strings::copy_str;
use crate::substrate::{Account, Balance, NominatorStake, Stake, ValidatorStake};
use vstd::prelude::*;

verus! {

/// A plain account record for `id`: its address, and nothing else known of it yet.
pub fn account_of(id: AccountId) -> (a: Account)
    ensures
        a.id == id,
        exists|p: u16| a.address@ == ss58_text(id.0@, p),
        a.identity is None,
        *a.parent is None,
        a.child_display is None,
        a.discovered_at is None,
        a.killed_at is None,
{
    Account {
        id,
        address: id.to_ss58_check(),
        identity: None,
        parent: Box::new(None),
        child_display: None,
        discovered_at: None,
        killed_at: None,
    }
}

/// The account id whose bytes are all zero.
pub fn zero_account_id() -> (a: AccountId)
    ensures
        a.0@ == Seq::new(32, |_i: int| 0u8),
{
    let a = AccountId([0u8; 32]);
    assert(a.0@ =~= Seq::new(32, |_i: int| 0u8));
    a
}

/// The error of a record that could not be decoded.
fn decode_failure(what: &str) -> (e: DecodeError)
    ensures
        e matches DecodeError::Error(m) && m@ == what@,
{
    DecodeError::Error(copy_str(what))
}

// ---------------------------------------------------------------------------
// Compact readers that also give the position after the value.
// ---------------------------------------------------------------------------

/// The value and encoded length of the compact of width `width` at `pos` in `b`.
pub open spec fn compact_at(b: Seq<u8>, pos: int, width: nat) -> Option<(nat, nat)> {
    compact_spec(rest(b, pos), width)
}

/// Reads a compact `u128` at `pos`; gives its value and the position after it.
pub fn read_compact_u128(bytes: &[u8], pos: usize) -> (r: Result<(u128, usize), DecodeError>)
    requires
        pos <= bytes.len(),
    ensures
        r is Ok <==> compact_at(bytes@, pos as int, 16) is Some,
        r matches Ok((v, next)) ==> {
            &&& v as nat == compact_at(bytes@, pos as int, 16).unwrap().0
            &&& next == pos + compact_at(bytes@, pos as int, 16).unwrap().1
            &&& next <= bytes.len()
        },
{
    match codec_compact_u128(bytes, pos) {
        Ok(v) => {
            proof {
                lemma_compact_len(rest(bytes@, pos as int), 16);
            }
            let n = crate::codec::compact_len(bytes[pos]);
            Ok((v, pos + n))
        },
        Err(e) => Err(DecodeError::Error(e)),
    }
}

/// Reads a compact `u32` at `pos`; gives its value and the position after it.
pub fn read_compact_u32_at(bytes: &[u8], pos: usize) -> (r: Result<(u32, usize), DecodeError>)
    requires
        pos <= bytes.len(),
    ensures
        r is Ok <==> compact_at(bytes@, pos as int, 4) is Some,
        r matches Ok((v, next)) ==> {
            &&& v as nat == compact_at(bytes@, pos as int, 4).unwrap().0
            &&& next == pos + compact_at(bytes@, pos as int, 4).unwrap().1
            &&& next <= bytes.len()
        },
{
    match codec_compact_u32(bytes, pos) {
        Ok(v) => {
            proof {
                lemma_compact_len(rest(bytes@, pos as int), 4);
            }
            let n = crate::codec::compact_len(bytes[pos]);
            Ok((v, pos + n))
        },
        Err(e) => Err(DecodeError::Error(e)),
    }
}

/// Reads a compact `u64` at `pos`; gives its value and the position after it.
pub fn read_compact_u64_at(bytes: &[u8], pos: usize) -> (r: Result<(u64, usize), DecodeError>)
    requires
        pos <= bytes.len(),
    ensures
        r is Ok <==> compact_at(bytes@, pos as int, 8) is Some,
        r matches Ok((v, next)) ==> {
            &&& v as nat == compact_at(bytes@, pos as int, 8).unwrap().0
            &&& next == pos + compact_at(bytes@, pos as int, 8).unwrap().1
            &&& next <= bytes.len()
        },
{
    match codec_compact_u64(bytes, pos) {
        Ok(v) => {
            proof {
                lemma_compact_len(rest(bytes@, pos as int), 8);
            }
            let n = crate::codec::compact_len(bytes[pos]);
            Ok((v, pos + n))
        },
        Err(e) => Err(DecodeError::Error(e)),
    }
}

// ---------------------------------------------------------------------------
// Staking ledger.
// ---------------------------------------------------------------------------

/// Where `count` unlocking chunks (a compact balance and a compact era each) that start at
/// `pos` end.
pub open spec fn unlocking_end(b: Seq<u8>, pos: nat, count: nat) -> Option<nat>
    decreases count,
{
    if count == 0 {
        Some(pos)
    } else {
        match compact_at(b, pos as int, 16) {
            Some((_, l1)) => match compact_at(b, (pos + l1) as int, 4) {
                Some((_, l2)) => unlocking_end(b, pos + l1 + l2, (count - 1) as nat),
                None => None,
            },
            None => None,
        }
    }
}

/// Where a compact count of unlocking chunks at `pos`, and the chunks, end.
pub open spec fn unlocking_list_end(b: Seq<u8>, pos: nat) -> Option<nat> {
    match compact_at(b, pos as int, 4) {
        Some((n, l)) => unlocking_end(b, pos + l, n),
        None => None,
    }
}

/// Where a compact count of era indices at `pos`, and the indices, end.
pub open spec fn era_list_end(b: Seq<u8>, pos: nat) -> Option<nat> {
    match compact_at(b, pos as int, 4) {
        Some((n, l)) => if pos + l + 4 * n <= b.len() {
            Some(pos + l + 4 * n)
        } else {
            None
        },
        None => None,
    }
}

/// The total and active amounts of the staking ledger at the start of `b`: the stash's
/// 32 bytes, the compact total, the compact active amount, the unlocking chunks and the
/// claimed eras. `None` where it does not decode.
pub open spec fn ledger_spec(b: Seq<u8>) -> Option<(nat, nat)> {
    if b.len() < 32 {
        None
    } else {
        match compact_at(b, 32, 16) {
            Some((total, l1)) => match compact_at(b, (32 + l1) as int, 16) {
                Some((active, l2)) => match unlocking_list_end(b, 32 + l1 + l2) {
                    Some(e) => match era_list_end(b, e) {
                        Some(_) => Some((total, active)),
                        None => None,
                    },
                    None => None,
                },
                None => None,
            },
            None => None,
        }
    }
}

/// Skips `count` unlocking chunks from `pos`.
fn skip_unlocking(bytes: &[u8], pos: usize, count: u32) -> (r: Result<usize, DecodeError>)
    requires
        pos <= bytes.len(),
    ensures
        r is Ok <==> unlocking_end(bytes@, pos as nat, count as nat) is Some,
        r matches Ok(e) ==> e == unlocking_end(bytes@, pos as nat, count as nat).unwrap() && e
            <= bytes.len(),
{
    let mut p = pos;
    let mut i: u32 = 0;
    while i < count
        invariant
            i <= count,
            p <= bytes.len(),
            unlocking_end(bytes@, pos as nat, count as nat) == unlocking_end(
                bytes@,
                p as nat,
                (count - i) as nat,
            ),
        decreases count - i,
    {
        let (_, p1) = read_compact_u128(bytes, p)?;
        let (_, p2) = read_compact_u32_at(bytes, p1)?;
        p = p2;
        i = i + 1;
    }
    Ok(p)
}

/// Skips a compact count of era indices and the indices, from `pos`.
fn skip_era_list(bytes: &[u8], pos: usize) -> (r: Result<usize, DecodeError>)
    requires
        pos <= bytes.len(),
    ensures
        r is Ok <==> era_list_end(bytes@, pos as nat) is Some,
        r matches Ok(e) ==> e == era_list_end(bytes@, pos as nat).unwrap(),
{
    let (n, p) = read_compact_u32_at(bytes, pos)?;
    let mut q = p;
    let mut i: u32 = 0;
    while i < n
        invariant
            i <= n,
            q == p + 4 * i,
            q <= bytes.len(),
            p <= bytes.len(),
            compact_at(bytes@, pos as int, 4) is Some,
            n as nat == compact_at(bytes@, pos as int, 4).unwrap().0,
            p == pos + compact_at(bytes@, pos as int, 4).unwrap().1,
        decreases n - i,
    {
        if bytes.len() - q < 4 {
            return Err(decode_failure("Not enough data to fill buffer"));
        }
        q = q + 4;
        i = i + 1;
    }
    Ok(q)
}

impl Stake {
    /// The stake recorded in a SCALE-encoded staking ledger.
    pub fn from_bytes(bytes: &[u8]) -> (r: Result<Stake, DecodeError>)
        ensures
            r is Ok <==> ledger_spec(bytes@) is Some,
            r matches Ok(s) ==> {
                &&& s.stash_account_id.0@ == bytes@.subrange(0, 32)
                &&& s.total_amount == ledger_spec(bytes@).unwrap().0
                &&& s.active_amount == ledger_spec(bytes@).unwrap().1
            },
    {
        let stash = match codec_bytes32(bytes, 0) {
            Ok(s) => s,
            Err(e) => return Err(DecodeError::Error(e)),
        };
        let (total, p1) = read_compact_u128(bytes, 32)?;
        let (active, p2) = read_compact_u128(bytes, p1)?;
        let (count, p3) = read_compact_u32_at(bytes, p2)?;
        let p4 = skip_unlocking(bytes, p3, count)?;
        let _ = skip_era_list(bytes, p4)?;
        let stake = Stake { stash_account_id: AccountId(stash), total_amount: total, active_amount: active };
        Ok(stake)
    }
}

// ---------------------------------------------------------------------------
// Nominations.
// ---------------------------------------------------------------------------

/// A nomination: the nominating stash, the era it was submitted in, its targets and the
/// stash's stake.
#[derive(Debug, Default, Eq, Hash, PartialEq)]
pub struct Nomination {
    pub stash_account: Account,
    pub submission_era_index: u32,
    pub target_account_ids: Vec<AccountId>,
    pub stake: Stake,
}

/// A nomination without its list of targets, which it only counts.
#[derive(Debug, Default, Eq, Hash, PartialEq)]
pub struct NominationSummary {
    pub stash_account: Account,
    pub submission_era_index: u32,
    pub nominee_count: u16,
    pub stake: Stake,
}

impl Clone for NominationSummary {
    fn clone(&self) -> (r: Self)
        ensures
            r == *self,
    {
        NominationSummary {
            stash_account: self.stash_account.clone(),
            submission_era_index: self.submission_era_index,
            nominee_count: self.nominee_count,
            stake: self.stake,
        }
    }
}

impl NominationSummary {
    /// The summary of a nomination; the count of its targets is kept in 16 bits.
    pub fn from(nomination: &Nomination) -> (s: NominationSummary)
        ensures
            s.stash_account == nomination.stash_account,
            s.submission_era_index == nomination.submission_era_index,
            s.nominee_count == nomination.target_account_ids.len() as u16,
            s.stake == nomination.stake,
    {
        NominationSummary {
            stash_account: nomination.stash_account.clone(),
            submission_era_index: nomination.submission_era_index,
            nominee_count: nomination.target_account_ids.len() as u16,
            stake: nomination.stake,
        }
    }
}

/// The number of inactive nominations and their total active amount.
#[derive(Clone, Copy, Debug, Default, Eq, Hash, PartialEq)]
pub struct InactiveNominationsSummary {
    pub nomination_count: u16,
    pub total_amount: Balance,
}

/// The sum of the active amounts of the stakes of `s`.
pub open spec fn sum_active_amounts(s: Seq<NominationSummary>) -> nat
    decreases s.len(),
{
    if s.len() == 0 {
        0
    } else {
        (sum_active_amounts(s.drop_last()) + s.last().stake.active_amount) as nat
    }
}

/// The sum over a prefix is at most the sum over the whole.
pub proof fn lemma_active_prefix_le(s: Seq<NominationSummary>, n: int)
    requires
        0 <= n <= s.len(),
    ensures
        sum_active_amounts(s.subrange(0, n)) <= sum_active_amounts(s),
    decreases s.len(),
{
    if n < s.len() {
        assert(s.drop_last().subrange(0, n) =~= s.subrange(0, n));
        lemma_active_prefix_le(s.drop_last(), n);
    } else {
        assert(s.subrange(0, n) =~= s);
    }
}

impl InactiveNominationsSummary {
    /// The count (kept in 16 bits) and the total active amount of some nominations.
    pub fn from(nominations: &Vec<NominationSummary>) -> (s: InactiveNominationsSummary)
        requires
            sum_active_amounts(nominations@) <= u128::MAX,
        ensures
            s.nomination_count == nominations.len() as u16,
            s.total_amount == sum_active_amounts(nominations@),
    {
        let mut total: u128 = 0;
        let mut i: usize = 0;
        while i < nominations.len()
            invariant
                i <= nominations.len(),
                sum_active_amounts(nominations@) <= u128::MAX,
                total == sum_active_amounts(nominations@.subrange(0, i as int)),
            decreases nominations.len() - i,
        {
            proof {
                lemma_active_prefix_le(nominations@, i + 1);
                assert(nominations@.subrange(0, i + 1).drop_last() =~= nominations@.subrange(
                    0,
                    i as int,
                ));
            }
            total = total + nominations[i].stake.active_amount;
            i = i + 1;
        }
        assert(nominations@.subrange(0, i as int) =~= nominations@);
        InactiveNominationsSummary { nomination_count: nominations.len() as u16, total_amount: total }
    }
}

/// Where the nomination record at the start of `b` ends: a compact count of 32-byte targets,
/// the era index (4 bytes) and a flag (one byte, 0 or 1). `None` where it does not decode.
pub open spec fn nomination_end(b: Seq<u8>) -> Option<nat> {
    match compact_at(b, 0, 4) {
        Some((n, l)) => if l + 32 * n + 5 <= b.len() && b[(l + 32 * n + 4) as int] < 2 {
            Some(l + 32 * n + 5)
        } else {
            None
        },
        None => None,
    }
}

/// The `k`-th target of the nomination record at the start of `b`.
pub open spec fn nomination_target(b: Seq<u8>, k: int) -> Seq<u8> {
    let l = compact_at(b, 0, 4).unwrap().1;
    b.subrange(l + 32 * k, l + 32 * k + 32)
}

/// The number of targets of the nomination record at the start of `b`.
pub open spec fn nomination_target_count(b: Seq<u8>) -> nat {
    compact_at(b, 0, 4).unwrap().0
}

impl Nomination {
    /// The nomination of `account_id` recorded in SCALE-encoded `bytes`; its stake is left
    /// empty.
    pub fn from_bytes(bytes: &[u8], account_id: AccountId) -> (r: Result<Nomination, DecodeError>)
        ensures
            r is Ok <==> nomination_end(bytes@) is Some,
            r matches Ok(n) ==> {
                &&& n.stash_account.id == account_id
                &&& n.stash_account.identity is None
                &&& *n.stash_account.parent is None
                &&& n.target_account_ids.len() == nomination_target_count(bytes@)
                &&& forall|k: int|
                    0 <= k < n.target_account_ids.len() ==> #[trigger] n.target_account_ids[k].0@
                        == nomination_target(bytes@, k)
                &&& n.submission_era_index as nat == le_at(
                    bytes@,
                    (compact_at(bytes@, 0, 4).unwrap().1 + 32 * nomination_target_count(bytes@)) as int,
                    4,
                )
                &&& n.stake.stash_account_id.0@ == Seq::new(32, |_i: int| 0u8)
                &&& n.stake.total_amount == 0
                &&& n.stake.active_amount == 0
            },
    {
        let (count, p) = read_compact_u32_at(bytes, 0)?;
        let mut targets: Vec<AccountId> = Vec::new();
        let mut q = p;
        let mut i: u32 = 0;
        while i < count
            invariant
                i <= count,
                p <= bytes.len(),
                q == p + 32 * i,
                q <= bytes.len(),
                compact_at(bytes@, 0, 4) is Some,
                count as nat == compact_at(bytes@, 0, 4).unwrap().0,
                p == compact_at(bytes@, 0, 4).unwrap().1,
                targets.len() == i,
                forall|k: int|
                    0 <= k < i ==> #[trigger] targets[k].0@ == nomination_target(bytes@, k),
            decreases count - i,
        {
            let id = match codec_bytes32(bytes, q) {
                Ok(a) => a,
                Err(e) => return Err(DecodeError::Error(e)),
            };
            targets.push(AccountId(id));
            q = q + 32;
            i = i + 1;
        }
        let era = match codec_u32(bytes, q) {
            Ok(v) => v,
            Err(e) => return Err(DecodeError::Error(e)),
        };
        match codec_bool(bytes, q + 4) {
            Ok(_) => {},
            Err(e) => return Err(DecodeError::Error(e)),
        }
        Ok(
            Nomination {
                stash_account: account_of(account_id),
                submission_era_index: era,
                target_account_ids: targets,
                stake: Stake { stash_account_id: zero_account_id(), total_amount: 0, active_amount: 0 },
            },
        )
    }
}

// ---------------------------------------------------------------------------
// Exposures.
// ---------------------------------------------------------------------------

/// Where the `k`-th nominator entry (32 account bytes and a compact stake) of a list that
/// starts at `start` begins.
pub open spec fn exposure_entry_pos(b: Seq<u8>, start: nat, k: nat) -> nat
    decreases k,
{
    if k == 0 {
        start
    } else {
        let p = exposure_entry_pos(b, start, (k - 1) as nat);
        match compact_at(b, (p + 32) as int, 16) {
            Some((_, l)) => p + 32 + l,
            None => p,
        }
    }
}

/// Whether the first `count` nominator entries from `start` all decode.
pub open spec fn exposure_entries_ok(b: Seq<u8>, start: nat, count: nat) -> bool
    decreases count,
{
    if count == 0 {
        true
    } else {
        let p = exposure_entry_pos(b, start, (count - 1) as nat);
        &&& exposure_entries_ok(b, start, (count - 1) as nat)
        &&& p + 32 <= b.len()
        &&& compact_at(b, (p + 32) as int, 16) is Some
    }
}

/// The total stake, the own stake, and where the list of nominator entries begins and how
/// many it has, of the exposure at the start of `b`; `None` where its head does not decode.
pub open spec fn exposure_head(b: Seq<u8>) -> Option<(nat, nat, nat, nat)> {
    match compact_at(b, 0, 16) {
        Some((total, l1)) => match compact_at(b, l1 as int, 16) {
            Some((own, l2)) => match compact_at(b, (l1 + l2) as int, 4) {
                Some((n, l3)) => Some((total, own, l1 + l2 + l3, n)),
                None => None,
            },
            None => None,
        },
        None => None,
    }
}

/// Whether the exposure at the start of `b` decodes.
pub open spec fn exposure_ok(b: Seq<u8>) -> bool {
    exposure_head(b) matches Some((_, _, start, n)) && exposure_entries_ok(b, start, n)
}

/// The account bytes of the `k`-th nominator of the exposure at the start of `b`.
pub open spec fn exposure_nominator(b: Seq<u8>, k: nat) -> Seq<u8> {
    let p = exposure_entry_pos(b, exposure_head(b).unwrap().2, k) as int;
    b.subrange(p, p + 32)
}

/// The stake of the `k`-th nominator of the exposure at the start of `b`.
pub open spec fn exposure_nominator_stake(b: Seq<u8>, k: nat) -> nat {
    let p = exposure_entry_pos(b, exposure_head(b).unwrap().2, k);
    compact_at(b, (p + 32) as int, 16).unwrap().0
}

/// Whether `noms` are the nominators of the exposure at the start of `b`, in order: the
/// accounts (with no identity known yet) and their stakes.
pub open spec fn exposure_nominators_match(b: Seq<u8>, noms: Seq<NominatorStake>) -> bool {
    forall|k: int|
        0 <= k < noms.len() ==> {
            &&& #[trigger] noms[k].account.id.0@ == exposure_nominator(b, k as nat)
            &&& noms[k].stake == exposure_nominator_stake(b, k as nat)
            &&& noms[k].account.identity is None
        }
}

impl ValidatorStake {
    /// The active stake on `validator_account_id` recorded in a SCALE-encoded exposure.
    pub fn from_bytes(bytes: &[u8], validator_account_id: AccountId) -> (r: Result<
        ValidatorStake,
        DecodeError,
    >)
        ensures
            r is Ok <==> exposure_ok(bytes@),
            r matches Ok(v) ==> v.account.id == validator_account_id && v.account.identity is None,
            r matches Ok(v) ==> v.total_stake == exposure_head(bytes@).unwrap().0,
            r matches Ok(v) ==> v.self_stake == exposure_head(bytes@).unwrap().1,
            r matches Ok(v) ==> v.nominators.len() == exposure_head(bytes@).unwrap().3,
            r matches Ok(v) ==> exposure_nominators_match(bytes@, v.nominators@),
    {
        let (total, p1) = read_compact_u128(bytes, 0)?;
        let (own, p2) = read_compact_u128(bytes, p1)?;
        let (count, p3) = read_compact_u32_at(bytes, p2)?;
        let ghost start = p3 as nat;
        let mut nominators: Vec<NominatorStake> = Vec::new();
        let mut q = p3;
        let mut i: u32 = 0;
        while i < count
            invariant
                i <= count,
                q <= bytes.len(),
                exposure_head(bytes@) == Some((total as nat, own as nat, start, count as nat)),
                q == exposure_entry_pos(bytes@, start, i as nat),
                exposure_entries_ok(bytes@, start, i as nat),
                nominators.len() == i,
                forall|k: int|
                    0 <= k < i ==> {
                        &&& #[trigger] nominators[k].account.id.0@ == exposure_nominator(
                            bytes@,
                            k as nat,
                        )
                        &&& nominators[k].stake == exposure_nominator_stake(bytes@, k as nat)
                        &&& nominators[k].account.identity is None
                    },
            decreases count - i,
        {
            let who = match codec_bytes32(bytes, q) {
                Ok(a) => a,
                Err(e) => {
                    proof {
                        lemma_entries_fail(bytes@, start, i as nat, count as nat);
                    }
                    return Err(DecodeError::Error(e));
                },
            };
            let (stake, q2) = match read_compact_u128(bytes, q + 32) {
                Ok(x) => x,
                Err(e) => {
                    proof {
                        lemma_entries_fail(bytes@, start, i as nat, count as nat);
                    }
                    return Err(e);
                },
            };
            let id = AccountId(who);
            nominators.push(NominatorStake { account: account_of(id), stake });
            q = q2;
            i = i + 1;
        }
        let ghost noms = nominators@;
        assert(forall|k: int|
            0 <= k < noms.len() ==> {
                &&& #[trigger] noms[k].account.id.0@ == exposure_nominator(bytes@, k as nat)
                &&& noms[k].stake == exposure_nominator_stake(bytes@, k as nat)
                &&& noms[k].account.identity is None
            });
        let v = ValidatorStake {
            account: account_of(validator_account_id),
            self_stake: own,
            total_stake: total,
            nominators,
        };
        assert(v.nominators@ == noms);
        assert(exposure_nominators_match(bytes@, v.nominators@));
        Ok(v)
    }
}

/// Entries that decode up to `n` also decode up to any `m <= n`.
pub proof fn lemma_entries_ok_prefix(b: Seq<u8>, start: nat, m: nat, n: nat)
    requires
        m <= n,
        exposure_entries_ok(b, start, n),
    ensures
        exposure_entries_ok(b, start, m),
    decreases n,
{
    if m < n {
        lemma_entries_ok_prefix(b, start, m, (n - 1) as nat);
    }
}

/// If entry `i` does not decode, no longer list that holds it does.
pub proof fn lemma_entries_fail(b: Seq<u8>, start: nat, i: nat, n: nat)
    requires
        i < n,
        !(exposure_entry_pos(b, start, i) + 32 <= b.len() && compact_at(
            b,
            (exposure_entry_pos(b, start, i) + 32) as int,
            16,
        ) is Some),
    ensures
        !exposure_entries_ok(b, start, n),
    decreases n,
{
    if i + 1 < n {
        lemma_entries_fail(b, start, i, (n - 1) as nat);
    }
}

// ---------------------------------------------------------------------------
// Validator preferences.
// ---------------------------------------------------------------------------

/// A validator's commission, in parts per billion, and whether it blocks new nominations.
#[derive(Clone, Copy, Debug, Default, Eq, Hash, PartialEq)]
pub struct ValidatorPreferences {
    pub commission_per_billion: u32,
    pub blocks_nominations: bool,
}

/// The greatest commission: one billion parts per billion.
pub const PERBILL_ACCURACY: u32 = 1_000_000_000;

/// The preferences at the start of `b`: a compact commission, which saturates at one
/// billion, then a flag byte (0 or 1). `None` where they do not decode.
pub open spec fn preferences_spec(b: Seq<u8>) -> Option<ValidatorPreferences> {
    match compact_at(b, 0, 4) {
        Some((c, l)) => if l < b.len() && b[l as int] < 2 {
            Some(
                ValidatorPreferences {
                    commission_per_billion: if c <= PERBILL_ACCURACY {
                        c as u32
                    } else {
                        PERBILL_ACCURACY
                    },
                    blocks_nominations: b[l as int] == 1,
                },
            )
        } else {
            None
        },
        None => None,
    }
}

impl ValidatorPreferences {
    /// The preferences recorded in SCALE-encoded `bytes`.
    pub fn decode(bytes: &[u8]) -> (r: Result<ValidatorPreferences, DecodeError>)
        ensures
            r is Ok <==> preferences_spec(bytes@) is Some,
            r matches Ok(p) ==> p == preferences_spec(bytes@).unwrap(),
    {
        let (c, p) = read_compact_u32_at(bytes, 0)?;
        let blocked = match codec_bool(bytes, p) {
            Ok(b) => b,
            Err(e) => return Err(DecodeError::Error(e)),
        };
        let commission = if c <= PERBILL_ACCURACY {
            c
        } else {
            PERBILL_ACCURACY
        };
        Ok(ValidatorPreferences { commission_per_billion: commission, blocks_nominations: blocked })
    }
}

// ---------------------------------------------------------------------------
// Reward destinations and proxy types.
// ---------------------------------------------------------------------------

/// Where a validator's or nominator's rewards go.
#[derive(Clone, Copy, Debug, Eq, Hash, PartialEq)]
pub enum RewardDestination {
    Staked,
    Stash,
    Controller,
    Account(AccountId),
    NoDestination,
}

impl Default for RewardDestination {
    fn default() -> (d: Self)
        ensures
            d == RewardDestination::NoDestination,
    {
        RewardDestination::NoDestination
    }
}

/// The reward destination at the start of `b`: a tag byte, and after tag 3 an account.
pub open spec fn reward_destination_spec(b: Seq<u8>) -> Option<RewardDestination> {
    if b.len() < 1 {
        None
    } else if b[0] == 0 {
        Some(RewardDestination::Staked)
    } else if b[0] == 1 {
        Some(RewardDestination::Stash)
    } else if b[0] == 2 {
        Some(RewardDestination::Controller)
    } else if b[0] == 3 {
        if b.len() >= 33 {
            Some(RewardDestination::Account(AccountId(choose|a: [u8; 32]| a@ == b.subrange(1, 33))))
        } else {
            None
        }
    } else if b[0] == 4 {
        Some(RewardDestination::NoDestination)
    } else {
        None
    }
}

impl RewardDestination {
    /// The reward destination recorded in SCALE-encoded `bytes`.
    pub fn from_bytes(bytes: &[u8]) -> (r: Result<RewardDestination, DecodeError>)
        ensures
            r is Ok <==> reward_destination_spec(bytes@) is Some,
            r matches Ok(d) ==> d == reward_destination_spec(bytes@).unwrap(),
    {
        let tag = match codec_u8(bytes, 0) {
            Ok(t) => t,
            Err(e) => return Err(DecodeError::Error(e)),
        };
        if tag == 0 {
            Ok(RewardDestination::Staked)
        } else if tag == 1 {
            Ok(RewardDestination::Stash)
        } else if tag == 2 {
            Ok(RewardDestination::Controller)
        } else if tag == 3 {
            match codec_bytes32(bytes, 1) {
                Ok(a) => {
                    proof {
                        let c = choose|x: [u8; 32]| x@ == bytes@.subrange(1, 33);
                        assert(a@ == bytes@.subrange(1, 33));
                        assert(c@ == a@);
                        assert(c =~= a);
                    }
                    Ok(RewardDestination::Account(AccountId(a)))
                },
                Err(e) => Err(DecodeError::Error(e)),
            }
        } else if tag == 4 {
            Ok(RewardDestination::NoDestination)
        } else {
            Err(decode_failure("Could not decode `RewardDestination`, variant doesn't exist"))
        }
    }
}

/// The kinds of proxy that an account can name.
#[derive(Clone, Copy, Debug, Eq, PartialEq)]
pub enum ProxyType {
    Any,
    NonTransfer,
    Governance,
    Staking,
    IdentityJudgement,
    CancelProxy,
    Auction,
    Society,
}

/// The proxy type of the tag byte `t`.
pub open spec fn proxy_type_of(t: u8) -> Option<ProxyType> {
    if t == 0 {
        Some(ProxyType::Any)
    } else if t == 1 {
        Some(ProxyType::NonTransfer)
    } else if t == 2 {
        Some(ProxyType::Governance)
    } else if t == 3 {
        Some(ProxyType::Staking)
    } else if t == 4 {
        Some(ProxyType::IdentityJudgement)
    } else if t == 5 {
        Some(ProxyType::CancelProxy)
    } else if t == 6 {
        Some(ProxyType::Auction)
    } else if t == 7 {
        Some(ProxyType::Society)
    } else {
        None
    }
}

impl ProxyType {
    /// The proxy type whose tag byte is at `pos`.
    pub fn decode(bytes: &[u8], pos: usize) -> (r: Result<ProxyType, DecodeError>)
        requires
            pos <= bytes.len(),
        ensures
            r is Ok <==> (pos < bytes.len() && proxy_type_of(bytes@[pos as int]) is Some),
            r matches Ok(t) ==> t == proxy_type_of(bytes@[pos as int]).unwrap(),
    {
        let t = match codec_u8(bytes, pos) {
            Ok(t) => t,
            Err(e) => return Err(DecodeError::Error(e)),
        };
        if t == 0 {
            Ok(ProxyType::Any)
        } else if t == 1 {
            Ok(ProxyType::NonTransfer)
        } else if t == 2 {
            Ok(ProxyType::Governance)
        } else if t == 3 {
            Ok(ProxyType::Staking)
        } else if t == 4 {
            Ok(ProxyType::IdentityJudgement)
        } else if t == 5 {
            Ok(ProxyType::CancelProxy)
        } else if t == 6 {
            Ok(ProxyType::Auction)
        } else if t == 7 {
            Ok(ProxyType::Society)
        } else {
            Err(decode_failure("Could not decode `ProxyType`, variant doesn't exist"))
        }
    }
}

} // verus!
