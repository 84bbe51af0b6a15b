//! The changes between two versions of a validator's details: what the validator details
//! server sends a subscriber after an update, field by field, where the field changed.
use crate::crypto::same_account;
use crate::para::ParaCoreAssignment;
use crate::staking::{NominationSummary, RewardDestination, ValidatorPreferences};
use crate::strings::str_equals;
use crate::substrate::{
    clone_nominator_stakes, clone_opt_string, Account, IdentityRegistration, NominatorStake, Stake,
    ValidatorStake,
};
use crate::subvt::ValidatorDetails;
use vstd::prelude::*;

verus! {

// ---------------------------------------------------------------------------
// When two values are the same.
// ---------------------------------------------------------------------------

/// Whether two optional texts are the same: both absent, or both present with the same
/// characters.
pub open spec fn same_opt_text(a: Option<String>, b: Option<String>) -> bool {
    match (a, b) {
        (Some(x), Some(y)) => x@ == y@,
        (None, None) => true,
        _ => false,
    }
}

/// Whether two optional identities are the same, field by field.
pub open spec fn same_identity(a: Option<IdentityRegistration>, b: Option<IdentityRegistration>) -> bool {
    match (a, b) {
        (Some(x), Some(y)) => {
            &&& same_opt_text(x.display, y.display)
            &&& same_opt_text(x.email, y.email)
            &&& same_opt_text(x.riot, y.riot)
            &&& same_opt_text(x.twitter, y.twitter)
            &&& same_opt_text(x.web, y.web)
            &&& x.confirmed == y.confirmed
        },
        (None, None) => true,
        _ => false,
    }
}

/// Whether two accounts are the same, field by field, their parents included.
pub open spec fn same_account_record(a: Account, b: Account) -> bool
    decreases a,
{
    &&& a.id == b.id
    &&& a.address@ == b.address@
    &&& same_identity(a.identity, b.identity)
    &&& match (*a.parent, *b.parent) {
        (Some(p), Some(q)) => same_account_record(p, q),
        (None, None) => true,
        _ => false,
    }
    &&& same_opt_text(a.child_display, b.child_display)
    &&& a.discovered_at == b.discovered_at
    &&& a.killed_at == b.killed_at
}

/// Whether two nominations are the same.
pub open spec fn same_nomination(a: NominationSummary, b: NominationSummary) -> bool {
    &&& same_account_record(a.stash_account, b.stash_account)
    &&& a.submission_era_index == b.submission_era_index
    &&& a.nominee_count == b.nominee_count
    &&& a.stake == b.stake
}

/// Whether two lists of nominations are the same, in order.
pub open spec fn same_nominations(a: Seq<NominationSummary>, b: Seq<NominationSummary>) -> bool {
    a.len() == b.len() && forall|i: int| 0 <= i < a.len() ==> #[trigger] same_nomination(a[i], b[i])
}

/// Whether two active stakes are the same, each nominator's included, in order.
pub open spec fn same_validator_stake(a: ValidatorStake, b: ValidatorStake) -> bool {
    &&& same_account_record(a.account, b.account)
    &&& a.self_stake == b.self_stake
    &&& a.total_stake == b.total_stake
    &&& a.nominators.len() == b.nominators.len()
    &&& forall|i: int|
        0 <= i < a.nominators.len() ==> #[trigger] same_nominator_stake(a.nominators@[i], b.nominators@[i])
}

/// Whether two nominator stakes are the same.
pub open spec fn same_nominator_stake(a: NominatorStake, b: NominatorStake) -> bool {
    same_account_record(a.account, b.account) && a.stake == b.stake
}

/// Whether two optional active stakes are the same.
pub open spec fn same_opt_validator_stake(a: Option<ValidatorStake>, b: Option<ValidatorStake>) -> bool {
    match (a, b) {
        (Some(x), Some(y)) => same_validator_stake(x, y),
        (None, None) => true,
        _ => false,
    }
}

/// Whether `c` is a copy of the optional active stake `o`.
pub open spec fn copy_of_opt_validator_stake(c: Option<ValidatorStake>, o: Option<ValidatorStake>) -> bool {
    match (c, o) {
        (Some(x), Some(y)) => {
            &&& x.account == y.account
            &&& x.self_stake == y.self_stake
            &&& x.total_stake == y.total_stake
            &&& x.nominators@ == y.nominators@
        },
        (None, None) => true,
        _ => false,
    }
}

/// The change of a field: nothing where it stayed the same, else its new value.
pub open spec fn field_change<T>(same: bool, new: T) -> Option<T> {
    if same {
        None
    } else {
        Some(new)
    }
}

/// Every account is the same as itself.
pub proof fn lemma_same_account_record_reflexive(a: Account)
    ensures
        same_account_record(a, a),
    decreases a,
{
    match *a.parent {
        Some(p) => lemma_same_account_record_reflexive(p),
        None => {},
    }
}

/// Details compared with themselves show no change in any field: the sameness that the
/// changes are measured by holds of every value with itself.
pub proof fn law_details_unchanged_from_themselves(d: ValidatorDetails)
    ensures
        same_opt_text(d.queued_session_keys, d.queued_session_keys),
        same_nominations(d.nominations@, d.nominations@),
        same_opt_validator_stake(d.validator_stake, d.validator_stake),
        same_opt_text(d.onekv_location, d.onekv_location),
{
    assert forall|i: int| 0 <= i < d.nominations@.len() implies #[trigger] same_nomination(
        d.nominations@[i],
        d.nominations@[i],
    ) by {
        lemma_same_account_record_reflexive(d.nominations@[i].stash_account);
    }
    match d.validator_stake {
        Some(v) => {
            lemma_same_account_record_reflexive(v.account);
            assert forall|i: int| 0 <= i < v.nominators.len() implies #[trigger] same_nominator_stake(
                v.nominators@[i],
                v.nominators@[i],
            ) by {
                lemma_same_account_record_reflexive(v.nominators@[i].account);
            }
        },
        None => {},
    }
}

// ---------------------------------------------------------------------------
// Comparisons.
// ---------------------------------------------------------------------------

fn same_opt_text_exec(a: &Option<String>, b: &Option<String>) -> (r: bool)
    ensures
        r == same_opt_text(*a, *b),
{
    match (a, b) {
        (Some(x), Some(y)) => str_equals(x.as_str(), y.as_str()),
        (None, None) => true,
        _ => false,
    }
}

fn same_identity_exec(a: &Option<IdentityRegistration>, b: &Option<IdentityRegistration>) -> (r: bool)
    ensures
        r == same_identity(*a, *b),
{
    match (a, b) {
        (Some(x), Some(y)) => {
            same_opt_text_exec(&x.display, &y.display) && same_opt_text_exec(&x.email, &y.email)
                && same_opt_text_exec(&x.riot, &y.riot) && same_opt_text_exec(&x.twitter, &y.twitter)
                && same_opt_text_exec(&x.web, &y.web) && x.confirmed == y.confirmed
        },
        (None, None) => true,
        _ => false,
    }
}

fn same_account_record_exec(a: &Account, b: &Account) -> (r: bool)
    ensures
        r == same_account_record(*a, *b),
    decreases a,
{
    let parents = match (&*a.parent, &*b.parent) {
        (Some(p), Some(q)) => same_account_record_exec(p, q),
        (None, None) => true,
        _ => false,
    };
    same_account(&a.id, &b.id) && str_equals(a.address.as_str(), b.address.as_str())
        && same_identity_exec(&a.identity, &b.identity) && parents && same_opt_text_exec(
        &a.child_display,
        &b.child_display,
    ) && a.discovered_at == b.discovered_at && a.killed_at == b.killed_at
}

fn same_stake_exec(a: &Stake, b: &Stake) -> (r: bool)
    ensures
        r == (*a == *b),
{
    same_account(&a.stash_account_id, &b.stash_account_id) && a.total_amount == b.total_amount
        && a.active_amount == b.active_amount
}

fn same_nominations_exec(a: &Vec<NominationSummary>, b: &Vec<NominationSummary>) -> (r: bool)
    ensures
        r == same_nominations(a@, b@),
{
    if a.len() != b.len() {
        return false;
    }
    let mut i: usize = 0;
    while i < a.len()
        invariant
            a.len() == b.len(),
            i <= a.len(),
            forall|j: int| 0 <= j < i ==> #[trigger] same_nomination(a@[j], b@[j]),
        decreases a.len() - i,
    {
        let x = &a[i];
        let y = &b[i];
        if !(same_account_record_exec(&x.stash_account, &y.stash_account)
            && x.submission_era_index == y.submission_era_index && x.nominee_count == y.nominee_count
            && same_stake_exec(&x.stake, &y.stake)) {
            assert(!same_nomination(a@[i as int], b@[i as int]));
            return false;
        }
        i = i + 1;
    }
    true
}

fn same_validator_stake_exec(a: &ValidatorStake, b: &ValidatorStake) -> (r: bool)
    ensures
        r == same_validator_stake(*a, *b),
{
    if !(same_account_record_exec(&a.account, &b.account) && a.self_stake == b.self_stake
        && a.total_stake == b.total_stake && a.nominators.len() == b.nominators.len()) {
        return false;
    }
    let mut i: usize = 0;
    while i < a.nominators.len()
        invariant
            a.nominators.len() == b.nominators.len(),
            i <= a.nominators.len(),
            forall|j: int| 0 <= j < i ==> #[trigger] same_nominator_stake(a.nominators@[j], b.nominators@[j]),
        decreases a.nominators.len() - i,
    {
        let x = &a.nominators[i];
        let y = &b.nominators[i];
        if !(same_account_record_exec(&x.account, &y.account) && x.stake == y.stake) {
            assert(!same_nominator_stake(a.nominators@[i as int], b.nominators@[i as int]));
            return false;
        }
        i = i + 1;
    }
    true
}

fn same_opt_validator_stake_exec(a: &Option<ValidatorStake>, b: &Option<ValidatorStake>) -> (r: bool)
    ensures
        r == same_opt_validator_stake(*a, *b),
{
    match (a, b) {
        (Some(x), Some(y)) => same_validator_stake_exec(x, y),
        (None, None) => true,
        _ => false,
    }
}

fn same_reward_destination(a: &RewardDestination, b: &RewardDestination) -> (r: bool)
    ensures
        r == (*a == *b),
{
    match (a, b) {
        (RewardDestination::Staked, RewardDestination::Staked) => true,
        (RewardDestination::Stash, RewardDestination::Stash) => true,
        (RewardDestination::Controller, RewardDestination::Controller) => true,
        (RewardDestination::Account(x), RewardDestination::Account(y)) => same_account(x, y),
        (RewardDestination::NoDestination, RewardDestination::NoDestination) => true,
        _ => false,
    }
}

fn same_preferences(a: &ValidatorPreferences, b: &ValidatorPreferences) -> (r: bool)
    ensures
        r == (*a == *b),
{
    a.commission_per_billion == b.commission_per_billion && a.blocks_nominations == b.blocks_nominations
}

fn same_opt_para_core_assignment(a: &Option<ParaCoreAssignment>, b: &Option<ParaCoreAssignment>) -> (r: bool)
    ensures
        r == (*a == *b),
{
    match (a, b) {
        (Some(x), Some(y)) => x.core_index == y.core_index && x.para_id == y.para_id && x.group_index
            == y.group_index,
        (None, None) => true,
        _ => false,
    }
}

fn same_opt_u32(a: Option<u32>, b: Option<u32>) -> (r: bool)
    ensures
        r == (a == b),
{
    match (a, b) {
        (Some(x), Some(y)) => x == y,
        (None, None) => true,
        _ => false,
    }
}

fn same_opt_u64(a: Option<u64>, b: Option<u64>) -> (r: bool)
    ensures
        r == (a == b),
{
    match (a, b) {
        (Some(x), Some(y)) => x == y,
        (None, None) => true,
        _ => false,
    }
}

fn same_opt_bool(a: Option<bool>, b: Option<bool>) -> (r: bool)
    ensures
        r == (a == b),
{
    match (a, b) {
        (Some(x), Some(y)) => x == y,
        (None, None) => true,
        _ => false,
    }
}

fn same_u32s(a: &Vec<u32>, b: &Vec<u32>) -> (r: bool)
    ensures
        r == (a@ == b@),
{
    if a.len() != b.len() {
        return false;
    }
    let mut i: usize = 0;
    while i < a.len()
        invariant
            a.len() == b.len(),
            i <= a.len(),
            forall|j: int| 0 <= j < i ==> a@[j] == b@[j],
        decreases a.len() - i,
    {
        if a[i] != b[i] {
            return false;
        }
        i = i + 1;
    }
    assert(a@ =~= b@);
    true
}

// ---------------------------------------------------------------------------
// Copies.
// ---------------------------------------------------------------------------

fn copy_nominations(v: &Vec<NominationSummary>) -> (r: Vec<NominationSummary>)
    ensures
        r@ == v@,
{
    let mut r: Vec<NominationSummary> = Vec::new();
    let mut i: usize = 0;
    while i < v.len()
        invariant
            i <= v.len(),
            r@ == v@.subrange(0, i as int),
        decreases v.len() - i,
    {
        r.push(v[i].clone());
        assert(r@ =~= v@.subrange(0, i + 1));
        i = i + 1;
    }
    assert(v@.subrange(0, v.len() as int) =~= v@);
    r
}

fn copy_u32s(v: &Vec<u32>) -> (r: Vec<u32>)
    ensures
        r@ == v@,
{
    let mut r: Vec<u32> = Vec::new();
    let mut i: usize = 0;
    while i < v.len()
        invariant
            i <= v.len(),
            r@ == v@.subrange(0, i as int),
        decreases v.len() - i,
    {
        r.push(v[i]);
        assert(r@ =~= v@.subrange(0, i + 1));
        i = i + 1;
    }
    assert(v@.subrange(0, v.len() as int) =~= v@);
    r
}

fn copy_opt_validator_stake(o: &Option<ValidatorStake>) -> (r: Option<ValidatorStake>)
    ensures
        copy_of_opt_validator_stake(r, *o),
{
    match o {
        Some(s) => Some(
            ValidatorStake {
                account: s.account.clone(),
                self_stake: s.self_stake,
                total_stake: s.total_stake,
                nominators: clone_nominator_stakes(&s.nominators),
            },
        ),
        None => None,
    }
}

// ---------------------------------------------------------------------------
// The changes of a validator's details.
// ---------------------------------------------------------------------------

/// The changes between two versions of a validator's details: the account, which names the
/// validator, and for every other field its new value where it changed (`None` where it did
/// not).
#[derive(Debug)]
pub struct ValidatorDetailsDiff {
    pub account: Account,
    pub network_id: Option<u32>,
    pub controller_account_id: Option<crate::crypto::AccountId>,
    pub preferences: Option<ValidatorPreferences>,
    pub self_stake: Option<Stake>,
    pub reward_destination: Option<RewardDestination>,
    pub next_session_keys: Option<String>,
    pub queued_session_keys: Option<Option<String>>,
    pub is_active: Option<bool>,
    pub is_active_next_session: Option<bool>,
    pub nominations: Option<Vec<NominationSummary>>,
    pub oversubscribed: Option<bool>,
    pub active_era_count: Option<u64>,
    pub inactive_era_count: Option<u64>,
    pub slash_count: Option<u64>,
    pub offline_offence_count: Option<u64>,
    pub unclaimed_era_indices: Option<Vec<u32>>,
    pub is_para_validator: Option<bool>,
    pub para_core_assignment: Option<Option<ParaCoreAssignment>>,
    pub return_rate_per_billion: Option<Option<u32>>,
    pub blocks_authored: Option<Option<u64>>,
    pub reward_points: Option<Option<u64>>,
    pub heartbeat_received: Option<Option<bool>>,
    pub validator_stake: Option<Option<ValidatorStake>>,
    pub onekv_candidate_record_id: Option<Option<u32>>,
    pub onekv_rank: Option<Option<u64>>,
    pub onekv_location: Option<Option<String>>,
    pub onekv_is_valid: Option<Option<bool>>,
    pub onekv_offline_since: Option<Option<u64>>,
}

impl ValidatorDetails {
    /// The changes from these details to `other`, the newer details of the same validator:
    /// the account of these details, and every other field of `other` that differs from the
    /// same field here.
    pub fn get_diff(&self, other: &ValidatorDetails) -> (d: ValidatorDetailsDiff)
        ensures
            d.account == self.account,
            d.network_id == field_change(self.network_id == other.network_id, other.network_id),
            d.controller_account_id == field_change(
                self.controller_account_id == other.controller_account_id,
                other.controller_account_id,
            ),
            d.preferences == field_change(self.preferences == other.preferences, other.preferences),
            d.self_stake == field_change(self.self_stake == other.self_stake, other.self_stake),
            d.reward_destination == field_change(
                self.reward_destination == other.reward_destination,
                other.reward_destination,
            ),
            d.next_session_keys == field_change(
                self.next_session_keys@ == other.next_session_keys@,
                other.next_session_keys,
            ),
            d.queued_session_keys == field_change(
                same_opt_text(self.queued_session_keys, other.queued_session_keys),
                other.queued_session_keys,
            ),
            d.is_active == field_change(self.is_active == other.is_active, other.is_active),
            d.is_active_next_session == field_change(
                self.is_active_next_session == other.is_active_next_session,
                other.is_active_next_session,
            ),
            d.nominations is Some <==> !same_nominations(self.nominations@, other.nominations@),
            d.nominations matches Some(v) ==> v@ == other.nominations@,
            d.oversubscribed == field_change(self.oversubscribed == other.oversubscribed, other.oversubscribed),
            d.active_era_count == field_change(
                self.active_era_count == other.active_era_count,
                other.active_era_count,
            ),
            d.inactive_era_count == field_change(
                self.inactive_era_count == other.inactive_era_count,
                other.inactive_era_count,
            ),
            d.slash_count == field_change(self.slash_count == other.slash_count, other.slash_count),
            d.offline_offence_count == field_change(
                self.offline_offence_count == other.offline_offence_count,
                other.offline_offence_count,
            ),
            d.unclaimed_era_indices is Some <==> self.unclaimed_era_indices@ != other.unclaimed_era_indices@,
            d.unclaimed_era_indices matches Some(v) ==> v@ == other.unclaimed_era_indices@,
            d.is_para_validator == field_change(
                self.is_para_validator == other.is_para_validator,
                other.is_para_validator,
            ),
            d.para_core_assignment == field_change(
                self.para_core_assignment == other.para_core_assignment,
                other.para_core_assignment,
            ),
            d.return_rate_per_billion == field_change(
                self.return_rate_per_billion == other.return_rate_per_billion,
                other.return_rate_per_billion,
            ),
            d.blocks_authored == field_change(
                self.blocks_authored == other.blocks_authored,
                other.blocks_authored,
            ),
            d.reward_points == field_change(self.reward_points == other.reward_points, other.reward_points),
            d.heartbeat_received == field_change(
                self.heartbeat_received == other.heartbeat_received,
                other.heartbeat_received,
            ),
            d.validator_stake is Some <==> !same_opt_validator_stake(self.validator_stake, other.validator_stake),
            d.validator_stake matches Some(v) ==> copy_of_opt_validator_stake(v, other.validator_stake),
            d.onekv_candidate_record_id == field_change(
                self.onekv_candidate_record_id == other.onekv_candidate_record_id,
                other.onekv_candidate_record_id,
            ),
            d.onekv_rank == field_change(self.onekv_rank == other.onekv_rank, other.onekv_rank),
            d.onekv_location == field_change(
                same_opt_text(self.onekv_location, other.onekv_location),
                other.onekv_location,
            ),
            d.onekv_is_valid == field_change(self.onekv_is_valid == other.onekv_is_valid, other.onekv_is_valid),
            d.onekv_offline_since == field_change(
                self.onekv_offline_since == other.onekv_offline_since,
                other.onekv_offline_since,
            ),
    {
        let a = self;
        let b = other;
        ValidatorDetailsDiff {
            account: a.account.clone(),
            network_id: if a.network_id == b.network_id { None } else { Some(b.network_id) },
            controller_account_id: if same_account(&a.controller_account_id, &b.controller_account_id) {
                None
            } else {
                Some(b.controller_account_id)
            },
            preferences: if same_preferences(&a.preferences, &b.preferences) {
                None
            } else {
                Some(b.preferences)
            },
            self_stake: if same_stake_exec(&a.self_stake, &b.self_stake) {
                None
            } else {
                Some(b.self_stake)
            },
            reward_destination: if same_reward_destination(&a.reward_destination, &b.reward_destination) {
                None
            } else {
                Some(b.reward_destination)
            },
            next_session_keys: if str_equals(a.next_session_keys.as_str(), b.next_session_keys.as_str()) {
                None
            } else {
                Some(b.next_session_keys.clone())
            },
            queued_session_keys: if same_opt_text_exec(&a.queued_session_keys, &b.queued_session_keys) {
                None
            } else {
                Some(clone_opt_string(&b.queued_session_keys))
            },
            is_active: if a.is_active == b.is_active { None } else { Some(b.is_active) },
            is_active_next_session: if a.is_active_next_session == b.is_active_next_session {
                None
            } else {
                Some(b.is_active_next_session)
            },
            nominations: if same_nominations_exec(&a.nominations, &b.nominations) {
                None
            } else {
                Some(copy_nominations(&b.nominations))
            },
            oversubscribed: if a.oversubscribed == b.oversubscribed { None } else { Some(b.oversubscribed) },
            active_era_count: if a.active_era_count == b.active_era_count {
                None
            } else {
                Some(b.active_era_count)
            },
            inactive_era_count: if a.inactive_era_count == b.inactive_era_count {
                None
            } else {
                Some(b.inactive_era_count)
            },
            slash_count: if a.slash_count == b.slash_count { None } else { Some(b.slash_count) },
            offline_offence_count: if a.offline_offence_count == b.offline_offence_count {
                None
            } else {
                Some(b.offline_offence_count)
            },
            unclaimed_era_indices: if same_u32s(&a.unclaimed_era_indices, &b.unclaimed_era_indices) {
                None
            } else {
                Some(copy_u32s(&b.unclaimed_era_indices))
            },
            is_para_validator: if a.is_para_validator == b.is_para_validator {
                None
            } else {
                Some(b.is_para_validator)
            },
            para_core_assignment: if same_opt_para_core_assignment(&a.para_core_assignment, &b.para_core_assignment) {
                None
            } else {
                Some(b.para_core_assignment)
            },
            return_rate_per_billion: if same_opt_u32(a.return_rate_per_billion, b.return_rate_per_billion) {
                None
            } else {
                Some(b.return_rate_per_billion)
            },
            blocks_authored: if same_opt_u64(a.blocks_authored, b.blocks_authored) {
                None
            } else {
                Some(b.blocks_authored)
            },
            reward_points: if same_opt_u64(a.reward_points, b.reward_points) {
                None
            } else {
                Some(b.reward_points)
            },
            heartbeat_received: if same_opt_bool(a.heartbeat_received, b.heartbeat_received) {
                None
            } else {
                Some(b.heartbeat_received)
            },
            validator_stake: if same_opt_validator_stake_exec(&a.validator_stake, &b.validator_stake) {
                None
            } else {
                Some(copy_opt_validator_stake(&b.validator_stake))
            },
            onekv_candidate_record_id: if same_opt_u32(a.onekv_candidate_record_id, b.onekv_candidate_record_id) {
                None
            } else {
                Some(b.onekv_candidate_record_id)
            },
            onekv_rank: if same_opt_u64(a.onekv_rank, b.onekv_rank) { None } else { Some(b.onekv_rank) },
            onekv_location: if same_opt_text_exec(&a.onekv_location, &b.onekv_location) {
                None
            } else {
                Some(clone_opt_string(&b.onekv_location))
            },
            onekv_is_valid: if same_opt_bool(a.onekv_is_valid, b.onekv_is_valid) {
                None
            } else {
                Some(b.onekv_is_valid)
            },
            onekv_offline_since: if same_opt_u64(a.onekv_offline_since, b.onekv_offline_since) {
                None
            } else {
                Some(b.onekv_offline_since)
            },
        }
    }
}

} // verus!
