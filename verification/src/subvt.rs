//! The validator records that SubVT publishes: details, summaries for lists and search,
//! stake and nomination summaries.
use crate::crypto::{same_account, AccountId};
use crate::para::ParaCoreAssignment;
use crate::staking::{
    sum_active_amounts, InactiveNominationsSummary, NominationSummary, RewardDestination,
    ValidatorPreferences,
};
use crate::strings::{contains_text, str_contains};
use crate::substrate::{
    account_confirmed, account_display, account_parent_display, clone_opt_string, lowercase,
    to_lowercase, Account, Balance, Epoch, Era, Stake, StakeSummary, ValidatorStake,
};
use vstd::prelude::*;

verus! {

/// All that SubVT knows of a validator.
#[derive(Debug, Default)]
pub struct ValidatorDetails {
    pub account: Account,
    pub network_id: u32,
    pub controller_account_id: AccountId,
    pub preferences: ValidatorPreferences,
    pub self_stake: Stake,
    pub reward_destination: RewardDestination,
    pub next_session_keys: String,
    pub queued_session_keys: Option<String>,
    pub is_active: bool,
    pub is_active_next_session: bool,
    pub nominations: Vec<NominationSummary>,
    pub oversubscribed: bool,
    pub active_era_count: u64,
    pub inactive_era_count: u64,
    pub slash_count: u64,
    pub offline_offence_count: u64,
    pub unclaimed_era_indices: Vec<u32>,
    pub is_para_validator: bool,
    pub para_core_assignment: Option<ParaCoreAssignment>,
    pub return_rate_per_billion: Option<u32>,
    pub blocks_authored: Option<u64>,
    pub reward_points: Option<u64>,
    pub heartbeat_received: Option<bool>,
    pub validator_stake: Option<ValidatorStake>,
    pub onekv_candidate_record_id: Option<u32>,
    pub onekv_rank: Option<u64>,
    pub onekv_location: Option<String>,
    pub onekv_is_valid: Option<bool>,
    pub onekv_offline_since: Option<u64>,
}

/// A validator's self stake, total stake and number of nominators.
#[derive(Clone, Copy, Debug, Default, Eq, Hash, PartialEq)]
pub struct ValidatorStakeSummary {
    pub self_stake: Balance,
    pub total_stake: Balance,
    pub nominator_count: u64,
}

impl ValidatorStakeSummary {
    /// The summary of an active stake.
    pub fn from(validator_stake: &ValidatorStake) -> (s: ValidatorStakeSummary)
        ensures
            s.self_stake == validator_stake.self_stake,
            s.total_stake == validator_stake.total_stake,
            s.nominator_count == validator_stake.nominators.len() as u64,
    {
        ValidatorStakeSummary {
            self_stake: validator_stake.self_stake,
            total_stake: validator_stake.total_stake,
            nominator_count: validator_stake.nominators.len() as u64,
        }
    }
}

/// A validator as the validator lists show it.
#[derive(Debug, Default)]
pub struct ValidatorSummary {
    pub account_id: AccountId,
    pub address: String,
    pub network_id: u32,
    pub controller_account_id: AccountId,
    pub display: Option<String>,
    pub parent_display: Option<String>,
    pub child_display: Option<String>,
    pub confirmed: bool,
    pub preferences: ValidatorPreferences,
    pub self_stake: StakeSummary,
    pub is_active: bool,
    pub is_active_next_session: bool,
    pub inactive_nominations: InactiveNominationsSummary,
    pub oversubscribed: bool,
    pub slash_count: u64,
    pub is_enrolled_in_1kv: bool,
    pub is_para_validator: bool,
    pub para_id: Option<u32>,
    pub return_rate_per_billion: Option<u32>,
    pub blocks_authored: Option<u64>,
    pub reward_points: Option<u64>,
    pub heartbeat_received: Option<bool>,
    pub validator_stake: Option<ValidatorStakeSummary>,
}

/// The accounts that actively back a validator: its stake's nominators, or none.
pub open spec fn active_ids(stake: Option<ValidatorStake>) -> Seq<AccountId> {
    match stake {
        Some(s) => s.nominators@.map_values(|n: crate::substrate::NominatorStake| n.account.id),
        None => Seq::empty(),
    }
}

/// The nominations of `noms` whose stash does not actively back the validator.
pub open spec fn inactive_of(noms: Seq<NominationSummary>, ids: Seq<AccountId>) -> Seq<NominationSummary>
    decreases noms.len(),
{
    if noms.len() == 0 {
        Seq::empty()
    } else {
        let prev = inactive_of(noms.drop_last(), ids);
        if ids.contains(noms.last().stash_account.id) {
            prev
        } else {
            prev.push(noms.last())
        }
    }
}

/// The sum of the total amounts of the stakes of `s`.
pub open spec fn sum_total_amounts(s: Seq<NominationSummary>) -> nat
    decreases s.len(),
{
    if s.len() == 0 {
        0
    } else {
        (sum_total_amounts(s.drop_last()) + s.last().stake.total_amount) as nat
    }
}

/// The accounts that actively back the validator.
fn active_staker_ids(stake: &Option<ValidatorStake>) -> (ids: Vec<AccountId>)
    ensures
        ids@ == active_ids(*stake),
{
    let mut ids: Vec<AccountId> = Vec::new();
    match stake {
        Some(s) => {
            let mut i: usize = 0;
            while i < s.nominators.len()
                invariant
                    i <= s.nominators.len(),
                    ids@ == s.nominators@.subrange(0, i as int).map_values(
                        |n: crate::substrate::NominatorStake| n.account.id,
                    ),
                decreases s.nominators.len() - i,
            {
                ids.push(s.nominators[i].account.id);
                assert(ids@ =~= s.nominators@.subrange(0, i + 1).map_values(
                    |n: crate::substrate::NominatorStake| n.account.id,
                ));
                i = i + 1;
            }
            assert(s.nominators@.subrange(0, i as int) =~= s.nominators@);
        },
        None => {
            assert(ids@ =~= Seq::<AccountId>::empty());
        },
    }
    ids
}

/// Whether `id` is one of `ids`.
fn contains_account(ids: &Vec<AccountId>, id: &AccountId) -> (r: bool)
    ensures
        r == ids@.contains(*id),
{
    let mut i: usize = 0;
    while i < ids.len()
        invariant
            i <= ids.len(),
            forall|j: int| 0 <= j < i ==> ids@[j] != *id,
        decreases ids.len() - i,
    {
        if same_account(&ids[i], id) {
            assert(ids@[i as int] == *id);
            return true;
        }
        i = i + 1;
    }
    false
}

/// The nominations whose stash is not one of `ids`.
fn inactive_nominations(noms: &Vec<NominationSummary>, ids: &Vec<AccountId>) -> (r: Vec<NominationSummary>)
    ensures
        r@ == inactive_of(noms@, ids@),
{
    let mut r: Vec<NominationSummary> = Vec::new();
    let mut i: usize = 0;
    while i < noms.len()
        invariant
            i <= noms.len(),
            r@ == inactive_of(noms@.subrange(0, i as int), ids@),
        decreases noms.len() - i,
    {
        let ghost next = noms@.subrange(0, i + 1);
        assert(next.drop_last() =~= noms@.subrange(0, i as int));
        if !contains_account(ids, &noms[i].stash_account.id) {
            r.push(noms[i].clone());
        }
        i = i + 1;
    }
    assert(noms@.subrange(0, i as int) =~= noms@);
    r
}

impl ValidatorSummary {
    /// The summary of a validator's details: its identity, preferences, stake and the
    /// nominations that do not actively back it.
    pub fn from(validator: &ValidatorDetails) -> (s: ValidatorSummary)
        requires
            sum_active_amounts(inactive_of(validator.nominations@, active_ids(validator.validator_stake)))
                <= u128::MAX,
        ensures
            s.account_id == validator.account.id,
            s.address == validator.account.address,
            s.network_id == validator.network_id,
            s.controller_account_id == validator.controller_account_id,
            s.display == account_display(validator.account),
            s.parent_display == account_parent_display(validator.account),
            s.child_display == validator.account.child_display,
            s.confirmed == account_confirmed(validator.account),
            s.preferences == validator.preferences,
            s.self_stake.stash_account_id == validator.self_stake.stash_account_id,
            s.self_stake.active_amount == validator.self_stake.active_amount,
            s.is_active == validator.is_active,
            s.is_active_next_session == validator.is_active_next_session,
            s.inactive_nominations.nomination_count == inactive_of(
                validator.nominations@,
                active_ids(validator.validator_stake),
            ).len() as u16,
            s.inactive_nominations.total_amount == sum_active_amounts(
                inactive_of(validator.nominations@, active_ids(validator.validator_stake)),
            ),
            s.oversubscribed == validator.oversubscribed,
            s.slash_count == validator.slash_count,
            s.is_enrolled_in_1kv == validator.onekv_candidate_record_id is Some,
            s.is_para_validator == validator.is_para_validator,
            s.para_id == (match validator.para_core_assignment {
                Some(a) => Some(a.para_id),
                None => None,
            }),
            s.return_rate_per_billion == validator.return_rate_per_billion,
            s.blocks_authored == validator.blocks_authored,
            s.reward_points == validator.reward_points,
            s.heartbeat_received == validator.heartbeat_received,
            s.validator_stake == (match validator.validator_stake {
                Some(v) => Some(
                    ValidatorStakeSummary {
                        self_stake: v.self_stake,
                        total_stake: v.total_stake,
                        nominator_count: v.nominators.len() as u64,
                    },
                ),
                None => None,
            }),
    {
        let ids = active_staker_ids(&validator.validator_stake);
        let inactive = inactive_nominations(&validator.nominations, &ids);
        let para_id = match &validator.para_core_assignment {
            Some(a) => Some(a.para_id),
            None => None,
        };
        let validator_stake = match &validator.validator_stake {
            Some(v) => Some(ValidatorStakeSummary::from(v)),
            None => None,
        };
        ValidatorSummary {
            account_id: validator.account.id,
            address: validator.account.address.clone(),
            network_id: validator.network_id,
            controller_account_id: validator.controller_account_id,
            display: validator.account.get_display(),
            parent_display: validator.account.get_parent_display(),
            child_display: clone_opt_string(&validator.account.child_display),
            confirmed: validator.account.get_confirmed(),
            preferences: validator.preferences,
            self_stake: StakeSummary::from(&validator.self_stake),
            is_active: validator.is_active,
            is_active_next_session: validator.is_active_next_session,
            inactive_nominations: InactiveNominationsSummary::from(&inactive),
            oversubscribed: validator.oversubscribed,
            slash_count: validator.slash_count,
            is_enrolled_in_1kv: validator.onekv_candidate_record_id.is_some(),
            is_para_validator: validator.is_para_validator,
            para_id,
            return_rate_per_billion: validator.return_rate_per_billion,
            blocks_authored: validator.blocks_authored,
            reward_points: validator.reward_points,
            heartbeat_received: validator.heartbeat_received,
            validator_stake,
        }
    }
}

/// Whether the lower-case form of the optional text `t` holds `q`.
pub open spec fn opt_matches(t: Option<String>, q: Seq<char>) -> bool {
    match t {
        Some(s) => contains_text(lowercase(s@), q),
        None => false,
    }
}

fn opt_contains(t: &Option<String>, q: &str) -> (r: bool)
    ensures
        r == opt_matches(*t, q@),
{
    match t {
        Some(s) => {
            let lower = to_lowercase(s.as_str());
            str_contains(lower.as_str(), q)
        },
        None => false,
    }
}

impl ValidatorSummary {
    /// Whether the validator matches a search: whether the lower-case query occurs in the
    /// lower-case address, display, parent display or child display.
    pub fn filter(&self, query: &str) -> (r: bool)
        ensures
            r == (contains_text(lowercase(self.address@), lowercase(query@)) || opt_matches(
                self.display,
                lowercase(query@),
            ) || opt_matches(self.parent_display, lowercase(query@)) || opt_matches(
                self.child_display,
                lowercase(query@),
            )),
    {
        let q = to_lowercase(query);
        let address = to_lowercase(self.address.as_str());
        str_contains(address.as_str(), q.as_str()) || opt_contains(&self.display, q.as_str())
            || opt_contains(&self.parent_display, q.as_str()) || opt_contains(&self.child_display, q.as_str())
    }
}

/// The active and inactive nominations of a validator: how many and how much.
#[derive(Clone, Copy, Debug, Default, Eq, Hash, PartialEq)]
pub struct ValidatorNominationSummary {
    pub active_nominator_count: usize,
    pub active_nomination_total: Balance,
    pub inactive_nominator_count: usize,
    pub inactive_nomination_total: Balance,
}

/// The sum of the total amounts over a prefix is at most that over the whole.
pub proof fn lemma_total_prefix_le(s: Seq<NominationSummary>, n: int)
    requires
        0 <= n <= s.len(),
    ensures
        sum_total_amounts(s.subrange(0, n)) <= sum_total_amounts(s),
    decreases s.len(),
{
    if n < s.len() {
        assert(s.drop_last().subrange(0, n) =~= s.subrange(0, n));
        lemma_total_prefix_le(s.drop_last(), n);
    } else {
        assert(s.subrange(0, n) =~= s);
    }
}

/// The inactive nominations over a prefix are a prefix of the whole, in count and in sum.
pub proof fn lemma_inactive_prefix_le(noms: Seq<NominationSummary>, ids: Seq<AccountId>, n: int)
    requires
        0 <= n <= noms.len(),
    ensures
        sum_active_amounts(inactive_of(noms.subrange(0, n), ids)) <= sum_active_amounts(inactive_of(noms, ids)),
        inactive_of(noms.subrange(0, n), ids).len() <= inactive_of(noms, ids).len(),
    decreases noms.len(),
{
    if n < noms.len() {
        assert(noms.drop_last().subrange(0, n) =~= noms.subrange(0, n));
        lemma_inactive_prefix_le(noms.drop_last(), ids, n);
        let p = inactive_of(noms.drop_last(), ids);
        assert(p.push(noms.last()).drop_last() =~= p);
    } else {
        assert(noms.subrange(0, n) =~= noms);
    }
}

/// The inactive nominations are at most all of them.
pub proof fn lemma_inactive_len(noms: Seq<NominationSummary>, ids: Seq<AccountId>)
    ensures
        inactive_of(noms, ids).len() <= noms.len(),
    decreases noms.len(),
{
    if noms.len() > 0 {
        lemma_inactive_len(noms.drop_last(), ids);
    }
}

impl ValidatorNominationSummary {
    /// The nomination summary of a validator. Where it has an active stake, its nominators
    /// are the active ones and the other nominations the inactive ones, counted by their
    /// active amounts; where it has none, every nomination is inactive, counted by its total
    /// amount.
    pub fn from(validator_details: &ValidatorDetails) -> (s: ValidatorNominationSummary)
        requires
            validator_details.validator_stake is Some ==> sum_active_amounts(
                inactive_of(validator_details.nominations@, active_ids(validator_details.validator_stake)),
            ) <= u128::MAX,
            validator_details.validator_stake is None ==> sum_total_amounts(validator_details.nominations@)
                <= u128::MAX,
        ensures
            match validator_details.validator_stake {
                Some(v) => {
                    &&& s.active_nominator_count == v.nominators.len()
                    &&& s.active_nomination_total == v.total_stake
                    &&& s.inactive_nominator_count == inactive_of(validator_details.nominations@, active_ids(validator_details.validator_stake)).len()
                    &&& s.inactive_nomination_total == sum_active_amounts(
                        inactive_of(validator_details.nominations@, active_ids(validator_details.validator_stake)),
                    )
                },
                None => {
                    &&& s.active_nominator_count == 0
                    &&& s.active_nomination_total == 0
                    &&& s.inactive_nominator_count == validator_details.nominations.len()
                    &&& s.inactive_nomination_total == sum_total_amounts(validator_details.nominations@)
                },
            },
    {
        match &validator_details.validator_stake {
            Some(v) => {
                let ids = active_staker_ids(&validator_details.validator_stake);
                let ghost all = validator_details.nominations@;
                let mut count: usize = 0;
                let mut total: Balance = 0;
                let mut i: usize = 0;
                while i < validator_details.nominations.len()
                    invariant
                        i <= validator_details.nominations.len(),
                        all == validator_details.nominations@,
                        sum_active_amounts(inactive_of(all, ids@)) <= u128::MAX,
                        count == inactive_of(all.subrange(0, i as int), ids@).len(),
                        total == sum_active_amounts(inactive_of(all.subrange(0, i as int), ids@)),
                    decreases validator_details.nominations.len() - i,
                {
                    let ghost next = all.subrange(0, i + 1);
                    assert(next.drop_last() =~= all.subrange(0, i as int));
                    proof {
                        lemma_inactive_prefix_le(all, ids@, i + 1);
                        lemma_inactive_len(next, ids@);
                    }
                    let n = &validator_details.nominations[i];
                    if !contains_account(&ids, &n.stash_account.id) {
                        proof {
                            let p = inactive_of(all.subrange(0, i as int), ids@);
                            assert(next.last() == *n);
                            assert(inactive_of(next, ids@) == p.push(*n));
                            assert(p.push(*n).drop_last() =~= p);
                        }
                        count = count + 1;
                        total = total + n.stake.active_amount;
                    }
                    i = i + 1;
                }
                assert(all.subrange(0, i as int) =~= all);
                ValidatorNominationSummary {
                    active_nominator_count: ids.len(),
                    active_nomination_total: v.total_stake,
                    inactive_nominator_count: count,
                    inactive_nomination_total: total,
                }
            },
            None => {
                let mut total: Balance = 0;
                let mut i: usize = 0;
                while i < validator_details.nominations.len()
                    invariant
                        i <= validator_details.nominations.len(),
                        sum_total_amounts(validator_details.nominations@) <= u128::MAX,
                        total == sum_total_amounts(validator_details.nominations@.subrange(0, i as int)),
                    decreases validator_details.nominations.len() - i,
                {
                    proof {
                        lemma_total_prefix_le(validator_details.nominations@, i + 1);
                        assert(validator_details.nominations@.subrange(0, i + 1).drop_last()
                            =~= validator_details.nominations@.subrange(0, i as int));
                    }
                    total = total + validator_details.nominations[i].stake.total_amount;
                    i = i + 1;
                }
                assert(validator_details.nominations@.subrange(0, i as int) =~= validator_details.nominations@);
                ValidatorNominationSummary {
                    active_nominator_count: 0,
                    active_nomination_total: 0,
                    inactive_nominator_count: validator_details.nominations.len(),
                    inactive_nomination_total: total,
                }
            },
        }
    }
}

/// A validator as search results show it.
#[derive(Clone, Debug, Default)]
pub struct ValidatorSearchSummary {
    pub address: String,
    pub display: Option<String>,
    pub parent_display: Option<String>,
    pub child_display: Option<String>,
    pub confirmed: bool,
}

impl ValidatorSearchSummary {
    /// The search result of a validator summary.
    pub fn from(validator_summary: &ValidatorSummary) -> (s: ValidatorSearchSummary)
        ensures
            s.address == validator_summary.address,
            s.display == validator_summary.display,
            s.parent_display == validator_summary.parent_display,
            s.child_display == validator_summary.child_display,
            s.confirmed == validator_summary.confirmed,
    {
        ValidatorSearchSummary {
            address: validator_summary.address.clone(),
            display: clone_opt_string(&validator_summary.display),
            parent_display: clone_opt_string(&validator_summary.parent_display),
            child_display: clone_opt_string(&validator_summary.child_display),
            confirmed: validator_summary.confirmed,
        }
    }
}

/// The status of a network at its best and finalized blocks.
#[derive(Clone, Debug, Default)]
pub struct NetworkStatus {
    pub finalized_block_number: u64,
    pub finalized_block_hash: String,
    pub best_block_number: u64,
    pub best_block_hash: String,
    pub active_era: Era,
    pub current_epoch: Epoch,
    pub active_validator_count: u32,
    pub inactive_validator_count: u32,
    pub last_era_total_reward: Balance,
    pub total_stake: Balance,
    pub return_rate_per_million: u32,
    pub min_stake: Balance,
    pub max_stake: Balance,
    pub average_stake: Balance,
    pub median_stake: Balance,
    pub era_reward_points: u32,
}

} // verus!
