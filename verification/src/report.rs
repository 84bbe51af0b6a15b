//! Report types: era and validator reports, session reports, parachain votes and their
//! summaries.
use crate::crypto::AccountId;
use crate::substrate::{Account, Balance, Epoch, Era, Stake};
use crate::subvt::{ValidatorDetails, ValidatorSummary};
use vstd::prelude::*;

verus! {

/// An error of the report service.
#[derive(Clone, Debug, Default)]
pub struct ReportError {
    pub description: String,
}

/// A validator's record over an era.
#[derive(Clone, Debug, Default)]
pub struct EraValidatorReport {
    pub account_id: Option<AccountId>,
    pub address: Option<String>,
    pub era: Option<Era>,
    pub is_active: Option<bool>,
    pub commission_per_billion: Option<u32>,
    pub self_stake: Option<u128>,
    pub total_stake: Option<u128>,
    pub block_count: u32,
    pub reward_points: Option<u128>,
    pub self_reward: u128,
    pub staker_reward: u128,
    pub offline_offence_count: u16,
    pub slashed_amount: u128,
    pub chilling_count: u16,
}

/// The validator reports of an era.
#[derive(Clone, Debug)]
pub struct EraValidatorListReport {
    pub era: Era,
    pub validators: Vec<EraValidatorReport>,
}

/// The record of the whole network over an era.
#[derive(Clone, Debug, Default)]
pub struct EraReport {
    pub era: Era,
    pub minimum_stake: Option<u128>,
    pub maximum_stake: Option<u128>,
    pub average_stake: Option<u128>,
    pub median_stake: Option<u128>,
    pub total_reward: Option<u128>,
    pub total_reward_points: Option<u128>,
    pub total_paid_out: u128,
    pub total_stake: Option<u128>,
    pub active_validator_count: u32,
    pub inactive_validator_count: u32,
    pub active_nominator_count: Option<u64>,
    pub offline_offence_count: u64,
    pub slashed_amount: u128,
    pub chilling_count: u64,
}

/// A validator of an era, active or not.
#[derive(Clone, Copy, Debug, Default)]
pub struct EraValidator {
    pub era_index: u64,
    pub validator_account_id: AccountId,
    pub is_active: bool,
    pub active_validator_index: Option<u64>,
}

/// A parachain validator of a session, with its group and index.
#[derive(Clone, Copy, Debug, Default)]
pub struct SessionParaValidator {
    pub session_index: u64,
    pub validator_account_id: AccountId,
    pub para_validator_group_index: u64,
    pub para_validator_index: u64,
}

/// A block: its number, hash and time.
#[derive(Clone, Debug, Default)]
pub struct BlockSummary {
    pub number: u64,
    pub hash: String,
    pub timestamp: u64,
}

/// How a parachain validator voted on a candidate.
#[derive(Clone, Copy, Debug, Eq, PartialEq)]
pub enum ParaVoteType {
    EXPLICIT,
    IMPLICIT,
    MISSED,
}

/// A parachain validator's vote in a block.
#[derive(Clone, Debug)]
pub struct ParaVote {
    pub block_number: u64,
    pub block_hash: String,
    pub session_index: u64,
    pub para_id: u64,
    pub para_validator_index: u64,
    pub vote: ParaVoteType,
}

/// The number of explicit, implicit and missed votes.
#[derive(Clone, Copy, Debug, Default, Eq, Hash, PartialEq)]
pub struct ParaVotesSummary {
    pub explicit: u32,
    pub implicit: u32,
    pub missed: u32,
}

/// The number of the votes of `votes` that are of type `t`.
pub open spec fn count_votes(votes: Seq<ParaVote>, t: ParaVoteType) -> nat
    decreases votes.len(),
{
    if votes.len() == 0 {
        0
    } else {
        count_votes(votes.drop_last(), t) + if votes.last().vote == t {
            1nat
        } else {
            0nat
        }
    }
}

/// A count over a prefix is at most the count over the whole.
pub proof fn lemma_count_prefix_le(votes: Seq<ParaVote>, t: ParaVoteType, n: int)
    requires
        0 <= n <= votes.len(),
    ensures
        count_votes(votes.subrange(0, n), t) <= count_votes(votes, t),
    decreases votes.len(),
{
    if n < votes.len() {
        assert(votes.drop_last().subrange(0, n) =~= votes.subrange(0, n));
        lemma_count_prefix_le(votes.drop_last(), t, n);
    } else {
        assert(votes.subrange(0, n) =~= votes);
    }
}

impl ParaVotesSummary {
    /// The number of votes of each type.
    pub fn from_para_votes(para_votes: &[ParaVote]) -> (s: ParaVotesSummary)
        requires
            count_votes(para_votes@, ParaVoteType::EXPLICIT) <= u32::MAX,
            count_votes(para_votes@, ParaVoteType::IMPLICIT) <= u32::MAX,
            count_votes(para_votes@, ParaVoteType::MISSED) <= u32::MAX,
        ensures
            s.explicit == count_votes(para_votes@, ParaVoteType::EXPLICIT),
            s.implicit == count_votes(para_votes@, ParaVoteType::IMPLICIT),
            s.missed == count_votes(para_votes@, ParaVoteType::MISSED),
    {
        let mut s = ParaVotesSummary { explicit: 0, implicit: 0, missed: 0 };
        let mut i: usize = 0;
        while i < para_votes.len()
            invariant
                i <= para_votes.len(),
                count_votes(para_votes@, ParaVoteType::EXPLICIT) <= u32::MAX,
                count_votes(para_votes@, ParaVoteType::IMPLICIT) <= u32::MAX,
                count_votes(para_votes@, ParaVoteType::MISSED) <= u32::MAX,
                s.explicit == count_votes(para_votes@.subrange(0, i as int), ParaVoteType::EXPLICIT),
                s.implicit == count_votes(para_votes@.subrange(0, i as int), ParaVoteType::IMPLICIT),
                s.missed == count_votes(para_votes@.subrange(0, i as int), ParaVoteType::MISSED),
            decreases para_votes.len() - i,
        {
            proof {
                let next = para_votes@.subrange(0, i + 1);
                assert(next.drop_last() =~= para_votes@.subrange(0, i as int));
                lemma_count_prefix_le(para_votes@, ParaVoteType::EXPLICIT, i + 1);
                lemma_count_prefix_le(para_votes@, ParaVoteType::IMPLICIT, i + 1);
                lemma_count_prefix_le(para_votes@, ParaVoteType::MISSED, i + 1);
            }
            match para_votes[i].vote {
                ParaVoteType::EXPLICIT => s.explicit = s.explicit + 1,
                ParaVoteType::IMPLICIT => s.implicit = s.implicit + 1,
                ParaVoteType::MISSED => s.missed = s.missed + 1,
            }
            i = i + 1;
        }
        assert(para_votes@.subrange(0, i as int) =~= para_votes@);
        s
    }
}

/// A heartbeat of a validator: the block, the event and the key.
#[derive(Clone, Debug, Default)]
pub struct HeartbeatEvent {
    pub block: BlockSummary,
    pub event_index: u32,
    pub im_online_key: String,
}

/// A validator's record over a session.
#[derive(Clone, Debug, Default)]
pub struct SessionValidatorReport {
    pub session: Epoch,
    pub is_active: bool,
    pub validator_index: Option<u64>,
    pub heartbeat_event: Option<HeartbeatEvent>,
    pub blocks_authored: Option<Vec<BlockSummary>>,
    pub para_validator_group_index: Option<u64>,
    pub para_validator_index: Option<u64>,
    pub para_votes_summary: Option<ParaVotesSummary>,
}

/// A parachain validator's votes over a session.
#[derive(Clone, Debug, Default)]
pub struct SessionValidatorParaVoteReport {
    pub session: Epoch,
    pub para_validator_group_index: Option<u64>,
    pub para_validator_index: Option<u64>,
    pub para_votes_summary: Option<ParaVotesSummary>,
    pub para_votes: Option<Vec<ParaVote>>,
}

/// The votes on a parachain over a session.
#[derive(Clone, Copy, Debug, Default)]
pub struct SessionParaVoteReport {
    pub para_id: u64,
    pub para_votes_summary: ParaVotesSummary,
}

/// The votes on every parachain over a session.
#[derive(Clone, Debug, Default)]
pub struct SessionParasVoteReport {
    pub session: Epoch,
    pub paras: Vec<SessionParaVoteReport>,
}

/// A validator's reward in an era.
#[derive(Clone, Copy, Debug, Default)]
pub struct EraValidatorRewardReport {
    pub era: Era,
    pub reward: Balance,
}

impl EraValidatorRewardReport {
    /// The report of an era and a reward.
    pub fn from(era_reward: &(Era, Balance)) -> (r: EraValidatorRewardReport)
        ensures
            r.era == era_reward.0,
            r.reward == era_reward.1,
    {
        EraValidatorRewardReport { era: era_reward.0, reward: era_reward.1 }
    }
}

/// A validator's payout in an era.
#[derive(Clone, Copy, Debug, Default)]
pub struct EraValidatorPayoutReport {
    pub era: Era,
    pub payout: Balance,
}

impl EraValidatorPayoutReport {
    /// The report of an era and a payout.
    pub fn from(era_payout: &(Era, Balance)) -> (r: EraValidatorPayoutReport)
        ensures
            r.era == era_payout.0,
            r.payout == era_payout.1,
    {
        EraValidatorPayoutReport { era: era_payout.0, payout: era_payout.1 }
    }
}

/// A validator's total reward.
#[derive(Clone, Copy, Debug, Default)]
pub struct ValidatorTotalReward {
    pub validator_account_id: AccountId,
    pub total_reward: Balance,
}

/// A controller account and its address.
#[derive(Clone, Debug, Default)]
pub struct Controller {
    pub controller_account_id: AccountId,
    pub controller_address: String,
}

/// A reward paid to an account.
#[derive(Clone, Debug)]
pub struct Reward {
    pub id: u32,
    pub block_hash: String,
    pub block_number: u64,
    pub block_timestamp: u64,
    pub extrinsic_index: u32,
    pub event_index: u32,
    pub rewardee_account_id: AccountId,
    pub amount: Balance,
}

/// A validator's summary at a finalized block.
#[derive(Debug, Default)]
pub struct ValidatorSummaryReport {
    pub finalized_block: BlockSummary,
    pub validator_summary: ValidatorSummary,
}

/// A validator's details at a finalized block.
#[derive(Debug, Default)]
pub struct ValidatorDetailsReport {
    pub finalized_block: BlockSummary,
    pub validator_details: ValidatorDetails,
}

/// The validators' summaries at a finalized block.
#[derive(Debug, Default)]
pub struct ValidatorListReport {
    pub finalized_block: BlockSummary,
    pub validators: Vec<ValidatorSummary>,
}

/// The total rewards of validators over a period, with their accounts.
#[derive(Debug, Default)]
pub struct ValidatorTotalRewardChartData {
    pub accounts: Vec<Account>,
    pub rewards: Vec<ValidatorTotalReward>,
    pub start_timestamp: u64,
    pub end_timestamp: u64,
}

/// A bond: its controller and the stake it holds.
#[derive(Debug, Default)]
pub struct Bond {
    pub controller_account_id: AccountId,
    pub controller_address: String,
    pub bond: Stake,
}

} // verus!
