//! Types of the application logic: blocks, networks, users and their validators, the
//! extrinsics and events that the application stores, and their conversion from the rows
//! of the relational database.
use crate::crypto::{account_text_accepted, account_text_may_read, account_text_reading, text_reads_as, AccountId};
use crate::error::DecodeError;
use crate::service::NotificationChannel;
use crate::strings::copy_str;
use crate::referendum_events::VoteThreshold;
use crate::substrate::Balance;
use vstd::prelude::*;

verus! {

/// A block as the application stores it.
#[derive(Clone, Debug)]
pub struct Block {
    pub hash: String,
    pub number: u64,
    pub timestamp: Option<u64>,
    pub author_account_id: Option<AccountId>,
    pub era_index: u64,
    pub epoch_index: u64,
    pub is_finalized: bool,
    pub metadata_version: u16,
    pub runtime_version: u16,
}

/// A network and the hosts and ports of its services.
#[derive(Clone, Debug, Default)]
pub struct Network {
    pub id: u32,
    pub hash: String,
    pub chain: String,
    pub display: String,
    pub ss58_prefix: u32,
    pub token_ticker: String,
    pub token_decimal_count: u8,
    pub network_status_service_host: Option<String>,
    pub network_status_service_port: Option<u16>,
    pub report_service_host: Option<String>,
    pub report_service_port: Option<u16>,
    pub validator_details_service_host: Option<String>,
    pub validator_details_service_port: Option<u16>,
    pub active_validator_list_service_host: Option<String>,
    pub active_validator_list_service_port: Option<u16>,
    pub inactive_validator_list_service_host: Option<String>,
    pub inactive_validator_list_service_port: Option<u16>,
}

/// The id that a record has before it is stored.
pub fn default_id() -> (id: u32)
    ensures
        id == 0,
{
    0
}

/// A user of the application.
#[derive(Clone, Debug, Default)]
pub struct User {
    pub id: u32,
    pub public_key_hex: Option<String>,
}

/// A validator that a user follows on a network.
#[derive(Clone, Debug, Default)]
pub struct UserValidator {
    pub id: u32,
    pub user_id: u32,
    pub network_id: u32,
    pub validator_account_id: AccountId,
}

/// A `validate` extrinsic as the application stores it.
#[derive(Clone, Debug)]
pub struct ValidateExtrinsic {
    pub id: u32,
    pub block_hash: String,
    pub extrinsic_index: u32,
    pub is_nested_call: bool,
    pub batch_index: Option<String>,
    pub stash_account_id: AccountId,
    pub controller_account_id: AccountId,
    pub commission_per_billion: u64,
    pub blocks_nominations: bool,
    pub is_successful: bool,
}

/// A `set_controller` extrinsic as the application stores it.
#[derive(Clone, Debug)]
pub struct SetControllerExtrinsic {
    pub id: u32,
    pub block_hash: String,
    pub extrinsic_index: u32,
    pub is_nested_call: bool,
    pub batch_index: Option<String>,
    pub caller_account_id: AccountId,
    pub controller_account_id: AccountId,
    pub is_successful: bool,
}

/// A `payout_stakers` extrinsic as the application stores it.
#[derive(Clone, Debug)]
pub struct PayoutStakersExtrinsic {
    pub id: u32,
    pub block_hash: String,
    pub extrinsic_index: u32,
    pub is_nested_call: bool,
    pub batch_index: Option<String>,
    pub caller_account_id: AccountId,
    pub validator_account_id: AccountId,
    pub era_index: u32,
    pub is_successful: bool,
}

/// A block row: hash, number, timestamp, author hex, era, epoch, finality, metadata and
/// runtime versions.
pub type PostgresBlock = (String, i64, Option<i64>, Option<String>, i64, i64, bool, i16, i16);

/// A `validate` extrinsic row.
pub type PostgresValidateExtrinsic = (i32, String, i32, bool, String, String, i64, bool, bool);

/// A `set_controller` extrinsic row.
pub type PostgresSetControllerExtrinsic = (i32, String, i32, bool, String, String, bool);

/// A `payout_stakers` extrinsic row.
pub type PostgresPayoutStakersExtrinsic = (i32, String, i32, bool, String, String, i64, bool);

/// A user validator row.
pub type PostgresUserValidator = (i32, i32, i32, String);

impl UserValidator {
    /// The user validator of a database row: its id, the user's id, the network's id and the
    /// validator's account, read from its address or hex. Where the account does not read,
    /// the error of that reading comes back in place of a validator.
    pub fn from(db_user_validator: PostgresUserValidator) -> (r: Result<UserValidator, DecodeError>)
        ensures
            account_text_accepted(db_user_validator.3@) ==> r is Ok,
            !account_text_may_read(db_user_validator.3@) ==> r is Err,
            r matches Ok(v) ==> {
                &&& text_reads_as(db_user_validator.3@, v.validator_account_id.0@)
                &&& (account_text_reading(db_user_validator.3@) matches Some(a) ==> v.validator_account_id.0@ == a)
                &&& v.id == db_user_validator.0 as u32
                &&& v.user_id == db_user_validator.1 as u32
                &&& v.network_id == db_user_validator.2 as u32
            },
    {
        let account_id = AccountId::from_str(db_user_validator.3.as_str())?;
        Ok(
            UserValidator {
                id: db_user_validator.0 as u32,
                user_id: db_user_validator.1 as u32,
                network_id: db_user_validator.2 as u32,
                validator_account_id: account_id,
            },
        )
    }
}

impl Block {
    /// The block of a database row; the author, where there is one, is read from its
    /// address or hex.
    pub fn from(db_block: PostgresBlock) -> (r: Result<Block, DecodeError>)
        ensures
            (db_block.3 matches Some(h) ==> account_text_accepted(h@)) ==> r is Ok,
            (db_block.3 matches Some(h) && !account_text_may_read(h@)) ==> r is Err,
            r matches Ok(b) ==> {
                &&& (db_block.3 matches Some(h) ==> (b.author_account_id matches Some(a)
                    && text_reads_as(h@, a.0@)))
                &&& (db_block.3 matches Some(h) ==> (account_text_reading(h@) matches Some(c)
                    ==> (b.author_account_id matches Some(a) && a.0@ == c)))
                &&& b.hash == db_block.0
                &&& b.number == db_block.1 as u64
                &&& b.timestamp == (match db_block.2 {
                    Some(t) => Some(t as u64),
                    None => None,
                })
                &&& (b.author_account_id is Some <==> db_block.3 is Some)
                &&& b.era_index == db_block.4 as u64
                &&& b.epoch_index == db_block.5 as u64
                &&& b.is_finalized == db_block.6
                &&& b.metadata_version == db_block.7 as u16
                &&& b.runtime_version == db_block.8 as u16
            },
    {
        let author_account_id = match &db_block.3 {
            Some(hex_string) => Some(AccountId::from_str(hex_string.as_str())?),
            None => None,
        };
        let timestamp = match db_block.2 {
            Some(t) => Some(t as u64),
            None => None,
        };
        Ok(
            Block {
                hash: db_block.0,
                number: db_block.1 as u64,
                timestamp,
                author_account_id,
                era_index: db_block.4 as u64,
                epoch_index: db_block.5 as u64,
                is_finalized: db_block.6,
                metadata_version: db_block.7 as u16,
                runtime_version: db_block.8 as u16,
            },
        )
    }
}

impl ValidateExtrinsic {
    /// The extrinsic of a database row; the accounts are read from their addresses or hex.
    pub fn from(db_extrinsic: PostgresValidateExtrinsic) -> (r: Result<ValidateExtrinsic, DecodeError>)
        ensures
            (account_text_accepted(db_extrinsic.4@) && account_text_accepted(db_extrinsic.5@)) ==> r is Ok,
            (!account_text_may_read(db_extrinsic.4@) || !account_text_may_read(db_extrinsic.5@))
                ==> r is Err,
            r matches Ok(x) ==> {
                &&& text_reads_as(db_extrinsic.4@, x.stash_account_id.0@)
                &&& text_reads_as(db_extrinsic.5@, x.controller_account_id.0@)
                &&& (account_text_reading(db_extrinsic.4@) matches Some(a) ==> x.stash_account_id.0@ == a)
                &&& (account_text_reading(db_extrinsic.5@) matches Some(a) ==> x.controller_account_id.0@ == a)
                &&& x.id == db_extrinsic.0 as u32
                &&& x.block_hash == db_extrinsic.1
                &&& x.extrinsic_index == db_extrinsic.2 as u32
                &&& x.is_nested_call == db_extrinsic.3
                &&& x.batch_index is None
                &&& x.commission_per_billion == db_extrinsic.6 as u64
                &&& x.blocks_nominations == db_extrinsic.7
                &&& x.is_successful == db_extrinsic.8
            },
    {
        let stash = AccountId::from_str(db_extrinsic.4.as_str())?;
        let controller = AccountId::from_str(db_extrinsic.5.as_str())?;
        Ok(
            ValidateExtrinsic {
                id: db_extrinsic.0 as u32,
                block_hash: db_extrinsic.1,
                extrinsic_index: db_extrinsic.2 as u32,
                is_nested_call: db_extrinsic.3,
                batch_index: None,
                stash_account_id: stash,
                controller_account_id: controller,
                commission_per_billion: db_extrinsic.6 as u64,
                blocks_nominations: db_extrinsic.7,
                is_successful: db_extrinsic.8,
            },
        )
    }
}

impl SetControllerExtrinsic {
    /// The extrinsic of a database row; the accounts are read from their addresses or hex.
    pub fn from(db_extrinsic: PostgresSetControllerExtrinsic) -> (r: Result<SetControllerExtrinsic, DecodeError>)
        ensures
            (account_text_accepted(db_extrinsic.4@) && account_text_accepted(db_extrinsic.5@)) ==> r is Ok,
            (!account_text_may_read(db_extrinsic.4@) || !account_text_may_read(db_extrinsic.5@))
                ==> r is Err,
            r matches Ok(x) ==> {
                &&& text_reads_as(db_extrinsic.4@, x.caller_account_id.0@)
                &&& text_reads_as(db_extrinsic.5@, x.controller_account_id.0@)
                &&& (account_text_reading(db_extrinsic.4@) matches Some(a) ==> x.caller_account_id.0@ == a)
                &&& (account_text_reading(db_extrinsic.5@) matches Some(a) ==> x.controller_account_id.0@ == a)
                &&& x.id == db_extrinsic.0 as u32
                &&& x.block_hash == db_extrinsic.1
                &&& x.extrinsic_index == db_extrinsic.2 as u32
                &&& x.is_nested_call == db_extrinsic.3
                &&& x.batch_index is None
                &&& x.is_successful == db_extrinsic.6
            },
    {
        let caller = AccountId::from_str(db_extrinsic.4.as_str())?;
        let controller = AccountId::from_str(db_extrinsic.5.as_str())?;
        Ok(
            SetControllerExtrinsic {
                id: db_extrinsic.0 as u32,
                block_hash: db_extrinsic.1,
                extrinsic_index: db_extrinsic.2 as u32,
                is_nested_call: db_extrinsic.3,
                batch_index: None,
                caller_account_id: caller,
                controller_account_id: controller,
                is_successful: db_extrinsic.6,
            },
        )
    }
}

impl PayoutStakersExtrinsic {
    /// The extrinsic of a database row; the accounts are read from their addresses or hex.
    pub fn from(db_extrinsic: PostgresPayoutStakersExtrinsic) -> (r: Result<PayoutStakersExtrinsic, DecodeError>)
        ensures
            (account_text_accepted(db_extrinsic.4@) && account_text_accepted(db_extrinsic.5@)) ==> r is Ok,
            (!account_text_may_read(db_extrinsic.4@) || !account_text_may_read(db_extrinsic.5@))
                ==> r is Err,
            r matches Ok(x) ==> {
                &&& text_reads_as(db_extrinsic.4@, x.caller_account_id.0@)
                &&& text_reads_as(db_extrinsic.5@, x.validator_account_id.0@)
                &&& (account_text_reading(db_extrinsic.4@) matches Some(a) ==> x.caller_account_id.0@ == a)
                &&& (account_text_reading(db_extrinsic.5@) matches Some(a) ==> x.validator_account_id.0@ == a)
                &&& x.id == db_extrinsic.0 as u32
                &&& x.block_hash == db_extrinsic.1
                &&& x.extrinsic_index == db_extrinsic.2 as u32
                &&& x.is_nested_call == db_extrinsic.3
                &&& x.batch_index is None
                &&& x.era_index == db_extrinsic.6 as u32
                &&& x.is_successful == db_extrinsic.7
            },
    {
        let caller = AccountId::from_str(db_extrinsic.4.as_str())?;
        let validator = AccountId::from_str(db_extrinsic.5.as_str())?;
        Ok(
            PayoutStakersExtrinsic {
                id: db_extrinsic.0 as u32,
                block_hash: db_extrinsic.1,
                extrinsic_index: db_extrinsic.2 as u32,
                is_nested_call: db_extrinsic.3,
                batch_index: None,
                caller_account_id: caller,
                validator_account_id: validator,
                era_index: db_extrinsic.6 as u32,
                is_successful: db_extrinsic.7,
            },
        )
    }
}

/// A notification to a user, as the application stores it. Its period type is the name that
/// the database stores; the channel is named by its code; the times of its life are unset until
/// it is processed.
#[derive(Clone, Debug)]
pub struct Notification {
    pub id: u32,
    pub user_id: u32,
    pub user_notification_rule_id: u32,
    pub network_id: u32,
    pub period_type: String,
    pub period: u16,
    pub validator_account_id: Option<AccountId>,
    pub validator_account_json: Option<String>,
    pub notification_type_code: String,
    pub user_notification_channel_id: u32,
    pub notification_channel: NotificationChannel,
    pub notification_target: String,
    pub data_json: Option<String>,
    pub log: Option<String>,
    pub created_at: Option<u64>,
    pub sent_at: Option<u64>,
    pub delivered_at: Option<u64>,
    pub read_at: Option<u64>,
}

/// A notification row: id, user, rule, network, period type and period, validator account
/// and its JSON, notification type code, user channel, channel code, target, data and log.
pub type PostgresNotification = (
    i32,
    i32,
    i32,
    i32,
    String,
    i32,
    Option<String>,
    Option<String>,
    String,
    i32,
    String,
    String,
    Option<String>,
    Option<String>,
);

impl Notification {
    /// The notification of a database row; the validator account, where there is one, is read
    /// from its address or hex, and the channel is named by the row's channel code.
    pub fn from(db_notification: PostgresNotification) -> (r: Result<Notification, DecodeError>)
        ensures
            (db_notification.6 matches Some(t) ==> account_text_accepted(t@)) ==> r is Ok,
            (db_notification.6 matches Some(t) && !account_text_may_read(t@)) ==> r is Err,
            r matches Ok(n) ==> {
                &&& (n.validator_account_id is Some <==> db_notification.6 is Some)
                &&& (db_notification.6 matches Some(t) ==> (n.validator_account_id matches Some(a)
                    && text_reads_as(t@, a.0@)))
                &&& (db_notification.6 matches Some(t) ==> (account_text_reading(t@) matches Some(c)
                    ==> (n.validator_account_id matches Some(a) && a.0@ == c)))
                &&& n.id == db_notification.0 as u32
                &&& n.user_id == db_notification.1 as u32
                &&& n.user_notification_rule_id == db_notification.2 as u32
                &&& n.network_id == db_notification.3 as u32
                &&& n.period_type == db_notification.4
                &&& n.period == db_notification.5 as u16
                &&& n.validator_account_json == db_notification.7
                &&& n.notification_type_code == db_notification.8
                &&& n.user_notification_channel_id == db_notification.9 as u32
                &&& n.notification_channel.name@ == db_notification.10@
                &&& n.notification_target == db_notification.11
                &&& n.data_json == db_notification.12
                &&& n.log == db_notification.13
                &&& n.created_at is None && n.sent_at is None
                &&& n.delivered_at is None && n.read_at is None
            },
    {
        let validator_account_id = match &db_notification.6 {
            Some(text) => Some(AccountId::from_str(text.as_str())?),
            None => None,
        };
        let channel = NotificationChannel { name: copy_str(db_notification.10.as_str()) };
        Ok(
            Notification {
                id: db_notification.0 as u32,
                user_id: db_notification.1 as u32,
                user_notification_rule_id: db_notification.2 as u32,
                network_id: db_notification.3 as u32,
                period_type: db_notification.4,
                period: db_notification.5 as u16,
                validator_account_id,
                validator_account_json: db_notification.7,
                notification_type_code: db_notification.8,
                user_notification_channel_id: db_notification.9 as u32,
                notification_channel: channel,
                notification_target: db_notification.11,
                data_json: db_notification.12,
                log: db_notification.13,
                created_at: None,
                sent_at: None,
                delivered_at: None,
                read_at: None,
            },
        )
    }
}

// ---------------------------------------------------------------------------
// Stored events.
// ---------------------------------------------------------------------------

/// A validator found offline.
#[derive(Clone, Debug)]
pub struct ValidatorOfflineEvent {
    pub id: u32,
    pub block_hash: String,
    pub event_index: Option<u32>,
    pub validator_account_id: AccountId,
}

/// A stash that chilled.
#[derive(Clone, Debug)]
pub struct ChilledEvent {
    pub id: u32,
    pub block_hash: String,
    pub extrinsic_index: Option<u32>,
    pub event_index: u32,
    pub stash_account_id: AccountId,
}

/// A cancelled democracy referendum.
#[derive(Clone, Debug)]
pub struct DemocracyCancelledEvent {
    pub id: u32,
    pub block_hash: String,
    pub extrinsic_index: Option<u32>,
    pub event_index: u32,
    pub referendum_index: u64,
}

/// A democracy vote delegation.
#[derive(Clone, Debug)]
pub struct DemocracyDelegatedEvent {
    pub id: u32,
    pub block_hash: String,
    pub extrinsic_index: Option<u32>,
    pub event_index: u32,
    pub original_account_id: AccountId,
    pub delegate_account_id: AccountId,
}

/// A democracy referendum that did not pass.
#[derive(Clone, Debug)]
pub struct DemocracyNotPassedEvent {
    pub id: u32,
    pub block_hash: String,
    pub extrinsic_index: Option<u32>,
    pub event_index: u32,
    pub referendum_index: u64,
}

/// A democracy referendum that passed.
#[derive(Clone, Debug)]
pub struct DemocracyPassedEvent {
    pub id: u32,
    pub block_hash: String,
    pub extrinsic_index: Option<u32>,
    pub event_index: u32,
    pub referendum_index: u64,
}

/// A seconded democracy proposal.
#[derive(Clone, Debug)]
pub struct DemocracySecondedEvent {
    pub id: u32,
    pub block_hash: String,
    pub extrinsic_index: Option<u32>,
    pub event_index: u32,
    pub account_id: AccountId,
    pub proposal_index: u64,
}

/// A withdrawn democracy delegation.
#[derive(Clone, Debug)]
pub struct DemocracyUndelegatedEvent {
    pub id: u32,
    pub block_hash: String,
    pub extrinsic_index: Option<u32>,
    pub event_index: u32,
    pub account_id: AccountId,
}

/// A proposed democracy referendum and its deposit.
#[derive(Clone, Debug)]
pub struct DemocracyProposedEvent {
    pub id: u32,
    pub block_hash: String,
    pub extrinsic_index: Option<u32>,
    pub event_index: u32,
    pub proposal_index: u64,
    pub deposit: Balance,
}

/// A started democracy referendum and the majority it needs.
#[derive(Clone, Debug)]
pub struct DemocracyStartedEvent {
    pub id: u32,
    pub block_hash: String,
    pub extrinsic_index: Option<u32>,
    pub event_index: u32,
    pub referendum_index: u64,
    pub vote_threshold: VoteThreshold,
}

/// A vote on a democracy referendum: the balances for and against, and the conviction.
#[derive(Clone, Debug)]
pub struct DemocracyVotedEvent {
    pub id: u32,
    pub block_hash: String,
    pub extrinsic_index: Option<u32>,
    pub event_index: u32,
    pub account_id: AccountId,
    pub referendum_index: u64,
    pub aye_balance: Option<Balance>,
    pub nay_balance: Option<Balance>,
    pub conviction: Option<u8>,
}

/// An approved referendum.
#[derive(Clone, Debug)]
pub struct ReferendumApprovedEvent {
    pub id: u32,
    pub block_hash: String,
    pub extrinsic_index: Option<u32>,
    pub event_index: u32,
    pub referendum_index: u32,
}

/// A cancelled referendum and its tally.
#[derive(Clone, Debug)]
pub struct ReferendumCancelledEvent {
    pub id: u32,
    pub block_hash: String,
    pub extrinsic_index: Option<u32>,
    pub event_index: u32,
    pub referendum_index: u32,
    pub ayes: Balance,
    pub nays: Balance,
    pub support: Balance,
}

/// A confirmed referendum and its tally.
#[derive(Clone, Debug)]
pub struct ReferendumConfirmedEvent {
    pub id: u32,
    pub block_hash: String,
    pub extrinsic_index: Option<u32>,
    pub event_index: u32,
    pub referendum_index: u32,
    pub ayes: Balance,
    pub nays: Balance,
    pub support: Balance,
}

/// A killed referendum and its tally.
#[derive(Clone, Debug)]
pub struct ReferendumKilledEvent {
    pub id: u32,
    pub block_hash: String,
    pub extrinsic_index: Option<u32>,
    pub event_index: u32,
    pub referendum_index: u32,
    pub ayes: Balance,
    pub nays: Balance,
    pub support: Balance,
}

/// A rejected referendum and its tally.
#[derive(Clone, Debug)]
pub struct ReferendumRejectedEvent {
    pub id: u32,
    pub block_hash: String,
    pub extrinsic_index: Option<u32>,
    pub event_index: u32,
    pub referendum_index: u32,
    pub ayes: Balance,
    pub nays: Balance,
    pub support: Balance,
}

/// A referendum that timed out, and its tally.
#[derive(Clone, Debug)]
pub struct ReferendumTimedOutEvent {
    pub id: u32,
    pub block_hash: String,
    pub extrinsic_index: Option<u32>,
    pub event_index: u32,
    pub referendum_index: u32,
    pub ayes: Balance,
    pub nays: Balance,
    pub support: Balance,
}

/// A referendum whose decision started, its track and its tally.
#[derive(Clone, Debug)]
pub struct ReferendumDecisionStartedEvent {
    pub id: u32,
    pub block_hash: String,
    pub extrinsic_index: Option<u32>,
    pub event_index: u32,
    pub referendum_index: u32,
    pub track_id: u16,
    pub ayes: Balance,
    pub nays: Balance,
    pub support: Balance,
}

/// A submitted referendum and its track.
#[derive(Clone, Debug)]
pub struct ReferendumSubmittedEvent {
    pub id: u32,
    pub block_hash: String,
    pub extrinsic_index: Option<u32>,
    pub event_index: u32,
    pub referendum_index: u32,
    pub track_id: u16,
}

/// A change of a validator's binary version in the Thousand Validators programme.
#[derive(Clone, Debug)]
pub struct OneKVBinaryVersionChange {
    pub validator_account_id: AccountId,
    pub prev_version: Option<String>,
    pub current_version: Option<String>,
}

/// A change of a validator's rank in the Thousand Validators programme.
#[derive(Clone, Debug)]
pub struct OneKVRankChange {
    pub validator_account_id: AccountId,
    pub prev_rank: Option<u64>,
    pub current_rank: Option<u64>,
}

/// A change of a validator's location in the Thousand Validators programme.
#[derive(Clone, Debug)]
pub struct OneKVLocationChange {
    pub validator_account_id: AccountId,
    pub prev_location: Option<String>,
    pub current_location: Option<String>,
}

/// A change of a validator's online status in the Thousand Validators programme.
#[derive(Clone, Debug)]
pub struct OneKVOnlineStatusChange {
    pub validator_account_id: AccountId,
    pub online_since: u64,
    pub offline_since: u64,
}

/// A change of a validator's commission.
#[derive(Clone, Debug)]
pub struct CommissionChange {
    pub validator_account_id: AccountId,
    pub previous_commission_per_billion: u32,
    pub current_commission_per_billion: u32,
}

/// A new nomination of a validator.
#[derive(Clone, Debug)]
pub struct NewNomination {
    pub validator_account_id: AccountId,
    pub discovered_block_number: u64,
    pub nominator_stash_account_id: AccountId,
    pub active_amount: Balance,
    pub total_amount: Balance,
    pub nominee_count: u64,
    pub is_onekv: bool,
}

/// A nomination of a validator that is gone.
#[derive(Clone, Debug)]
pub struct LostNomination {
    pub validator_account_id: AccountId,
    pub discovered_block_number: u64,
    pub nominator_stash_account_id: AccountId,
    pub active_amount: Balance,
    pub total_amount: Balance,
    pub nominee_count: u64,
    pub is_onekv: bool,
}

/// A change of the amount of a nomination of a validator.
#[derive(Clone, Debug)]
pub struct NominationAmountChange {
    pub validator_account_id: AccountId,
    pub discovered_block_number: u64,
    pub nominator_stash_account_id: AccountId,
    pub prev_active_amount: Balance,
    pub prev_total_amount: Balance,
    pub prev_nominee_count: u64,
    pub active_amount: Balance,
    pub total_amount: Balance,
    pub nominee_count: u64,
    pub is_onekv: bool,
}

} // verus!
