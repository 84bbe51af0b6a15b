//! Telegram bot types: chat states and the validator summary that a chat shows.
use crate::crypto::AccountId;
use crate::numeric::{format_decimal, format_decimal_spec};
use crate::staking::sum_active_amounts;
use crate::strings::{copy_str, str_equals};
use crate::substrate::{account_full_display, Account};
use crate::subvt::{active_ids, inactive_of, sum_total_amounts, ValidatorDetails, ValidatorNominationSummary};
use crate::text::{can_condense, condensed};
use vstd::prelude::*;

verus! {

/// What a chat waits for.
#[derive(Clone, Copy, Debug, Eq, PartialEq)]
pub enum TelegramChatState {
    Default,
    AddValidator,
    EnterBugReport,
    EnterFeatureRequest,
}

/// The chat state named `s`.
pub open spec fn chat_state_of(s: Seq<char>) -> Option<TelegramChatState> {
    if s == "Default"@ {
        Some(TelegramChatState::Default)
    } else if s == "AddValidator"@ {
        Some(TelegramChatState::AddValidator)
    } else if s == "EnterBugReport"@ {
        Some(TelegramChatState::EnterBugReport)
    } else if s == "EnterFeatureRequest"@ {
        Some(TelegramChatState::EnterFeatureRequest)
    } else {
        None
    }
}

/// The name of a chat state.
pub open spec fn chat_state_name(s: TelegramChatState) -> Seq<char> {
    match s {
        TelegramChatState::Default => "Default"@,
        TelegramChatState::AddValidator => "AddValidator"@,
        TelegramChatState::EnterBugReport => "EnterBugReport"@,
        TelegramChatState::EnterFeatureRequest => "EnterFeatureRequest"@,
    }
}

impl TelegramChatState {
    /// The chat state of its name.
    pub fn from_str(state: &str) -> (r: TelegramChatState)
        requires
            chat_state_of(state@) is Some,
        ensures
            r == chat_state_of(state@).unwrap(),
    {
        if str_equals(state, "Default") {
            TelegramChatState::Default
        } else if str_equals(state, "AddValidator") {
            TelegramChatState::AddValidator
        } else if str_equals(state, "EnterBugReport") {
            TelegramChatState::EnterBugReport
        } else {
            TelegramChatState::EnterFeatureRequest
        }
    }

    /// The name of the chat state.
    pub fn to_string(&self) -> (s: String)
        ensures
            s@ == chat_state_name(*self),
    {
        match self {
            TelegramChatState::Default => copy_str("Default"),
            TelegramChatState::AddValidator => copy_str("AddValidator"),
            TelegramChatState::EnterBugReport => copy_str("EnterBugReport"),
            TelegramChatState::EnterFeatureRequest => copy_str("EnterFeatureRequest"),
        }
    }
}

/// A validator that a chat follows.
#[derive(Clone, Debug)]
pub struct TelegramChatValidator {
    pub id: u64,
    pub account_id: AccountId,
    pub address: String,
    pub display: Option<String>,
}

/// A validator as a chat shows it: amounts formatted for reading.
#[derive(Debug)]
pub struct TelegramChatValidatorSummary {
    pub display: String,
    pub address: String,
    pub is_active: bool,
    pub is_active_next_session: bool,
    pub is_para_validator: bool,
    pub is_valid_onekv: Option<bool>,
    pub self_stake_formatted: String,
    pub inactive_nomination_formatted: String,
    pub inactive_nominator_count: usize,
    pub active_nomination_formatted: String,
    pub active_nominator_count: usize,
    pub heartbeat_received: bool,
    pub missing_referendum_votes: Vec<u32>,
}

/// What a validator's nominations sum to in a nomination summary.
pub open spec fn nomination_totals(v: ValidatorDetails) -> (nat, nat, nat, nat) {
    match v.validator_stake {
        Some(s) => (
            s.nominators.len() as nat,
            s.total_stake as nat,
            inactive_of(v.nominations@, active_ids(v.validator_stake)).len(),
            sum_active_amounts(inactive_of(v.nominations@, active_ids(v.validator_stake))),
        ),
        None => (0, 0, v.nominations.len() as nat, sum_total_amounts(v.nominations@)),
    }
}

impl TelegramChatValidatorSummary {
    /// The chat summary of a validator: its display (or condensed address), its flags, and
    /// its self stake and its active and inactive nominations formatted with
    /// `token_format_decimal_points` of the token's `token_decimals` decimal places.
    pub fn from(validator_details: &ValidatorDetails, token_decimals: usize, token_format_decimal_points: usize) -> (s: TelegramChatValidatorSummary)
        requires
            token_decimals < usize::MAX,
            token_format_decimal_points <= token_decimals,
            validator_details.validator_stake is Some ==> sum_active_amounts(
                inactive_of(validator_details.nominations@, active_ids(validator_details.validator_stake)),
            ) <= u128::MAX,
            validator_details.validator_stake is None ==> sum_total_amounts(validator_details.nominations@)
                <= u128::MAX,
            account_full_display(validator_details.account) is None ==> can_condense(
                validator_details.account.address@,
                5,
                5,
            ),
        ensures
            s.display@ == match account_full_display(validator_details.account) {
                Some(d) => d,
                None => condensed(validator_details.account.address@, 5, 5),
            },
            s.address == validator_details.account.address,
            s.is_active == validator_details.is_active,
            s.is_active_next_session == validator_details.is_active_next_session,
            s.is_para_validator == validator_details.is_para_validator,
            s.is_valid_onekv == validator_details.onekv_is_valid,
            s.self_stake_formatted@ == format_decimal_spec(
                validator_details.self_stake.active_amount as nat,
                token_decimals as nat,
                token_format_decimal_points as nat,
            ),
            s.active_nomination_formatted@ == format_decimal_spec(
                nomination_totals(*validator_details).1,
                token_decimals as nat,
                token_format_decimal_points as nat,
            ),
            s.inactive_nomination_formatted@ == format_decimal_spec(
                nomination_totals(*validator_details).3,
                token_decimals as nat,
                token_format_decimal_points as nat,
            ),
            s.active_nominator_count == nomination_totals(*validator_details).0,
            s.inactive_nominator_count == nomination_totals(*validator_details).2,
            s.heartbeat_received == (validator_details.heartbeat_received == Some(true)),
            s.missing_referendum_votes@.len() == 0,
    {
        let self_stake_formatted = format_decimal(
            validator_details.self_stake.active_amount,
            token_decimals,
            token_format_decimal_points,
        );
        let nomination_summary = ValidatorNominationSummary::from(validator_details);
        let active_nomination_formatted = format_decimal(
            nomination_summary.active_nomination_total,
            token_decimals,
            token_format_decimal_points,
        );
        let inactive_nomination_formatted = format_decimal(
            nomination_summary.inactive_nomination_total,
            token_decimals,
            token_format_decimal_points,
        );
        let display = validator_details.account.get_display_or_condensed_address(None);
        let heartbeat_received = match validator_details.heartbeat_received {
            Some(b) => b,
            None => false,
        };
        TelegramChatValidatorSummary {
            display,
            address: validator_details.account.address.clone(),
            is_active: validator_details.is_active,
            is_active_next_session: validator_details.is_active_next_session,
            is_para_validator: validator_details.is_para_validator,
            is_valid_onekv: validator_details.onekv_is_valid,
            self_stake_formatted,
            inactive_nomination_formatted,
            inactive_nominator_count: nomination_summary.inactive_nominator_count,
            active_nomination_formatted,
            active_nominator_count: nomination_summary.active_nominator_count,
            heartbeat_received,
            missing_referendum_votes: Vec::new(),
        }
    }
}

/// A validator of the Thousand Validators bot and the chats that follow it.
#[derive(Clone, Debug)]
pub struct OneKVBotValidator {
    pub stash_address: String,
    pub name: String,
    pub chat_ids: Vec<i64>,
}

} // verus!
