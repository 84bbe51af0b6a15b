//! Runtime events: the reading of the fields of the events that SubVT follows, and the
//! walk over a block's event record that the runtime metadata drives.
use crate::codec::{
    codec_byte_vec, codec_bytes16, codec_bytes32, codec_u128, codec_u32, codec_u8, compact_spec,
    le_at, rest,
};
use crate::crypto::{hex_encode_upper, hex_upper, AccountId};
use crate::error::DecodeError;
use crate::field::{decode_field, field_walk, find_variant, find_variant_exec, lemma_find_variant, Walk};
use crate::metadata::{
    find_pallet_with_index, get_metadata_type, ids_in, pallet_with_index, variants_in, wf_types,
    PalletInfo, RuntimeMetadata, TypeDefinition, TypeInfo, VariantInfo,
};
use crate::strings::{copy_str, push_str, str_equals};
use crate::staking::{
    compact_at, exposure_entries_ok, exposure_entry_pos, lemma_entries_fail, read_compact_u128,
    read_compact_u32_at,
};
use crate::dispatch_events::{
    multisig_event_spec, proxy_event_spec, system_event_spec, system_extrinsic_index,
    utility_event_spec, utility_extrinsic_index, MultisigEvent, ProxyEvent, SystemEvent,
    UtilityEvent,
};
use crate::referendum_events::{
    democracy_event_spec, democracy_extrinsic_index, referenda_event_is, referenda_extrinsic_index,
    referenda_fields_ok, DemocracyEvent, ReferendaEvent,
};
use crate::substrate::Balance;
use vstd::prelude::*;
use vstd::string::*;

verus! {

// ---------------------------------------------------------------------------
// Reading fields.
// ---------------------------------------------------------------------------

/// The account whose 32 bytes start at `pos` in `b`.
pub open spec fn acct(b: Seq<u8>, pos: int) -> AccountId {
    AccountId(choose|a: [u8; 32]| a@ == b.subrange(pos, pos + 32))
}

/// The 16-byte little-endian balance at `pos` in `b`.
pub open spec fn bal(b: Seq<u8>, pos: int) -> Balance {
    le_at(b, pos, 16) as u128
}

/// The 4-byte little-endian number at `pos` in `b`.
pub open spec fn word(b: Seq<u8>, pos: int) -> u32 {
    le_at(b, pos, 4) as u32
}

/// Reads the account at `pos`.
pub fn read_account(bytes: &[u8], pos: usize) -> (r: Result<AccountId, DecodeError>)
    requires
        pos <= bytes.len(),
    ensures
        r is Ok <==> pos + 32 <= bytes.len(),
        r matches Ok(a) ==> a == acct(bytes@, pos as int),
{
    match codec_bytes32(bytes, pos) {
        Ok(a) => {
            proof {
                let c = choose|x: [u8; 32]| x@ == bytes@.subrange(pos as int, pos + 32);
                assert(a@ == bytes@.subrange(pos as int, pos + 32));
                assert(c@ == a@);
                assert(c =~= a);
            }
            Ok(AccountId(a))
        },
        Err(e) => Err(DecodeError::Error(e)),
    }
}

/// Reads the balance at `pos`.
pub fn read_balance(bytes: &[u8], pos: usize) -> (r: Result<Balance, DecodeError>)
    requires
        pos <= bytes.len(),
    ensures
        r is Ok <==> pos + 16 <= bytes.len(),
        r matches Ok(v) ==> v == bal(bytes@, pos as int),
{
    match codec_u128(bytes, pos) {
        Ok(v) => Ok(v),
        Err(e) => Err(DecodeError::Error(e)),
    }
}

/// Reads the 4-byte number at `pos`.
pub fn read_word(bytes: &[u8], pos: usize) -> (r: Result<u32, DecodeError>)
    requires
        pos <= bytes.len(),
    ensures
        r is Ok <==> pos + 4 <= bytes.len(),
        r matches Ok(v) ==> v == word(bytes@, pos as int),
{
    match codec_u32(bytes, pos) {
        Ok(v) => Ok(v),
        Err(e) => Err(DecodeError::Error(e)),
    }
}

// ---------------------------------------------------------------------------
// Staking events.
// ---------------------------------------------------------------------------

/// The staking events that SubVT follows.
#[derive(Clone, Debug, PartialEq, Eq)]
pub enum StakingEvent {
    Bonded { extrinsic_index: Option<u32>, account_id: AccountId, balance: Balance },
    Chilled { extrinsic_index: Option<u32>, stash_account_id: AccountId },
    EraPaid {
        extrinsic_index: Option<u32>,
        era_index: u32,
        validator_payout: Balance,
        remainder: Balance,
    },
    NominatorKicked {
        extrinsic_index: Option<u32>,
        nominator_account_id: AccountId,
        validator_account_id: AccountId,
    },
    OldSlashingReportDiscarded { extrinsic_index: Option<u32>, session_index: u32 },
    PayoutStarted { extrinsic_index: Option<u32>, era_index: u32, validator_account_id: AccountId },
    Rewarded { extrinsic_index: Option<u32>, rewardee_account_id: AccountId, amount: Balance },
    Slashed { extrinsic_index: Option<u32>, validator_account_id: AccountId, amount: Balance },
    StakersElected { extrinsic_index: Option<u32> },
    StakingElectionFailed { extrinsic_index: Option<u32> },
    Unbonded { extrinsic_index: Option<u32>, account_id: AccountId, amount: Balance },
    Withdrawn { extrinsic_index: Option<u32>, account_id: AccountId, amount: Balance },
}

impl StakingEvent {
    /// The index of the extrinsic that raised the event, if one did.
    pub fn get_extrinsic_index(&self) -> (r: Option<u32>)
        ensures
            r == staking_extrinsic_index(*self),
    {
        match self {
            StakingEvent::Bonded { extrinsic_index, .. } => *extrinsic_index,
            StakingEvent::Chilled { extrinsic_index, .. } => *extrinsic_index,
            StakingEvent::EraPaid { extrinsic_index, .. } => *extrinsic_index,
            StakingEvent::NominatorKicked { extrinsic_index, .. } => *extrinsic_index,
            StakingEvent::OldSlashingReportDiscarded { extrinsic_index, .. } => *extrinsic_index,
            StakingEvent::PayoutStarted { extrinsic_index, .. } => *extrinsic_index,
            StakingEvent::Rewarded { extrinsic_index, .. } => *extrinsic_index,
            StakingEvent::Slashed { extrinsic_index, .. } => *extrinsic_index,
            StakingEvent::StakersElected { extrinsic_index } => *extrinsic_index,
            StakingEvent::StakingElectionFailed { extrinsic_index } => *extrinsic_index,
            StakingEvent::Unbonded { extrinsic_index, .. } => *extrinsic_index,
            StakingEvent::Withdrawn { extrinsic_index, .. } => *extrinsic_index,
        }
    }
}

/// The extrinsic index that a staking event carries.
pub open spec fn staking_extrinsic_index(e: StakingEvent) -> Option<u32> {
    match e {
        StakingEvent::Bonded { extrinsic_index, .. } => extrinsic_index,
        StakingEvent::Chilled { extrinsic_index, .. } => extrinsic_index,
        StakingEvent::EraPaid { extrinsic_index, .. } => extrinsic_index,
        StakingEvent::NominatorKicked { extrinsic_index, .. } => extrinsic_index,
        StakingEvent::OldSlashingReportDiscarded { extrinsic_index, .. } => extrinsic_index,
        StakingEvent::PayoutStarted { extrinsic_index, .. } => extrinsic_index,
        StakingEvent::Rewarded { extrinsic_index, .. } => extrinsic_index,
        StakingEvent::Slashed { extrinsic_index, .. } => extrinsic_index,
        StakingEvent::StakersElected { extrinsic_index } => extrinsic_index,
        StakingEvent::StakingElectionFailed { extrinsic_index } => extrinsic_index,
        StakingEvent::Unbonded { extrinsic_index, .. } => extrinsic_index,
        StakingEvent::Withdrawn { extrinsic_index, .. } => extrinsic_index,
    }
}

/// What the staking event named `name` with the fields `b` decodes to: `None` where its
/// fields do not decode, `Some(None)` where SubVT does not follow that event.
pub open spec fn staking_event_spec(name: Seq<char>, xi: Option<u32>, b: Seq<u8>) -> Option<Option<StakingEvent>> {
    if name == "Bonded"@ {
        if b.len() >= 48 {
            Some(Some(StakingEvent::Bonded { extrinsic_index: xi, account_id: acct(b, 0), balance: bal(b, 32) }))
        } else {
            None
        }
    } else if name == "Chilled"@ || name == "Chill"@ {
        if b.len() >= 32 {
            Some(Some(StakingEvent::Chilled { extrinsic_index: xi, stash_account_id: acct(b, 0) }))
        } else {
            None
        }
    } else if name == "EraPaid"@ || name == "EraPayout"@ {
        if b.len() >= 36 {
            Some(Some(StakingEvent::EraPaid {
                extrinsic_index: xi,
                era_index: word(b, 0),
                validator_payout: bal(b, 4),
                remainder: bal(b, 20),
            }))
        } else {
            None
        }
    } else if name == "Kicked"@ {
        if b.len() >= 64 {
            Some(Some(StakingEvent::NominatorKicked {
                extrinsic_index: xi,
                nominator_account_id: acct(b, 0),
                validator_account_id: acct(b, 32),
            }))
        } else {
            None
        }
    } else if name == "OldSlashingReportDiscarded"@ {
        if b.len() >= 4 {
            Some(Some(StakingEvent::OldSlashingReportDiscarded { extrinsic_index: xi, session_index: word(b, 0) }))
        } else {
            None
        }
    } else if name == "PayoutStarted"@ {
        if b.len() >= 36 {
            Some(Some(StakingEvent::PayoutStarted {
                extrinsic_index: xi,
                era_index: word(b, 0),
                validator_account_id: acct(b, 4),
            }))
        } else {
            None
        }
    } else if name == "Rewarded"@ || name == "Reward"@ {
        if b.len() >= 48 {
            Some(Some(StakingEvent::Rewarded { extrinsic_index: xi, rewardee_account_id: acct(b, 0), amount: bal(b, 32) }))
        } else {
            None
        }
    } else if name == "Slashed"@ || name == "Slash"@ {
        if b.len() >= 48 {
            Some(Some(StakingEvent::Slashed { extrinsic_index: xi, validator_account_id: acct(b, 0), amount: bal(b, 32) }))
        } else {
            None
        }
    } else if name == "StakersElected"@ || name == "StakingElection"@ {
        Some(Some(StakingEvent::StakersElected { extrinsic_index: xi }))
    } else if name == "StakingElectionFailed"@ {
        Some(Some(StakingEvent::StakingElectionFailed { extrinsic_index: xi }))
    } else if name == "Unbonded"@ {
        if b.len() >= 48 {
            Some(Some(StakingEvent::Unbonded { extrinsic_index: xi, account_id: acct(b, 0), amount: bal(b, 32) }))
        } else {
            None
        }
    } else if name == "Withdrawn"@ {
        if b.len() >= 48 {
            Some(Some(StakingEvent::Withdrawn { extrinsic_index: xi, account_id: acct(b, 0), amount: bal(b, 32) }))
        } else {
            None
        }
    } else {
        Some(None)
    }
}

/// Whether `r` is what a decoder whose outcome is `o` gives.
pub open spec fn decoded_as<T>(o: Option<Option<T>>, r: Result<Option<T>, DecodeError>) -> bool {
    match o {
        None => r is Err,
        Some(x) => r matches Ok(y) && y == x,
    }
}

impl StakingEvent {
    /// Reads the staking event named `name` from its fields `bytes`; `None` where SubVT does
    /// not follow that event.
    pub fn decode(name: &str, extrinsic_index: Option<u32>, bytes: &[u8]) -> (r: Result<Option<StakingEvent>, DecodeError>)
        ensures
            decoded_as(staking_event_spec(name@, extrinsic_index, bytes@), r),
    {
        let xi = extrinsic_index;
        if str_equals(name, "Bonded") {
            let a = read_account(bytes, 0)?;
            let v = read_balance(bytes, 32)?;
            Ok(Some(StakingEvent::Bonded { extrinsic_index: xi, account_id: a, balance: v }))
        } else if str_equals(name, "Chilled") || str_equals(name, "Chill") {
            let a = read_account(bytes, 0)?;
            Ok(Some(StakingEvent::Chilled { extrinsic_index: xi, stash_account_id: a }))
        } else if str_equals(name, "EraPaid") || str_equals(name, "EraPayout") {
            let era = read_word(bytes, 0)?;
            let payout = read_balance(bytes, 4)?;
            let remainder = read_balance(bytes, 20)?;
            Ok(Some(StakingEvent::EraPaid { extrinsic_index: xi, era_index: era, validator_payout: payout, remainder }))
        } else if str_equals(name, "Kicked") {
            let n = read_account(bytes, 0)?;
            let v = read_account(bytes, 32)?;
            Ok(Some(StakingEvent::NominatorKicked { extrinsic_index: xi, nominator_account_id: n, validator_account_id: v }))
        } else if str_equals(name, "OldSlashingReportDiscarded") {
            let s = read_word(bytes, 0)?;
            Ok(Some(StakingEvent::OldSlashingReportDiscarded { extrinsic_index: xi, session_index: s }))
        } else if str_equals(name, "PayoutStarted") {
            let era = read_word(bytes, 0)?;
            let v = read_account(bytes, 4)?;
            Ok(Some(StakingEvent::PayoutStarted { extrinsic_index: xi, era_index: era, validator_account_id: v }))
        } else if str_equals(name, "Rewarded") || str_equals(name, "Reward") {
            let a = read_account(bytes, 0)?;
            let v = read_balance(bytes, 32)?;
            Ok(Some(StakingEvent::Rewarded { extrinsic_index: xi, rewardee_account_id: a, amount: v }))
        } else if str_equals(name, "Slashed") || str_equals(name, "Slash") {
            let a = read_account(bytes, 0)?;
            let v = read_balance(bytes, 32)?;
            Ok(Some(StakingEvent::Slashed { extrinsic_index: xi, validator_account_id: a, amount: v }))
        } else if str_equals(name, "StakersElected") || str_equals(name, "StakingElection") {
            Ok(Some(StakingEvent::StakersElected { extrinsic_index: xi }))
        } else if str_equals(name, "StakingElectionFailed") {
            Ok(Some(StakingEvent::StakingElectionFailed { extrinsic_index: xi }))
        } else if str_equals(name, "Unbonded") {
            let a = read_account(bytes, 0)?;
            let v = read_balance(bytes, 32)?;
            Ok(Some(StakingEvent::Unbonded { extrinsic_index: xi, account_id: a, amount: v }))
        } else if str_equals(name, "Withdrawn") {
            let a = read_account(bytes, 0)?;
            let v = read_balance(bytes, 32)?;
            Ok(Some(StakingEvent::Withdrawn { extrinsic_index: xi, account_id: a, amount: v }))
        } else {
            Ok(None)
        }
    }
}

// ---------------------------------------------------------------------------
// Identity events.
// ---------------------------------------------------------------------------

/// The identity events that SubVT follows.
#[derive(Clone, Debug, PartialEq, Eq)]
pub enum IdentityEvent {
    IdentityCleared { extrinsic_index: Option<u32>, account_id: AccountId, returned_balance: Balance },
    IdentityKilled { extrinsic_index: Option<u32>, account_id: AccountId, slashed_balance: Balance },
    IdentitySet { extrinsic_index: Option<u32>, account_id: AccountId },
    JudgementGiven { extrinsic_index: Option<u32>, target_account_id: AccountId, registrar_index: u32 },
    JudgementRequested { extrinsic_index: Option<u32>, target_account_id: AccountId, registrar_index: u32 },
    JudgementUnrequested { extrinsic_index: Option<u32>, target_account_id: AccountId, registrar_index: u32 },
    SubIdentityAdded {
        extrinsic_index: Option<u32>,
        sub_account_id: AccountId,
        main_account_id: AccountId,
        deposit: Balance,
    },
    SubIdentityRemoved {
        extrinsic_index: Option<u32>,
        sub_account_id: AccountId,
        main_account_id: AccountId,
        freed_deposit: Balance,
    },
    SubIdentityRevoked {
        extrinsic_index: Option<u32>,
        sub_account_id: AccountId,
        main_account_id: AccountId,
        repatriated_deposit: Balance,
    },
}

/// The extrinsic index that an identity event carries.
pub open spec fn identity_extrinsic_index(e: IdentityEvent) -> Option<u32> {
    match e {
        IdentityEvent::IdentityCleared { extrinsic_index, .. } => extrinsic_index,
        IdentityEvent::IdentityKilled { extrinsic_index, .. } => extrinsic_index,
        IdentityEvent::IdentitySet { extrinsic_index, .. } => extrinsic_index,
        IdentityEvent::JudgementGiven { extrinsic_index, .. } => extrinsic_index,
        IdentityEvent::JudgementRequested { extrinsic_index, .. } => extrinsic_index,
        IdentityEvent::JudgementUnrequested { extrinsic_index, .. } => extrinsic_index,
        IdentityEvent::SubIdentityAdded { extrinsic_index, .. } => extrinsic_index,
        IdentityEvent::SubIdentityRemoved { extrinsic_index, .. } => extrinsic_index,
        IdentityEvent::SubIdentityRevoked { extrinsic_index, .. } => extrinsic_index,
    }
}

impl IdentityEvent {
    /// The index of the extrinsic that raised the event, if one did.
    pub fn get_extrinsic_index(&self) -> (r: Option<u32>)
        ensures
            r == identity_extrinsic_index(*self),
    {
        match self {
            IdentityEvent::IdentityCleared { extrinsic_index, .. } => *extrinsic_index,
            IdentityEvent::IdentityKilled { extrinsic_index, .. } => *extrinsic_index,
            IdentityEvent::IdentitySet { extrinsic_index, .. } => *extrinsic_index,
            IdentityEvent::JudgementGiven { extrinsic_index, .. } => *extrinsic_index,
            IdentityEvent::JudgementRequested { extrinsic_index, .. } => *extrinsic_index,
            IdentityEvent::JudgementUnrequested { extrinsic_index, .. } => *extrinsic_index,
            IdentityEvent::SubIdentityAdded { extrinsic_index, .. } => *extrinsic_index,
            IdentityEvent::SubIdentityRemoved { extrinsic_index, .. } => *extrinsic_index,
            IdentityEvent::SubIdentityRevoked { extrinsic_index, .. } => *extrinsic_index,
        }
    }
}

/// What the identity event named `name` with the fields `b` decodes to.
pub open spec fn identity_event_spec(name: Seq<char>, xi: Option<u32>, b: Seq<u8>) -> Option<Option<IdentityEvent>> {
    if name == "IdentityCleared"@ {
        if b.len() >= 48 {
            Some(Some(IdentityEvent::IdentityCleared { extrinsic_index: xi, account_id: acct(b, 0), returned_balance: bal(b, 32) }))
        } else {
            None
        }
    } else if name == "IdentityKilled"@ {
        if b.len() >= 48 {
            Some(Some(IdentityEvent::IdentityKilled { extrinsic_index: xi, account_id: acct(b, 0), slashed_balance: bal(b, 32) }))
        } else {
            None
        }
    } else if name == "IdentitySet"@ {
        if b.len() >= 32 {
            Some(Some(IdentityEvent::IdentitySet { extrinsic_index: xi, account_id: acct(b, 0) }))
        } else {
            None
        }
    } else if name == "JudgementGiven"@ {
        if b.len() >= 36 {
            Some(Some(IdentityEvent::JudgementGiven { extrinsic_index: xi, target_account_id: acct(b, 0), registrar_index: word(b, 32) }))
        } else {
            None
        }
    } else if name == "JudgementRequested"@ {
        if b.len() >= 36 {
            Some(Some(IdentityEvent::JudgementRequested { extrinsic_index: xi, target_account_id: acct(b, 0), registrar_index: word(b, 32) }))
        } else {
            None
        }
    } else if name == "JudgementUnrequested"@ {
        if b.len() >= 36 {
            Some(Some(IdentityEvent::JudgementUnrequested { extrinsic_index: xi, target_account_id: acct(b, 0), registrar_index: word(b, 32) }))
        } else {
            None
        }
    } else if name == "SubIdentityAdded"@ {
        if b.len() >= 80 {
            Some(Some(IdentityEvent::SubIdentityAdded {
                extrinsic_index: xi,
                sub_account_id: acct(b, 0),
                main_account_id: acct(b, 32),
                deposit: bal(b, 64),
            }))
        } else {
            None
        }
    } else if name == "SubIdentityRemoved"@ {
        if b.len() >= 80 {
            Some(Some(IdentityEvent::SubIdentityRemoved {
                extrinsic_index: xi,
                sub_account_id: acct(b, 0),
                main_account_id: acct(b, 32),
                freed_deposit: bal(b, 64),
            }))
        } else {
            None
        }
    } else if name == "SubIdentityRevoked"@ {
        if b.len() >= 80 {
            Some(Some(IdentityEvent::SubIdentityRevoked {
                extrinsic_index: xi,
                sub_account_id: acct(b, 0),
                main_account_id: acct(b, 32),
                repatriated_deposit: bal(b, 64),
            }))
        } else {
            None
        }
    } else {
        Some(None)
    }
}

impl IdentityEvent {
    /// Reads the identity event named `name` from its fields `bytes`; `None` where SubVT does
    /// not follow that event.
    pub fn decode(name: &str, extrinsic_index: Option<u32>, bytes: &[u8]) -> (r: Result<Option<IdentityEvent>, DecodeError>)
        ensures
            decoded_as(identity_event_spec(name@, extrinsic_index, bytes@), r),
    {
        let xi = extrinsic_index;
        if str_equals(name, "IdentityCleared") {
            let a = read_account(bytes, 0)?;
            let v = read_balance(bytes, 32)?;
            Ok(Some(IdentityEvent::IdentityCleared { extrinsic_index: xi, account_id: a, returned_balance: v }))
        } else if str_equals(name, "IdentityKilled") {
            let a = read_account(bytes, 0)?;
            let v = read_balance(bytes, 32)?;
            Ok(Some(IdentityEvent::IdentityKilled { extrinsic_index: xi, account_id: a, slashed_balance: v }))
        } else if str_equals(name, "IdentitySet") {
            let a = read_account(bytes, 0)?;
            Ok(Some(IdentityEvent::IdentitySet { extrinsic_index: xi, account_id: a }))
        } else if str_equals(name, "JudgementGiven") {
            let a = read_account(bytes, 0)?;
            let i = read_word(bytes, 32)?;
            Ok(Some(IdentityEvent::JudgementGiven { extrinsic_index: xi, target_account_id: a, registrar_index: i }))
        } else if str_equals(name, "JudgementRequested") {
            let a = read_account(bytes, 0)?;
            let i = read_word(bytes, 32)?;
            Ok(Some(IdentityEvent::JudgementRequested { extrinsic_index: xi, target_account_id: a, registrar_index: i }))
        } else if str_equals(name, "JudgementUnrequested") {
            let a = read_account(bytes, 0)?;
            let i = read_word(bytes, 32)?;
            Ok(Some(IdentityEvent::JudgementUnrequested { extrinsic_index: xi, target_account_id: a, registrar_index: i }))
        } else if str_equals(name, "SubIdentityAdded") {
            let s = read_account(bytes, 0)?;
            let m = read_account(bytes, 32)?;
            let d = read_balance(bytes, 64)?;
            Ok(Some(IdentityEvent::SubIdentityAdded { extrinsic_index: xi, sub_account_id: s, main_account_id: m, deposit: d }))
        } else if str_equals(name, "SubIdentityRemoved") {
            let s = read_account(bytes, 0)?;
            let m = read_account(bytes, 32)?;
            let d = read_balance(bytes, 64)?;
            Ok(Some(IdentityEvent::SubIdentityRemoved { extrinsic_index: xi, sub_account_id: s, main_account_id: m, freed_deposit: d }))
        } else if str_equals(name, "SubIdentityRevoked") {
            let s = read_account(bytes, 0)?;
            let m = read_account(bytes, 32)?;
            let d = read_balance(bytes, 64)?;
            Ok(Some(IdentityEvent::SubIdentityRevoked { extrinsic_index: xi, sub_account_id: s, main_account_id: m, repatriated_deposit: d }))
        } else {
            Ok(None)
        }
    }
}

// ---------------------------------------------------------------------------
// Offence events.
// ---------------------------------------------------------------------------

/// The offence events: the kind of the offence and its opaque time slot.
#[derive(Clone, Debug, PartialEq, Eq)]
pub enum OffencesEvent {
    Offence { extrinsic_index: Option<u32>, offence_kind: [u8; 16], time_slot: Vec<u8> },
}

impl OffencesEvent {
    /// The index of the extrinsic that raised the event, if one did.
    pub fn get_extrinsic_index(&self) -> (r: Option<u32>)
        ensures
            r == (match *self {
                OffencesEvent::Offence { extrinsic_index, .. } => extrinsic_index,
            }),
    {
        match self {
            OffencesEvent::Offence { extrinsic_index, .. } => *extrinsic_index,
        }
    }
}

/// Whether the offence fields `b` decode: a 16-byte kind, then a compact length and that
/// many bytes.
pub open spec fn offence_fields_ok(b: Seq<u8>) -> bool {
    b.len() >= 16 && (compact_spec(rest(b, 16), 4) matches Some((n, l)) && 16 + l + n <= b.len())
}

/// Whether `e` is what the offence event named `name` with the fields `b` decodes to, where
/// SubVT follows it and it decodes.
pub open spec fn offence_event_is(xi: Option<u32>, b: Seq<u8>, e: OffencesEvent) -> bool {
    match e {
        OffencesEvent::Offence { extrinsic_index, offence_kind, time_slot } => {
            let (n, l) = compact_spec(rest(b, 16), 4).unwrap();
            &&& extrinsic_index == xi
            &&& offence_kind@ == b.subrange(0, 16)
            &&& time_slot@ == b.subrange((16 + l) as int, (16 + l + n) as int)
        },
    }
}

impl OffencesEvent {
    /// Reads the offence event named `name` from its fields `bytes`; `None` where SubVT does
    /// not follow that event.
    pub fn decode(name: &str, extrinsic_index: Option<u32>, bytes: &[u8]) -> (r: Result<Option<OffencesEvent>, DecodeError>)
        ensures
            name@ != "Offence"@ ==> r == Ok::<Option<OffencesEvent>, DecodeError>(None),
            name@ == "Offence"@ ==> (r is Ok <==> offence_fields_ok(bytes@)),
            name@ == "Offence"@ ==> (r matches Ok(o) ==> o matches Some(e) && offence_event_is(extrinsic_index, bytes@, e)),
    {
        if str_equals(name, "Offence") {
            let kind = match codec_bytes16(bytes, 0) {
                Ok(k) => k,
                Err(e) => return Err(DecodeError::Error(e)),
            };
            let slot = match codec_byte_vec(bytes, 16) {
                Ok(v) => v,
                Err(e) => return Err(DecodeError::Error(e)),
            };
            proof {
                let (n, l) = compact_spec(rest(bytes@, 16), 4).unwrap();
                assert(rest(bytes@, 16).subrange(l as int, (l + n) as int) =~= bytes@.subrange((16 + l) as int, (16 + l + n) as int));
            }
            Ok(Some(OffencesEvent::Offence { extrinsic_index, offence_kind: kind, time_slot: slot }))
        } else {
            Ok(None)
        }
    }
}

// ---------------------------------------------------------------------------
// Exposures inside events.
// ---------------------------------------------------------------------------

/// A nominator's part of an exposure.
#[derive(Clone, Copy, Debug, PartialEq, Eq)]
pub struct IndividualExposure {
    pub who: AccountId,
    pub value: Balance,
}

/// The stake backing a validator: total, own, and each nominator's part.
#[derive(Clone, Debug, PartialEq, Eq)]
pub struct Exposure {
    pub total: Balance,
    pub own: Balance,
    pub others: Vec<IndividualExposure>,
}

/// The head of the exposure at `pos` in `b`: total, own, where its entries begin and how
/// many there are.
pub open spec fn exposure_head_at(b: Seq<u8>, pos: int) -> Option<(nat, nat, nat, nat)> {
    match compact_at(b, pos, 16) {
        Some((total, l1)) => match compact_at(b, pos + l1, 16) {
            Some((own, l2)) => match compact_at(b, pos + l1 + l2, 4) {
                Some((n, l3)) => Some((total, own, (pos + l1 + l2 + l3) as nat, n)),
                None => None,
            },
            None => None,
        },
        None => None,
    }
}

/// Where the exposure at `pos` in `b` ends; `None` where it does not decode.
pub open spec fn exposure_end_at(b: Seq<u8>, pos: int) -> Option<nat> {
    match exposure_head_at(b, pos) {
        Some((_, _, start, n)) => if exposure_entries_ok(b, start, n) {
            Some(exposure_entry_pos(b, start, n))
        } else {
            None
        },
        None => None,
    }
}

/// Whether `e` is the exposure at `pos` in `b`, which decodes.
pub open spec fn exposure_is(b: Seq<u8>, pos: int, e: Exposure) -> bool {
    let (total, own, start, n) = exposure_head_at(b, pos).unwrap();
    &&& e.total == total
    &&& e.own == own
    &&& e.others.len() == n
    &&& forall|k: int|
        0 <= k < n ==> {
            &&& #[trigger] e.others@[k].who == acct(b, exposure_entry_pos(b, start, k as nat) as int)
            &&& e.others@[k].value == compact_at(b, (exposure_entry_pos(b, start, k as nat) + 32) as int, 16).unwrap().0
        }
}

/// Reads the exposure at `pos`; gives it and the position after it.
pub fn decode_exposure_at(bytes: &[u8], pos: usize) -> (r: Result<(Exposure, usize), DecodeError>)
    requires
        pos <= bytes.len(),
    ensures
        r is Ok <==> exposure_end_at(bytes@, pos as int) is Some,
        r matches Ok((e, next)) ==> exposure_is(bytes@, pos as int, e) && next == exposure_end_at(
            bytes@,
            pos as int,
        ).unwrap() && next <= bytes.len(),
{
    let (total, p1) = read_compact_u128(bytes, pos)?;
    let (own, p2) = read_compact_u128(bytes, p1)?;
    let (count, p3) = read_compact_u32_at(bytes, p2)?;
    let ghost start = p3 as nat;
    let mut others: Vec<IndividualExposure> = Vec::new();
    let mut q = p3;
    let mut i: u32 = 0;
    while i < count
        invariant
            i <= count,
            q <= bytes.len(),
            exposure_head_at(bytes@, pos as int) == Some((total as nat, own as nat, start, count as nat)),
            q == exposure_entry_pos(bytes@, start, i as nat),
            exposure_entries_ok(bytes@, start, i as nat),
            others.len() == i,
            forall|k: int|
                0 <= k < i ==> {
                    &&& #[trigger] others@[k].who == acct(bytes@, exposure_entry_pos(bytes@, start, k as nat) as int)
                    &&& others@[k].value == compact_at(bytes@, (exposure_entry_pos(bytes@, start, k as nat) + 32) as int, 16).unwrap().0
                },
        decreases count - i,
    {
        let who = match read_account(bytes, q) {
            Ok(a) => a,
            Err(e) => {
                proof {
                    lemma_entries_fail(bytes@, start, i as nat, count as nat);
                }
                return Err(e);
            },
        };
        let (value, q2) = match read_compact_u128(bytes, q + 32) {
            Ok(x) => x,
            Err(e) => {
                proof {
                    lemma_entries_fail(bytes@, start, i as nat, count as nat);
                }
                return Err(e);
            },
        };
        others.push(IndividualExposure { who, value });
        q = q2;
        i = i + 1;
    }
    let e = Exposure { total, own, others };
    Ok((e, q))
}

/// Where the `k`-th identification tuple (an account, then its exposure) of a list that
/// starts at `start` begins.
pub open spec fn tuple_pos(b: Seq<u8>, start: nat, k: nat) -> nat
    decreases k,
{
    if k == 0 {
        start
    } else {
        let p = tuple_pos(b, start, (k - 1) as nat);
        match exposure_end_at(b, (p + 32) as int) {
            Some(e) => e,
            None => p,
        }
    }
}

/// Whether the first `count` tuples from `start` decode.
pub open spec fn tuples_ok(b: Seq<u8>, start: nat, count: nat) -> bool
    decreases count,
{
    if count == 0 {
        true
    } else {
        let p = tuple_pos(b, start, (count - 1) as nat);
        &&& tuples_ok(b, start, (count - 1) as nat)
        &&& p + 32 <= b.len()
        &&& exposure_end_at(b, (p + 32) as int) is Some
    }
}

/// If tuple `i` does not decode, no longer list that holds it does.
pub proof fn lemma_tuples_fail(b: Seq<u8>, start: nat, i: nat, n: nat)
    requires
        i < n,
        !(tuple_pos(b, start, i) + 32 <= b.len() && exposure_end_at(b, (tuple_pos(b, start, i) + 32) as int) is Some),
    ensures
        !tuples_ok(b, start, n),
    decreases n,
{
    if i + 1 < n {
        lemma_tuples_fail(b, start, i, (n - 1) as nat);
    }
}

/// Whether `ts` are the identification tuples of the list whose count is at the start of
/// `b`, which decodes.
pub open spec fn tuples_are(b: Seq<u8>, ts: Seq<(AccountId, Exposure)>) -> bool {
    let (n, l) = compact_at(b, 0, 4).unwrap();
    &&& ts.len() == n
    &&& forall|k: int|
        0 <= k < n ==> {
            &&& (#[trigger] ts[k]).0 == acct(b, tuple_pos(b, l, k as nat) as int)
            &&& exposure_is(b, (tuple_pos(b, l, k as nat) + 32) as int, ts[k].1)
        }
}

/// Whether the list of identification tuples at the start of `b` decodes.
pub open spec fn tuples_list_ok(b: Seq<u8>) -> bool {
    compact_at(b, 0, 4) matches Some((n, l)) && tuples_ok(b, l, n)
}

/// Reads a compact count of identification tuples and the tuples, from the start of `bytes`.
pub fn decode_identification_tuples(bytes: &[u8]) -> (r: Result<Vec<(AccountId, Exposure)>, DecodeError>)
    ensures
        r is Ok <==> tuples_list_ok(bytes@),
        r matches Ok(ts) ==> tuples_are(bytes@, ts@),
{
    let (count, p) = read_compact_u32_at(bytes, 0)?;
    let ghost start = p as nat;
    let mut ts: Vec<(AccountId, Exposure)> = Vec::new();
    let mut q = p;
    let mut i: u32 = 0;
    while i < count
        invariant
            i <= count,
            q <= bytes.len(),
            compact_at(bytes@, 0, 4) == Some((count as nat, start)),
            q == tuple_pos(bytes@, start, i as nat),
            tuples_ok(bytes@, start, i as nat),
            ts.len() == i,
            forall|k: int|
                0 <= k < i ==> {
                    &&& (#[trigger] ts@[k]).0 == acct(bytes@, tuple_pos(bytes@, start, k as nat) as int)
                    &&& exposure_is(bytes@, (tuple_pos(bytes@, start, k as nat) + 32) as int, ts@[k].1)
                },
        decreases count - i,
    {
        let who = match read_account(bytes, q) {
            Ok(a) => a,
            Err(e) => {
                proof {
                    lemma_tuples_fail(bytes@, start, i as nat, count as nat);
                }
                return Err(e);
            },
        };
        let (exposure, q2) = match decode_exposure_at(bytes, q + 32) {
            Ok(x) => x,
            Err(e) => {
                proof {
                    lemma_tuples_fail(bytes@, start, i as nat, count as nat);
                }
                return Err(e);
            },
        };
        ts.push((who, exposure));
        q = q2;
        i = i + 1;
    }
    Ok(ts)
}

// ---------------------------------------------------------------------------
// Heartbeat events.
// ---------------------------------------------------------------------------

/// The heartbeat events of validators.
#[derive(Clone, Debug, PartialEq, Eq)]
pub enum ImOnlineEvent {
    AllGood { extrinsic_index: Option<u32> },
    HeartbeatReceived { extrinsic_index: Option<u32>, im_online_key_hex_string: String },
    SomeOffline { identification_tuples: Vec<(AccountId, Exposure)> },
}

impl ImOnlineEvent {
    /// The index of the extrinsic that raised the event, if one did; none raises
    /// `SomeOffline`.
    pub fn get_extrinsic_index(&self) -> (r: Option<u32>)
        ensures
            r == (match *self {
                ImOnlineEvent::AllGood { extrinsic_index } => extrinsic_index,
                ImOnlineEvent::HeartbeatReceived { extrinsic_index, .. } => extrinsic_index,
                ImOnlineEvent::SomeOffline { .. } => None,
            }),
    {
        match self {
            ImOnlineEvent::AllGood { extrinsic_index } => *extrinsic_index,
            ImOnlineEvent::HeartbeatReceived { extrinsic_index, .. } => *extrinsic_index,
            ImOnlineEvent::SomeOffline { .. } => None,
        }
    }
}

/// Whether the heartbeat event named `name` with the fields `b` decodes.
pub open spec fn im_online_fields_ok(name: Seq<char>, b: Seq<u8>) -> bool {
    if name == "AllGood"@ {
        true
    } else if name == "HeartbeatReceived"@ {
        b.len() >= 32
    } else if name == "SomeOffline"@ {
        tuples_list_ok(b)
    } else {
        true
    }
}

/// Whether `o` is what the heartbeat event named `name` with the fields `b` decodes to.
pub open spec fn im_online_event_is(name: Seq<char>, xi: Option<u32>, b: Seq<u8>, o: Option<ImOnlineEvent>) -> bool {
    if name == "AllGood"@ {
        o == Some(ImOnlineEvent::AllGood { extrinsic_index: xi })
    } else if name == "HeartbeatReceived"@ {
        o matches Some(ImOnlineEvent::HeartbeatReceived { extrinsic_index, im_online_key_hex_string })
            && extrinsic_index == xi && im_online_key_hex_string@ == "0x"@ + hex_upper(b.subrange(0, 32))
    } else if name == "SomeOffline"@ {
        o matches Some(ImOnlineEvent::SomeOffline { identification_tuples }) && tuples_are(
            b,
            identification_tuples@,
        )
    } else {
        o is None
    }
}

impl ImOnlineEvent {
    /// Reads the heartbeat event named `name` from its fields `bytes`; `None` where SubVT
    /// does not follow that event. A heartbeat's key is kept as `0x` and upper-case hex.
    pub fn decode(name: &str, extrinsic_index: Option<u32>, bytes: &[u8]) -> (r: Result<Option<ImOnlineEvent>, DecodeError>)
        ensures
            r is Ok <==> im_online_fields_ok(name@, bytes@),
            r matches Ok(o) ==> im_online_event_is(name@, extrinsic_index, bytes@, o),
    {
        if str_equals(name, "AllGood") {
            Ok(Some(ImOnlineEvent::AllGood { extrinsic_index }))
        } else if str_equals(name, "HeartbeatReceived") {
            let key = match codec_bytes32(bytes, 0) {
                Ok(k) => k,
                Err(e) => return Err(DecodeError::Error(e)),
            };
            let mut text = copy_str("0x");
            let h = hex_encode_upper(key.as_slice());
            push_str(&mut text, h.as_str());
            Ok(Some(ImOnlineEvent::HeartbeatReceived { extrinsic_index, im_online_key_hex_string: text }))
        } else if str_equals(name, "SomeOffline") {
            let ts = decode_identification_tuples(bytes)?;
            Ok(Some(ImOnlineEvent::SomeOffline { identification_tuples: ts }))
        } else {
            Ok(None)
        }
    }
}

// ---------------------------------------------------------------------------
// Events of a block.
// ---------------------------------------------------------------------------

/// An event of a block: one that SubVT follows, or another, known by its pallet and name.
#[derive(Clone, Debug, PartialEq, Eq)]
pub enum SubstrateEvent {
    Democracy(DemocracyEvent),
    Identity(IdentityEvent),
    ImOnline(ImOnlineEvent),
    Multisig(MultisigEvent),
    Offences(OffencesEvent),
    Proxy(ProxyEvent),
    Referenda(ReferendaEvent),
    Staking(StakingEvent),
    System(SystemEvent),
    Utility(UtilityEvent),
    Other { module_name: String, event_name: String, extrinsic_index: Option<u32> },
}

/// The extrinsic index that an event carries.
pub open spec fn event_extrinsic_index(e: SubstrateEvent) -> Option<u32> {
    match e {
        SubstrateEvent::Democracy(x) => democracy_extrinsic_index(x),
        SubstrateEvent::Identity(x) => identity_extrinsic_index(x),
        SubstrateEvent::ImOnline(x) => match x {
            ImOnlineEvent::AllGood { extrinsic_index } => extrinsic_index,
            ImOnlineEvent::HeartbeatReceived { extrinsic_index, .. } => extrinsic_index,
            ImOnlineEvent::SomeOffline { .. } => None,
        },
        SubstrateEvent::Multisig(x) => match x {
            MultisigEvent::MultisigExecuted { extrinsic_index, .. } => extrinsic_index,
        },
        SubstrateEvent::Offences(x) => match x {
            OffencesEvent::Offence { extrinsic_index, .. } => extrinsic_index,
        },
        SubstrateEvent::Proxy(x) => match x {
            ProxyEvent::ProxyExecuted { extrinsic_index, .. } => extrinsic_index,
        },
        SubstrateEvent::Referenda(x) => referenda_extrinsic_index(x),
        SubstrateEvent::Staking(x) => staking_extrinsic_index(x),
        SubstrateEvent::System(x) => system_extrinsic_index(x),
        SubstrateEvent::Utility(x) => utility_extrinsic_index(x),
        SubstrateEvent::Other { extrinsic_index, .. } => extrinsic_index,
    }
}

impl SubstrateEvent {
    /// The index of the extrinsic that raised the event, if one did.
    pub fn get_extrinsic_index(&self) -> (r: Option<u32>)
        ensures
            r == event_extrinsic_index(*self),
    {
        match self {
            SubstrateEvent::Democracy(e) => e.get_extrinsic_index(),
            SubstrateEvent::Identity(e) => e.get_extrinsic_index(),
            SubstrateEvent::ImOnline(e) => e.get_extrinsic_index(),
            SubstrateEvent::Multisig(e) => e.get_extrinsic_index(),
            SubstrateEvent::Offences(e) => e.get_extrinsic_index(),
            SubstrateEvent::Proxy(e) => e.get_extrinsic_index(),
            SubstrateEvent::Referenda(e) => e.get_extrinsic_index(),
            SubstrateEvent::Staking(e) => e.get_extrinsic_index(),
            SubstrateEvent::System(e) => e.get_extrinsic_index(),
            SubstrateEvent::Utility(e) => e.get_extrinsic_index(),
            SubstrateEvent::Other { extrinsic_index, .. } => *extrinsic_index,
        }
    }
}

/// Whether the fields `b` of the event `ename` of the pallet `pname` decode in a runtime of
/// version `rv`, for the pallets whose events SubVT follows; the events of other pallets
/// always do.
pub open spec fn pallet_event_ok(rv: u32, pname: Seq<char>, ename: Seq<char>, xi: Option<u32>, b: Seq<u8>) -> bool {
    if pname == "Democracy"@ {
        democracy_event_spec(ename, xi, b) is Some
    } else if pname == "Identity"@ {
        identity_event_spec(ename, xi, b) is Some
    } else if pname == "ImOnline"@ {
        im_online_fields_ok(ename, b)
    } else if pname == "Multisig"@ {
        multisig_event_spec(rv, ename, xi, b) is Some
    } else if pname == "Offences"@ {
        ename == "Offence"@ ==> offence_fields_ok(b)
    } else if pname == "Proxy"@ {
        proxy_event_spec(rv, ename, xi, b) is Some
    } else if pname == "Referenda"@ {
        referenda_fields_ok(ename, b)
    } else if pname == "Staking"@ {
        staking_event_spec(ename, xi, b) is Some
    } else if pname == "System"@ {
        system_event_spec(rv, ename, xi, b) is Some
    } else if pname == "Utility"@ {
        utility_event_spec(rv, ename, xi, b) is Some
    } else {
        true
    }
}

/// Whether SubVT follows no event named `ename` of the pallet `pname`.
pub open spec fn pallet_event_unfollowed(rv: u32, pname: Seq<char>, ename: Seq<char>, xi: Option<u32>, b: Seq<u8>) -> bool {
    if pname == "Democracy"@ {
        democracy_event_spec(ename, xi, b) == Some(None::<DemocracyEvent>)
    } else if pname == "Identity"@ {
        identity_event_spec(ename, xi, b) == Some(None::<IdentityEvent>)
    } else if pname == "ImOnline"@ {
        im_online_event_is(ename, xi, b, None)
    } else if pname == "Multisig"@ {
        multisig_event_spec(rv, ename, xi, b) == Some(None::<MultisigEvent>)
    } else if pname == "Offences"@ {
        ename != "Offence"@
    } else if pname == "Proxy"@ {
        proxy_event_spec(rv, ename, xi, b) == Some(None::<ProxyEvent>)
    } else if pname == "Referenda"@ {
        referenda_event_is(ename, xi, b, None)
    } else if pname == "Staking"@ {
        staking_event_spec(ename, xi, b) == Some(None::<StakingEvent>)
    } else if pname == "System"@ {
        system_event_spec(rv, ename, xi, b) == Some(None::<SystemEvent>)
    } else if pname == "Utility"@ {
        utility_event_spec(rv, ename, xi, b) == Some(None::<UtilityEvent>)
    } else {
        true
    }
}

/// Whether `e` is the event `ename` of the pallet `pname` with the fields `b`, in a runtime
/// of version `rv`.
pub open spec fn substrate_event_is(rv: u32, pname: Seq<char>, ename: Seq<char>, xi: Option<u32>, b: Seq<u8>, e: SubstrateEvent) -> bool {
    match e {
        SubstrateEvent::Democracy(x) => pname == "Democracy"@ && democracy_event_spec(ename, xi, b) == Some(Some(x)),
        SubstrateEvent::Identity(x) => pname == "Identity"@ && identity_event_spec(ename, xi, b) == Some(Some(x)),
        SubstrateEvent::ImOnline(x) => pname == "ImOnline"@ && im_online_event_is(ename, xi, b, Some(x)),
        SubstrateEvent::Multisig(x) => pname == "Multisig"@ && multisig_event_spec(rv, ename, xi, b) == Some(Some(x)),
        SubstrateEvent::Offences(x) => pname == "Offences"@ && ename == "Offence"@ && offence_event_is(xi, b, x),
        SubstrateEvent::Proxy(x) => pname == "Proxy"@ && proxy_event_spec(rv, ename, xi, b) == Some(Some(x)),
        SubstrateEvent::Referenda(x) => pname == "Referenda"@ && referenda_event_is(ename, xi, b, Some(x)),
        SubstrateEvent::Staking(x) => pname == "Staking"@ && staking_event_spec(ename, xi, b) == Some(Some(x)),
        SubstrateEvent::System(x) => pname == "System"@ && system_event_spec(rv, ename, xi, b) == Some(Some(x)),
        SubstrateEvent::Utility(x) => pname == "Utility"@ && utility_event_spec(rv, ename, xi, b) == Some(Some(x)),
        SubstrateEvent::Other { module_name, event_name, extrinsic_index } => {
            &&& module_name@ == pname
            &&& event_name@ == ename
            &&& extrinsic_index == xi
            &&& pallet_event_unfollowed(rv, pname, ename, xi, b)
        },
    }
}

/// The events read by name carry the extrinsic index they were read with, but for the
/// heartbeat pallet's report of offline validators.
pub proof fn lemma_event_index(rv: u32, pname: Seq<char>, ename: Seq<char>, xi: Option<u32>, b: Seq<u8>, e: SubstrateEvent)
    requires
        substrate_event_is(rv, pname, ename, xi, b, e),
        !(e matches SubstrateEvent::ImOnline(ImOnlineEvent::SomeOffline { .. })),
    ensures
        event_extrinsic_index(e) == xi,
{
    match e {
        SubstrateEvent::Democracy(x) => {
            assert(democracy_event_spec(ename, xi, b) == Some(Some(x)));
        },
        SubstrateEvent::Identity(x) => {
            assert(identity_event_spec(ename, xi, b) == Some(Some(x)));
        },
        SubstrateEvent::Multisig(x) => {
            assert(multisig_event_spec(rv, ename, xi, b) == Some(Some(x)));
        },
        SubstrateEvent::Proxy(x) => {
            assert(proxy_event_spec(rv, ename, xi, b) == Some(Some(x)));
        },
        SubstrateEvent::Staking(x) => {
            assert(staking_event_spec(ename, xi, b) == Some(Some(x)));
        },
        SubstrateEvent::System(x) => {
            assert(system_event_spec(rv, ename, xi, b) == Some(Some(x)));
        },
        SubstrateEvent::Utility(x) => {
            assert(utility_event_spec(rv, ename, xi, b) == Some(Some(x)));
        },
        _ => {},
    }
}

/// Reads the event `event_name` of the pallet `pallet_name` from its fields `bytes`, in the
/// layouts of the runtime version; `None` where SubVT does not follow that event.
pub fn decode_pallet_event(runtime_version: u32, pallet_name: &str, event_name: &str, extrinsic_index: Option<u32>, bytes: &[u8]) -> (r: Result<Option<SubstrateEvent>, DecodeError>)
    ensures
        r is Ok <==> pallet_event_ok(runtime_version, pallet_name@, event_name@, extrinsic_index, bytes@),
        r matches Ok(Some(e)) ==> substrate_event_is(runtime_version, pallet_name@, event_name@, extrinsic_index, bytes@, e)
            && !(e is Other),
        r matches Ok(None) ==> pallet_event_unfollowed(runtime_version, pallet_name@, event_name@, extrinsic_index, bytes@),
{
    let rv = runtime_version;
    if str_equals(pallet_name, "Democracy") {
        match DemocracyEvent::decode(event_name, extrinsic_index, bytes)? {
            Some(e) => Ok(Some(SubstrateEvent::Democracy(e))),
            None => Ok(None),
        }
    } else if str_equals(pallet_name, "Identity") {
        match IdentityEvent::decode(event_name, extrinsic_index, bytes)? {
            Some(e) => Ok(Some(SubstrateEvent::Identity(e))),
            None => Ok(None),
        }
    } else if str_equals(pallet_name, "ImOnline") {
        match ImOnlineEvent::decode(event_name, extrinsic_index, bytes)? {
            Some(e) => Ok(Some(SubstrateEvent::ImOnline(e))),
            None => Ok(None),
        }
    } else if str_equals(pallet_name, "Multisig") {
        match MultisigEvent::decode(rv, event_name, extrinsic_index, bytes)? {
            Some(e) => Ok(Some(SubstrateEvent::Multisig(e))),
            None => Ok(None),
        }
    } else if str_equals(pallet_name, "Offences") {
        match OffencesEvent::decode(event_name, extrinsic_index, bytes)? {
            Some(e) => Ok(Some(SubstrateEvent::Offences(e))),
            None => Ok(None),
        }
    } else if str_equals(pallet_name, "Proxy") {
        match ProxyEvent::decode(rv, event_name, extrinsic_index, bytes)? {
            Some(e) => Ok(Some(SubstrateEvent::Proxy(e))),
            None => Ok(None),
        }
    } else if str_equals(pallet_name, "Referenda") {
        match ReferendaEvent::decode(event_name, extrinsic_index, bytes)? {
            Some(e) => Ok(Some(SubstrateEvent::Referenda(e))),
            None => Ok(None),
        }
    } else if str_equals(pallet_name, "Staking") {
        match StakingEvent::decode(event_name, extrinsic_index, bytes)? {
            Some(e) => Ok(Some(SubstrateEvent::Staking(e))),
            None => Ok(None),
        }
    } else if str_equals(pallet_name, "System") {
        match SystemEvent::decode(rv, event_name, extrinsic_index, bytes)? {
            Some(e) => Ok(Some(SubstrateEvent::System(e))),
            None => Ok(None),
        }
    } else if str_equals(pallet_name, "Utility") {
        match UtilityEvent::decode(rv, event_name, extrinsic_index, bytes)? {
            Some(e) => Ok(Some(SubstrateEvent::Utility(e))),
            None => Ok(None),
        }
    } else {
        Ok(None)
    }
}

/// The phase of the event record at `pos`: the extrinsic index where the event was raised
/// by one (tag 0, then 4 bytes), none at the block's finalization or initialization (tags 1
/// and 2); and the position after it.
pub open spec fn phase_at(b: Seq<u8>, pos: int) -> Option<(Option<u32>, nat)> {
    if pos >= b.len() {
        None
    } else if b[pos] == 0 {
        if pos + 5 <= b.len() {
            Some((Some(word(b, pos + 1)), (pos + 5) as nat))
        } else {
            None
        }
    } else if b[pos] == 1 || b[pos] == 2 {
        Some((None, (pos + 1) as nat))
    } else {
        None
    }
}

/// Walks the fields `ids[i..]` one after another from `pos`.
pub open spec fn fields_walk(types: Seq<TypeInfo>, ids: Seq<u32>, i: nat, b: Seq<u8>, pos: int) -> Walk
    decreases ids.len() - i,
{
    if i >= ids.len() {
        Walk::Done(pos as nat)
    } else {
        match field_walk(types, ids[i as int], b, pos, false) {
            Walk::Done(p) => fields_walk(types, ids, i + 1, b, p as int),
            w => w,
        }
    }
}

/// How the head of the event record at `pos` reads.
pub enum EventHead {
    /// The record is cut short or malformed where an error is raised.
    Bad,
    /// The record names a pallet, an event type or a variant that the metadata lacks, or
    /// its fields do not walk; reading it panics.
    Panics,
    /// The extrinsic index, the pallet, the variant, where the fields start and end, and
    /// where the topics end.
    Good(Option<u32>, PalletInfo, VariantInfo, nat, nat, nat),
}

/// The head of the event record at `pos` in `b`.
pub open spec fn event_head(m: RuntimeMetadata, b: Seq<u8>, pos: int) -> EventHead {
    match phase_at(b, pos) {
        None => EventHead::Bad,
        Some((xi, p1)) => if p1 + 2 > b.len() {
            EventHead::Bad
        } else {
            match pallet_with_index(m.pallets@, b[p1 as int]) {
                None => EventHead::Panics,
                Some(pallet) => match pallet.event_type {
                    None => EventHead::Panics,
                    Some(t) => if t >= m.types.len() {
                        EventHead::Panics
                    } else {
                        match m.types@[t as int].def {
                            TypeDefinition::Variant(vs) => match find_variant(vs@, b[(p1 + 1) as int], 0) {
                                None => EventHead::Panics,
                                Some(k) => {
                                    let v = vs@[k as int];
                                    match fields_walk(m.types@, v.fields@, 0, b, (p1 + 2) as int) {
                                        Walk::Done(fe) => match compact_at(b, fe as int, 4) {
                                            Some((n, l)) => if fe + l + 32 * n <= b.len() {
                                                EventHead::Good(xi, pallet, v, p1 + 2, fe, fe + l + 32 * n)
                                            } else {
                                                EventHead::Bad
                                            },
                                            None => EventHead::Bad,
                                        },
                                        _ => EventHead::Panics,
                                    }
                                },
                            },
                            _ => EventHead::Bad,
                        }
                    },
                },
            }
        },
    }
}

/// Whether the event record at `pos` decodes.
pub open spec fn event_ok(m: RuntimeMetadata, rv: u32, b: Seq<u8>, pos: int) -> bool {
    match event_head(m, b, pos) {
        EventHead::Good(xi, pallet, v, fs, fe, _) => pallet_event_ok(rv, pallet.name@, v.name@, xi, b.subrange(fs as int, fe as int)),
        _ => false,
    }
}

/// Whether `e` is the event of the record at `pos`, and `next` where the record ends.
pub open spec fn event_is(m: RuntimeMetadata, rv: u32, b: Seq<u8>, pos: int, e: SubstrateEvent, next: nat) -> bool {
    match event_head(m, b, pos) {
        EventHead::Good(xi, pallet, v, fs, fe, end) => {
            &&& next == end
            &&& substrate_event_is(rv, pallet.name@, v.name@, xi, b.subrange(fs as int, fe as int), e)
        },
        _ => false,
    }
}

/// Reads the event record at `pos` (phase, pallet and event indices, fields, topics): the
/// event, read in the layouts of the runtime version, and the position after the record.
pub fn decode_event(metadata: &RuntimeMetadata, runtime_version: u32, bytes: &[u8], pos: usize) -> (r: Result<(SubstrateEvent, usize), DecodeError>)
    requires
        wf_types(metadata.types@),
        pos <= bytes.len(),
        !(event_head(*metadata, bytes@, pos as int) is Panics),
    ensures
        r is Ok <==> event_ok(*metadata, runtime_version, bytes@, pos as int),
        r matches Ok((e, next)) ==> event_is(*metadata, runtime_version, bytes@, pos as int, e, next as nat) && next
            <= bytes.len(),
{
    let tag = match codec_u8(bytes, pos) {
        Ok(t) => t,
        Err(e) => return Err(DecodeError::Error(e)),
    };
    let (xi, p1): (Option<u32>, usize) = if tag == 0 {
        let w = read_word(bytes, pos + 1)?;
        (Some(w), pos + 5)
    } else if tag == 1 || tag == 2 {
        (None, pos + 1)
    } else {
        return Err(DecodeError::Error(copy_str("Could not decode `Phase`, variant doesn't exist")));
    };
    let module_index = match codec_u8(bytes, p1) {
        Ok(t) => t,
        Err(e) => return Err(DecodeError::Error(e)),
    };
    let event_index = match codec_u8(bytes, p1 + 1) {
        Ok(t) => t,
        Err(e) => return Err(DecodeError::Error(e)),
    };
    let pallet = find_pallet_with_index(&metadata.pallets, module_index).unwrap();
    let event_type = pallet.event_type.unwrap();
    let ty = get_metadata_type(&metadata.types, event_type);
    let variants = match &ty.def {
        TypeDefinition::Variant(vs) => vs,
        _ => return Err(DecodeError::Error(copy_str("Unexpected non-variant event type."))),
    };
    let k = find_variant_exec(variants, event_index).unwrap();
    proof {
        lemma_find_variant(variants@, event_index, 0);
    }
    let variant = &variants[k];
    let ghost fs = (p1 + 2) as int;
    let mut q = p1 + 2;
    let mut i: usize = 0;
    proof {
        assert(variants_in(variants@, metadata.types.len() as nat));
        assert(ids_in(variants@[k as int].fields@, metadata.types.len() as nat));
    }
    while i < variant.fields.len()
        invariant
            i <= variant.fields.len(),
            q <= bytes.len(),
            fs <= q,
            wf_types(metadata.types@),
            ids_in(variant.fields@, metadata.types.len() as nat),
            fields_walk(metadata.types@, variant.fields@, 0, bytes@, fs) == fields_walk(
                metadata.types@,
                variant.fields@,
                i as nat,
                bytes@,
                q as int,
            ),
            fields_walk(metadata.types@, variant.fields@, 0, bytes@, fs) is Done,
        decreases variant.fields.len() - i,
    {
        let field_type = variant.fields[i];
        q = match decode_field(&metadata.types, field_type, bytes, q, false) {
            Ok(p) => p,
            Err(e) => return Err(e),
        };
        i = i + 1;
    }
    let fe = q;
    let (n, p) = read_compact_u32_at(bytes, fe)?;
    if ((bytes.len() - p) as u64) < 32 * (n as u64) {
        return Err(DecodeError::Error(copy_str("Not enough data to fill buffer")));
    }
    let next = p + 32 * (n as usize);
    let event_bytes = vstd::slice::slice_subrange(bytes, p1 + 2, fe);
    let maybe = decode_pallet_event(runtime_version, pallet.name.as_str(), variant.name.as_str(), xi, event_bytes)?;
    let event = match maybe {
        Some(e) => e,
        None => SubstrateEvent::Other {
            module_name: pallet.name.clone(),
            event_name: variant.name.clone(),
            extrinsic_index: xi,
        },
    };
    Ok((event, next))
}

/// Where the event record at `pos` ends, where it decodes.
pub open spec fn event_next(m: RuntimeMetadata, b: Seq<u8>, pos: int) -> nat {
    match event_head(m, b, pos) {
        EventHead::Good(_, _, _, _, _, end) => end,
        _ => pos as nat,
    }
}

/// Where the `i`-th event record of a list that starts at `start` begins.
pub open spec fn event_pos(m: RuntimeMetadata, b: Seq<u8>, start: nat, i: nat) -> nat
    decreases i,
{
    if i == 0 {
        start
    } else {
        event_next(m, b, event_pos(m, b, start, (i - 1) as nat) as int)
    }
}

/// Whether the first `i` event records from `start` all decode.
pub open spec fn events_ok_upto(m: RuntimeMetadata, rv: u32, b: Seq<u8>, start: nat, i: nat) -> bool {
    forall|j: nat| j < i ==> #[trigger] event_ok(m, rv, b, event_pos(m, b, start, j) as int)
}

/// Whether reading the first `count` event records from `start`, up to the first that does
/// not decode, never panics.
pub open spec fn events_panic_free(m: RuntimeMetadata, rv: u32, b: Seq<u8>, start: nat, count: nat) -> bool {
    forall|i: nat|
        i < count && events_ok_upto(m, rv, b, start, i) ==> !(#[trigger] event_head(m, b, event_pos(m, b, start, i) as int) is Panics)
}

/// Whether `v` is what reading `count` event records from `start` gives: each event in turn,
/// up to and with the error of the first record that does not decode.
pub open spec fn events_are(m: RuntimeMetadata, rv: u32, b: Seq<u8>, start: nat, count: nat, v: Seq<Result<SubstrateEvent, DecodeError>>) -> bool {
    &&& v.len() <= count
    &&& forall|j: int|
        0 <= j < v.len() ==> ((#[trigger] v[j]) is Ok <==> event_ok(m, rv, b, event_pos(m, b, start, j as nat) as int))
    &&& forall|j: int|
        0 <= j < v.len() && v[j] is Ok ==> event_is(
            m,
            rv,
            b,
            event_pos(m, b, start, j as nat) as int,
            (#[trigger] v[j])->Ok_0,
            event_pos(m, b, start, (j + 1) as nat),
        )
    &&& forall|j: int| 0 <= j < v.len() - 1 ==> (#[trigger] v[j]) is Ok
    &&& v.len() < count ==> v.len() > 0 && v.last() is Err
}

/// Reads the events of a block from SCALE-encoded `bytes`: a compact count, then the
/// records. Reading stops after the first record that does not decode, whose error ends
/// the list. Each record reads in the layouts of the runtime version.
pub fn decode_events(metadata: &RuntimeMetadata, runtime_version: u32, bytes: &[u8]) -> (r: Result<Vec<Result<SubstrateEvent, DecodeError>>, DecodeError>)
    requires
        wf_types(metadata.types@),
        compact_at(bytes@, 0, 4) matches Some((n, l)) ==> events_panic_free(*metadata, runtime_version, bytes@, l, n),
    ensures
        r is Ok <==> compact_at(bytes@, 0, 4) is Some,
        r matches Ok(v) ==> {
            let (n, l) = compact_at(bytes@, 0, 4).unwrap();
            events_are(*metadata, runtime_version, bytes@, l, n, v@)
        },
{
    let (count, start) = read_compact_u32_at(bytes, 0)?;
    let ghost l = start as nat;
    let mut result: Vec<Result<SubstrateEvent, DecodeError>> = Vec::new();
    let mut pos = start;
    let mut i: u32 = 0;
    while i < count
        invariant
            i <= count,
            pos <= bytes.len(),
            wf_types(metadata.types@),
            compact_at(bytes@, 0, 4) == Some((count as nat, l)),
            events_panic_free(*metadata, runtime_version, bytes@, l, count as nat),
            pos == event_pos(*metadata, bytes@, l, i as nat),
            events_ok_upto(*metadata, runtime_version, bytes@, l, i as nat),
            result.len() == i,
            forall|j: int| 0 <= j < result.len() ==> (#[trigger] result@[j]) is Ok,
            forall|j: int|
                0 <= j < result.len() ==> event_is(
                    *metadata,
                    runtime_version,
                    bytes@,
                    event_pos(*metadata, bytes@, l, j as nat) as int,
                    (#[trigger] result@[j])->Ok_0,
                    event_pos(*metadata, bytes@, l, (j + 1) as nat),
                ),
        decreases count - i,
    {
        proof {
            assert(!(event_head(*metadata, bytes@, event_pos(*metadata, bytes@, l, i as nat) as int) is Panics));
        }
        match decode_event(metadata, runtime_version, bytes, pos) {
            Ok((event, next)) => {
                result.push(Ok(event));
                proof {
                    assert forall|j: nat| j < i + 1 implies #[trigger] event_ok(
                        *metadata,
                        runtime_version,
                        bytes@,
                        event_pos(*metadata, bytes@, l, j) as int,
                    ) by {
                        if j < i {
                            assert(events_ok_upto(*metadata, runtime_version, bytes@, l, i as nat));
                        }
                    }
                    assert(event_pos(*metadata, bytes@, l, (i + 1) as nat) == next);
                }
                pos = next;
                i = i + 1;
            },
            Err(e) => {
                result.push(Err(e));
                proof {
                    let v = result@;
                    assert forall|j: int| 0 <= j < v.len() implies ((#[trigger] v[j]) is Ok <==> event_ok(
                        *metadata,
                        runtime_version,
                        bytes@,
                        event_pos(*metadata, bytes@, l, j as nat) as int,
                    )) by {
                        if j < i {
                            assert(events_ok_upto(*metadata, runtime_version, bytes@, l, i as nat));
                            assert(event_ok(*metadata, runtime_version, bytes@, event_pos(*metadata, bytes@, l, j as nat) as int));
                        }
                    }
                }
                return Ok(result);
            },
        }
    }
    proof {
        let v = result@;
        assert forall|j: int| 0 <= j < v.len() implies ((#[trigger] v[j]) is Ok <==> event_ok(
            *metadata,
            runtime_version,
            bytes@,
            event_pos(*metadata, bytes@, l, j as nat) as int,
        )) by {
            assert(events_ok_upto(*metadata, runtime_version, bytes@, l, i as nat));
            assert(event_ok(*metadata, runtime_version, bytes@, event_pos(*metadata, bytes@, l, j as nat) as int));
        }
    }
    Ok(result)
}

} // verus!
