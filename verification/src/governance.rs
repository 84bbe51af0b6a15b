//! Governance types: referendum statuses, democracy convictions and votes, and the NFT
//! chains of sub-identities.
use crate::crypto::AccountId;
use crate::strings::{copy_str, str_equals};
use crate::substrate::{lowercase, to_lowercase, Balance};
use vstd::prelude::*;

verus! {

// ---------------------------------------------------------------------------
// Referendum statuses.
// ---------------------------------------------------------------------------

/// The status of a referendum.
#[derive(Clone, Copy, Debug, Eq, PartialEq)]
pub enum ReferendumStatus {
    Submitted,
    DecisionDepositPlaced,
    Deciding,
    Executed,
    ExecutionFailed,
    TimedOut,
    Cancelled,
    Rejected,
    ConfirmStarted,
    Confirmed,
    Killed,
}

/// The name of a referendum status.
pub open spec fn referendum_status_name(s: ReferendumStatus) -> Seq<char> {
    match s {
        ReferendumStatus::Submitted => "Submitted"@,
        ReferendumStatus::DecisionDepositPlaced => "DecisionDepositPlaced"@,
        ReferendumStatus::Deciding => "Deciding"@,
        ReferendumStatus::Executed => "Executed"@,
        ReferendumStatus::ExecutionFailed => "ExecutionFailed"@,
        ReferendumStatus::TimedOut => "TimedOut"@,
        ReferendumStatus::Cancelled => "Cancelled"@,
        ReferendumStatus::Rejected => "Rejected"@,
        ReferendumStatus::ConfirmStarted => "ConfirmStarted"@,
        ReferendumStatus::Confirmed => "Confirmed"@,
        ReferendumStatus::Killed => "Killed"@,
    }
}

/// The status that a text names, of those that the reader accepts (all but
/// `ConfirmStarted` and `Killed`).
pub open spec fn referendum_status_of(s: Seq<char>) -> Option<ReferendumStatus> {
    if s == "Submitted"@ {
        Some(ReferendumStatus::Submitted)
    } else if s == "DecisionDepositPlaced"@ {
        Some(ReferendumStatus::DecisionDepositPlaced)
    } else if s == "Deciding"@ {
        Some(ReferendumStatus::Deciding)
    } else if s == "Executed"@ {
        Some(ReferendumStatus::Executed)
    } else if s == "ExecutionFailed"@ {
        Some(ReferendumStatus::ExecutionFailed)
    } else if s == "TimedOut"@ {
        Some(ReferendumStatus::TimedOut)
    } else if s == "Cancelled"@ {
        Some(ReferendumStatus::Cancelled)
    } else if s == "Rejected"@ {
        Some(ReferendumStatus::Rejected)
    } else if s == "Confirmed"@ {
        Some(ReferendumStatus::Confirmed)
    } else {
        None
    }
}

impl ReferendumStatus {
    /// The name of the status.
    pub fn to_string(&self) -> (s: String)
        ensures
            s@ == referendum_status_name(*self),
    {
        match self {
            ReferendumStatus::Submitted => copy_str("Submitted"),
            ReferendumStatus::DecisionDepositPlaced => copy_str("DecisionDepositPlaced"),
            ReferendumStatus::Deciding => copy_str("Deciding"),
            ReferendumStatus::Executed => copy_str("Executed"),
            ReferendumStatus::ExecutionFailed => copy_str("ExecutionFailed"),
            ReferendumStatus::TimedOut => copy_str("TimedOut"),
            ReferendumStatus::Cancelled => copy_str("Cancelled"),
            ReferendumStatus::Rejected => copy_str("Rejected"),
            ReferendumStatus::ConfirmStarted => copy_str("ConfirmStarted"),
            ReferendumStatus::Confirmed => copy_str("Confirmed"),
            ReferendumStatus::Killed => copy_str("Killed"),
        }
    }

    /// The status that `s` names.
    pub fn from_str(s: &str) -> (r: ReferendumStatus)
        requires
            referendum_status_of(s@) is Some,
        ensures
            r == referendum_status_of(s@).unwrap(),
    {
        if str_equals(s, "Submitted") {
            ReferendumStatus::Submitted
        } else if str_equals(s, "DecisionDepositPlaced") {
            ReferendumStatus::DecisionDepositPlaced
        } else if str_equals(s, "Deciding") {
            ReferendumStatus::Deciding
        } else if str_equals(s, "Executed") {
            ReferendumStatus::Executed
        } else if str_equals(s, "ExecutionFailed") {
            ReferendumStatus::ExecutionFailed
        } else if str_equals(s, "TimedOut") {
            ReferendumStatus::TimedOut
        } else if str_equals(s, "Cancelled") {
            ReferendumStatus::Cancelled
        } else if str_equals(s, "Rejected") {
            ReferendumStatus::Rejected
        } else {
            ReferendumStatus::Confirmed
        }
    }
}

// ---------------------------------------------------------------------------
// Democracy.
// ---------------------------------------------------------------------------

/// How long a democracy vote's balance stays locked, as a multiple of the base period.
#[derive(Clone, Copy, Debug, Eq, PartialEq)]
pub enum DemocracyConviction {
    NoLock,
    Locked1x,
    Locked2x,
    Locked3x,
    Locked4x,
    Locked5x,
    Locked6x,
}

/// The number of a conviction: 0 for none, else its multiple.
pub fn get_democracy_conviction_u8(conviction: &DemocracyConviction) -> (n: u8)
    ensures
        n == (match *conviction {
            DemocracyConviction::NoLock => 0u8,
            DemocracyConviction::Locked1x => 1u8,
            DemocracyConviction::Locked2x => 2u8,
            DemocracyConviction::Locked3x => 3u8,
            DemocracyConviction::Locked4x => 4u8,
            DemocracyConviction::Locked5x => 5u8,
            DemocracyConviction::Locked6x => 6u8,
        }),
{
    match conviction {
        DemocracyConviction::NoLock => 0,
        DemocracyConviction::Locked1x => 1,
        DemocracyConviction::Locked2x => 2,
        DemocracyConviction::Locked3x => 3,
        DemocracyConviction::Locked4x => 4,
        DemocracyConviction::Locked5x => 5,
        DemocracyConviction::Locked6x => 6,
    }
}

/// A direct vote: the balance for, the balance against, and the conviction.
#[derive(Clone, Copy, Debug, Default)]
pub struct DirectVote {
    pub aye: Option<Balance>,
    pub nay: Option<Balance>,
    pub conviction: Option<u8>,
}

/// A vote delegated to another account.
#[derive(Clone, Copy, Debug, Default)]
pub struct DelegatedVote {
    pub target_account_id: AccountId,
    pub balance: Balance,
    pub conviction: u8,
    pub delegate_account_id: AccountId,
    pub vote: DirectVote,
}

/// An account's vote on a referendum, direct or delegated.
#[derive(Clone, Copy, Debug, Default)]
pub struct ReferendumVote {
    pub account_id: AccountId,
    pub referendum_index: u32,
    pub direct_vote: Option<DirectVote>,
    pub delegated_vote: Option<DelegatedVote>,
}

// ---------------------------------------------------------------------------
// NFT chains.
// ---------------------------------------------------------------------------

/// A chain that holds NFTs.
#[derive(Clone, Copy, Debug, Eq, Hash, PartialEq)]
pub enum NFTChain {
    Acala,
    Karura,
    RMRK1,
    RMRK2,
    Statemine,
    Statemint,
    Unique,
}

/// The lower-case identifier of an NFT chain.
pub open spec fn nft_chain_id(c: NFTChain) -> Seq<char> {
    match c {
        NFTChain::Acala => "acala"@,
        NFTChain::Karura => "karura"@,
        NFTChain::RMRK1 => "rmrk1"@,
        NFTChain::RMRK2 => "rmrk2"@,
        NFTChain::Statemine => "statemine"@,
        NFTChain::Statemint => "statemint"@,
        NFTChain::Unique => "unique"@,
    }
}

/// The display name of an NFT chain.
pub open spec fn nft_chain_name(c: NFTChain) -> Seq<char> {
    match c {
        NFTChain::Acala => "Acala"@,
        NFTChain::Karura => "Karura"@,
        NFTChain::RMRK1 => "RMRK1"@,
        NFTChain::RMRK2 => "RMRK2"@,
        NFTChain::Statemine => "Statemine"@,
        NFTChain::Statemint => "Statemint"@,
        NFTChain::Unique => "UNIQUE"@,
    }
}

/// The NFT chain of a lower-case identifier.
pub open spec fn nft_chain_of_lowercase(s: Seq<char>) -> Option<NFTChain> {
    if s == "acala"@ {
        Some(NFTChain::Acala)
    } else if s == "karura"@ {
        Some(NFTChain::Karura)
    } else if s == "rmrk1"@ {
        Some(NFTChain::RMRK1)
    } else if s == "rmrk2"@ {
        Some(NFTChain::RMRK2)
    } else if s == "statemine"@ {
        Some(NFTChain::Statemine)
    } else if s == "statemint"@ {
        Some(NFTChain::Statemint)
    } else if s == "unique"@ {
        Some(NFTChain::Unique)
    } else {
        None
    }
}

impl NFTChain {
    /// The display name of the chain.
    pub fn name(&self) -> (s: String)
        ensures
            s@ == nft_chain_name(*self),
    {
        match self {
            NFTChain::Acala => copy_str("Acala"),
            NFTChain::Karura => copy_str("Karura"),
            NFTChain::RMRK1 => copy_str("RMRK1"),
            NFTChain::RMRK2 => copy_str("RMRK2"),
            NFTChain::Statemine => copy_str("Statemine"),
            NFTChain::Statemint => copy_str("Statemint"),
            NFTChain::Unique => copy_str("UNIQUE"),
        }
    }

    /// The lower-case identifier of the chain.
    pub fn to_string(&self) -> (s: String)
        ensures
            s@ == nft_chain_id(*self),
    {
        match self {
            NFTChain::Acala => copy_str("acala"),
            NFTChain::Karura => copy_str("karura"),
            NFTChain::RMRK1 => copy_str("rmrk1"),
            NFTChain::RMRK2 => copy_str("rmrk2"),
            NFTChain::Statemine => copy_str("statemine"),
            NFTChain::Statemint => copy_str("statemint"),
            NFTChain::Unique => copy_str("unique"),
        }
    }

    /// The chain of an already lower-case identifier, if any.
    pub fn from_lowercase(s: &str) -> (r: Option<NFTChain>)
        ensures
            r == nft_chain_of_lowercase(s@),
    {
        if str_equals(s, "acala") {
            Some(NFTChain::Acala)
        } else if str_equals(s, "karura") {
            Some(NFTChain::Karura)
        } else if str_equals(s, "rmrk1") {
            Some(NFTChain::RMRK1)
        } else if str_equals(s, "rmrk2") {
            Some(NFTChain::RMRK2)
        } else if str_equals(s, "statemine") {
            Some(NFTChain::Statemine)
        } else if str_equals(s, "statemint") {
            Some(NFTChain::Statemint)
        } else if str_equals(s, "unique") {
            Some(NFTChain::Unique)
        } else {
            None
        }
    }

    /// The chain of an identifier in any case.
    pub fn from_str(s: &str) -> (r: NFTChain)
        requires
            nft_chain_of_lowercase(lowercase(s@)) is Some,
        ensures
            r == nft_chain_of_lowercase(lowercase(s@)).unwrap(),
    {
        let lower = to_lowercase(s);
        match NFTChain::from_lowercase(lower.as_str()) {
            Some(c) => c,
            None => NFTChain::Acala,
        }
    }

    /// The chain of an identifier in any case, or `None` where it names none.
    pub fn parse(s: &str) -> (r: Option<NFTChain>)
        ensures
            r == nft_chain_of_lowercase(lowercase(s@)),
    {
        let lower = to_lowercase(s);
        match NFTChain::from_lowercase(lower.as_str()) {
            Some(_) => Some(NFTChain::from_str(s)),
            None => None,
        }
    }
}

/// An NFT: its id and what is known of its content.
#[derive(Clone, Debug, Eq, PartialEq)]
pub struct NFT {
    pub id: String,
    pub content_type: Option<String>,
    pub name: Option<String>,
    pub description: Option<String>,
    pub url: Option<String>,
    pub image_url: Option<String>,
}

} // verus!
