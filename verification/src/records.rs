//! Plain records that the services store and exchange: Thousand Validators data,
//! decentralized-nodes data, telemetry details, relational-database rows, performance rows,
//! and the legacy runtime types that older blocks hold.
use crate::crypto::AccountId;
use vstd::prelude::*;

verus! {

/// An identity in the Thousand Validators programme.
#[derive(Clone, Debug, Eq, PartialEq)]
pub struct OneKVIdentity {
    pub id: String,
    pub name: String,
    pub sub_identities: Option<Vec<OneKVSubIdentity>>,
    pub verified: Option<bool>,
}

/// A sub-identity in the Thousand Validators programme.
#[derive(Clone, Debug, Eq, PartialEq)]
pub struct OneKVSubIdentity {
    pub id: String,
    pub name: String,
    pub address: Option<String>,
}

/// One validity check of a candidate in the Thousand Validators programme.
#[derive(Clone, Debug, Eq, PartialEq)]
pub struct OneKVValidity {
    pub id: String,
    pub details: String,
    pub is_valid: bool,
    pub ty: String,
    pub updated_at: u64,
}

/// Whether every one of the validity checks passed.
pub fn all_valid(validity: &Vec<OneKVValidity>) -> (b: bool)
    ensures
        b == forall|i: int| 0 <= i < validity.len() ==> (#[trigger] validity@[i]).is_valid,
{
    let mut i: usize = 0;
    while i < validity.len()
        invariant
            i <= validity.len(),
            forall|k: int| 0 <= k < i ==> (#[trigger] validity@[k]).is_valid,
        decreases validity.len() - i,
    {
        if !validity[i].is_valid {
            return false;
        }
        i = i + 1;
    }
    true
}

/// Whether a Thousand Validators candidate with these validity checks is valid: it has been
/// checked, and every check passed.
pub fn candidate_is_valid(validity: &Option<Vec<OneKVValidity>>) -> (b: bool)
    ensures
        b == (match validity {
            Some(v) => forall|i: int| 0 <= i < v.len() ==> (#[trigger] v@[i]).is_valid,
            None => false,
        }),
{
    match validity {
        Some(v) => all_valid(v),
        None => false,
    }
}

/// A nominee of a Thousand Validators nominator.
#[derive(Clone, Debug, Eq, PartialEq)]
pub struct OneKVNominee {
    pub name: String,
    pub stash_address: String,
    pub identity: Option<OneKVIdentity>,
}

/// A change of a candidate's validity in the Thousand Validators programme.
#[derive(Clone, Debug)]
pub struct OneKVValidityChange {
    pub validator_account_id: AccountId,
    pub is_valid: bool,
    pub validity_items: Vec<OneKVValidity>,
}

/// A node of the decentralized-nodes programme.
#[derive(Clone, Debug, Eq, PartialEq)]
pub struct DNNode {
    pub stash: String,
    pub identity: String,
    pub status: String,
}

/// A backup node of the decentralized-nodes programme.
#[derive(Clone, Debug, Eq, PartialEq)]
pub struct DNBackupNode {
    pub identity: String,
    pub stash: String,
}

/// The decentralized-nodes programme's selected and backup nodes, and its nominators.
#[derive(Clone, Debug, Eq, PartialEq)]
pub struct DNDataResponse {
    pub selected: Vec<DNNode>,
    pub backups: Vec<DNBackupNode>,
    pub nominators: Vec<String>,
}

/// A node's peer and transaction queue counts, as telemetry reports them.
#[derive(Clone, Copy, Debug, Eq, PartialEq)]
pub struct NodeStats {
    pub peer_count: u64,
    pub queued_tx_count: u64,
}

/// A node's name, software and network, as telemetry reports them.
#[derive(Clone, Debug, Eq, PartialEq)]
pub struct NodeDetails {
    pub name: String,
    pub implementation: String,
    pub version: String,
    pub controller_address: Option<String>,
    pub network_id: Option<String>,
}

/// A block that telemetry reports: its hash and height.
#[derive(Clone, Debug, Eq, PartialEq)]
pub struct Block {
    pub block_hash: String,
    pub block_height: u64,
}

/// A block's number, hash, times and propagation time, as telemetry reports them.
#[derive(Clone, Debug, Eq, PartialEq)]
pub struct BlockDetails {
    pub block_number: u64,
    pub block_hash: String,
    pub block_time: u64,
    pub block_timestamp: u64,
    pub propagation_time: Option<u64>,
}

/// What the relational database holds of a validator.
#[derive(Clone, Debug)]
pub struct ValidatorInfo {
    pub discovered_at: Option<u64>,
    pub slash_count: u64,
    pub offline_offence_count: u64,
    pub active_era_count: u64,
    pub inactive_era_count: u64,
    pub unclaimed_era_indices: Vec<u32>,
    pub blocks_authored: Option<u64>,
    pub reward_points: Option<u64>,
    pub heartbeat_received: Option<bool>,
    pub dn_record_id: Option<u32>,
    pub dn_status: Option<String>,
    pub performance: Vec<Vec<u32>>,
}

/// The notice that a block was processed.
#[derive(Clone, Debug)]
pub struct BlockProcessedNotification {
    pub block_number: u64,
    pub block_hash: String,
}

/// A validator's performance over a session.
#[derive(Clone, Copy, Debug, Default)]
pub struct SessionValidatorPerformance {
    pub id: u64,
    pub validator_account_id: AccountId,
    pub era_index: u32,
    pub session_index: u64,
    pub active_validator_index: u64,
    pub authored_block_count: u32,
    pub para_validator_group_index: Option<u64>,
    pub para_validator_index: Option<u64>,
    pub implicit_attestation_count: Option<u32>,
    pub explicit_attestation_count: Option<u32>,
    pub missed_attestation_count: Option<u32>,
    pub attestations_per_billion: Option<u32>,
}

/// An error of the decoding of a call argument.
#[derive(Clone, Debug)]
pub enum ArgumentDecodeError {
    DecodeError(String),
    UnknownPrimitiveType(String),
    UnsupportedPrimitiveType(String),
}

/// A weight in the older, single-number layout.
#[derive(Clone, Copy, Debug)]
pub struct OldWeight(pub u64);

/// A parachain id.
#[derive(Clone, Copy, Debug, Eq, PartialEq)]
pub struct ParaId(pub u32);

/// The parachain that a core is assigned to, in the legacy layout.
#[derive(Clone, Copy, Debug, Eq, PartialEq)]
pub struct LegacyCoreAssignment {
    pub para_id: ParaId,
}

} // verus!
