use sp_core::crypto::{Ss58AddressFormat, Ss58Codec};
use subvt::app::{default_id, Block as AppBlock, PayoutStakersExtrinsic, SetControllerExtrinsic, ValidateExtrinsic};
use subvt::crypto::AccountId;
use subvt::governance::{get_democracy_conviction_u8, DemocracyConviction, NFTChain, ReferendumStatus};
use subvt::numeric::format_decimal;
use subvt::para::{Assignment, CandidateVotes, ClaimQueueEntry, ParaCoreAssignment};
use subvt::report::{ParaVote, ParaVoteType, ParaVotesSummary};
use subvt::server::{BusEvent, ValidatorDetailsServer};
use subvt::service::{AppServiceError, ServiceError};
use subvt::staking::{NominationSummary, ValidatorPreferences};
use subvt::storage::{hash, StorageHasher};
use subvt::substrate::{
    Account, EraStakers, IdentityRegistration, NominatorStake, ValidatorStake,
};
use subvt::subvt::{ValidatorDetails, ValidatorNominationSummary, ValidatorSearchSummary, ValidatorSummary};
use subvt::telegram::{TelegramChatState, TelegramChatValidatorSummary};
use subvt::text::{get_condensed_address, get_condensed_session_keys};

fn id(seed: u8) -> AccountId {
    AccountId::new([seed; 32])
}

fn identity(display: &str, confirmed: bool) -> IdentityRegistration {
    IdentityRegistration { display: Some(display.to_string()), confirmed, ..Default::default() }
}

#[test]
fn condensed_address_keeps_both_ends() {
    assert_eq!(get_condensed_address("1234567890ABCDEF", Some(3)), "123...DEF");
    assert_eq!(get_condensed_address("1234567890ABCDEF", None), "12345...BCDEF");
    assert_eq!(get_condensed_session_keys("0x0123456789abcdef"), "0x012345...abcdef");
}

#[test]
fn format_decimal_cuts_and_groups() {
    assert_eq!(format_decimal(1_234_567_891_234, 10, 4), "123.4567");
    assert_eq!(format_decimal(12_345_678_900_000_000_000, 10, 4), "1,234,567,890.0000");
    assert_eq!(format_decimal(5, 3, 2), "0.00");
}

#[test]
fn account_hex_round_trip() {
    let a = AccountId::new([0xAB; 32]);
    let text = a.to_hex_string();
    assert_eq!(text, format!("0x{}", "AB".repeat(32)));
    assert_eq!(AccountId::from_hex(&text).unwrap(), a);
    assert_eq!(AccountId::from_hex(&"ab".repeat(32)).unwrap(), a);
    assert!(AccountId::from_hex("0x12").is_err());
    assert!(AccountId::from_str("not an address").is_err());
}

#[test]
fn ss58_text_is_that_of_sp_core() {
    let a = id(7);
    let expected = sp_core::crypto::AccountId32::new([7; 32]).to_ss58check_with_version(Ss58AddressFormat::custom(2));
    assert_eq!(a.to_ss58_check_with_version(2), expected);
    assert_eq!(AccountId::from_ss58_check(&expected).unwrap(), a);
}

#[test]
fn multisig_account_is_a_hash() {
    let m = AccountId::multisig_account_id(&id(1), &[id(2), id(3)], 2);
    assert_ne!(m, id(1));
    assert_eq!(m, AccountId::multisig_account_id(&id(1), &[id(2), id(3)], 2));
    assert_ne!(m, AccountId::multisig_account_id(&id(1), &[id(2), id(3)], 1));
}

#[test]
fn storage_hashers() {
    let key = b"key".to_vec();
    assert_eq!(hash(&StorageHasher::Identity, &key), key);
    assert_eq!(hash(&StorageHasher::Blake2_128, &key), sp_core::blake2_128(&key).to_vec());
    assert_eq!(hash(&StorageHasher::Blake2_256, &key), sp_core::blake2_256(&key).to_vec());
    assert_eq!(hash(&StorageHasher::Twox128, &key), sp_core::twox_128(&key).to_vec());
    assert_eq!(hash(&StorageHasher::Twox256, &key), sp_core::twox_256(&key).to_vec());
    let concat = hash(&StorageHasher::Twox64Concat, &key);
    assert_eq!(concat.len(), 8 + key.len());
    assert_eq!(&concat[..8], &sp_core::twox_64(&key)[..]);
    assert_eq!(&concat[8..], &key[..]);
    let concat = hash(&StorageHasher::Blake2_128Concat, &key);
    assert_eq!(&concat[..16], &sp_core::blake2_128(&key)[..]);
    assert_eq!(&concat[16..], &key[..]);
}

#[test]
fn sub_identity_is_confirmed_through_its_parent() {
    let parent = Account { identity: Some(identity("Parent", true)), ..Default::default() };
    let child = Account {
        parent: Box::new(Some(parent)),
        child_display: Some("child".to_string()),
        ..Default::default()
    };
    assert!(child.get_confirmed());
    assert_eq!(child.get_full_display(), Some("Parent / child".to_string()));
    assert_eq!(child.get_parent_display(), Some("Parent".to_string()));
    assert_eq!(child.get_display(), None);
    let lone = Account { address: "1234567890ABCDEF".to_string(), ..Default::default() };
    assert!(!lone.get_confirmed());
    assert_eq!(lone.get_display_or_condensed_address(Some(2)), "12...EF");
}

#[test]
fn para_vote_counts_add_up() {
    let vote = |t: ParaVoteType| ParaVote {
        block_number: 1,
        block_hash: String::new(),
        session_index: 1,
        para_id: 1000,
        para_validator_index: 0,
        vote: t,
    };
    let votes = vec![vote(ParaVoteType::EXPLICIT), vote(ParaVoteType::MISSED), vote(ParaVoteType::EXPLICIT), vote(ParaVoteType::IMPLICIT)];
    let s = ParaVotesSummary::from_para_votes(&votes);
    assert_eq!((s.explicit, s.implicit, s.missed), (2, 1, 1));
    assert_eq!((s.explicit + s.implicit + s.missed) as usize, votes.len());
}

#[test]
fn para_core_assignments_from_legacy_cores() {
    let votes = vec![
        CandidateVotes { para_id: 1000, validator_indices: vec![7, 1] },
        CandidateVotes { para_id: 2000, validator_indices: vec![] },
        CandidateVotes { para_id: 3000, validator_indices: vec![2] },
    ];
    let cores = vec![Some(1000), None, Some(1000), Some(2000)];
    let a = ParaCoreAssignment::from_on_chain_votes_legacy(5, &cores, &votes);
    assert_eq!(a, vec![ParaCoreAssignment { core_index: 2, para_id: 1000, group_index: 1 }]);
}

#[test]
fn para_core_assignments_from_claim_queue() {
    let votes = vec![
        CandidateVotes { para_id: 1000, validator_indices: vec![11] },
        CandidateVotes { para_id: 2000, validator_indices: vec![3] },
    ];
    let queue = vec![
        ClaimQueueEntry { core_index: 0, assignments: vec![Assignment::Bulk(1000)] },
        ClaimQueueEntry { core_index: 4, assignments: vec![Assignment::Pool { para_id: 2000, core_index: 9 }] },
    ];
    let a = ParaCoreAssignment::from_claim_queue(5, &queue, &votes);
    assert_eq!(
        a,
        vec![
            ParaCoreAssignment { core_index: 0, para_id: 1000, group_index: 2 },
            ParaCoreAssignment { core_index: 9, para_id: 2000, group_index: 0 },
        ]
    );
}

fn staker(seed: u8, total: u128) -> ValidatorStake {
    ValidatorStake {
        account: Account { id: id(seed), ..Default::default() },
        self_stake: 1,
        total_stake: total,
        nominators: vec![],
    }
}

#[test]
fn era_stake_statistics() {
    let stakers = EraStakers { era: Default::default(), stakers: vec![staker(1, 30), staker(2, 10), staker(3, 50), staker(4, 10)] };
    assert_eq!(stakers.total_stake(), 100);
    assert_eq!(stakers.min_stake(), (stakers.stakers[1].account.clone(), 10));
    assert_eq!(stakers.max_stake(), (stakers.stakers[2].account.clone(), 50));
    assert_eq!(stakers.average_stake(), 25);
    assert_eq!(stakers.median_stake(), 30);
    let odd = EraStakers { era: Default::default(), stakers: vec![staker(1, 5), staker(2, 1), staker(3, 3)] };
    assert_eq!(odd.median_stake(), 3);
    let one = EraStakers { era: Default::default(), stakers: vec![staker(1, 7)] };
    assert_eq!(one.median_stake(), 7);
    assert!(stakers.min_stake().1 <= stakers.average_stake() && stakers.average_stake() <= stakers.max_stake().1);
}

fn nomination(seed: u8, active: u128, total: u128) -> NominationSummary {
    let mut n = NominationSummary::default();
    n.stash_account.id = id(seed);
    n.stake.active_amount = active;
    n.stake.total_amount = total;
    n
}

fn details() -> ValidatorDetails {
    let mut v = ValidatorDetails::default();
    v.account = Account {
        id: id(9),
        address: "1234567890ABCDEF".to_string(),
        identity: Some(identity("Validator", true)),
        ..Default::default()
    };
    v.preferences = ValidatorPreferences { commission_per_billion: 5, blocks_nominations: false };
    v.nominations = vec![nomination(1, 10, 11), nomination(2, 20, 21), nomination(3, 30, 31)];
    v.validator_stake = Some(ValidatorStake {
        account: Account { id: id(9), ..Default::default() },
        self_stake: 100,
        total_stake: 130,
        nominators: vec![NominatorStake { account: Account { id: id(2), ..Default::default() }, stake: 30 }],
    });
    v.heartbeat_received = Some(true);
    v
}

#[test]
fn validator_summary_counts_only_inactive_nominations() {
    let v = details();
    let s = ValidatorSummary::from(&v);
    assert_eq!(s.display, Some("Validator".to_string()));
    assert!(s.confirmed);
    assert_eq!(s.inactive_nominations.nomination_count, 2);
    assert_eq!(s.inactive_nominations.total_amount, 40);
    assert_eq!(s.validator_stake.unwrap().nominator_count, 1);
    assert!(s.filter("VALID"));
    assert!(s.filter("90ab"));
    assert!(!s.filter("xyz"));
    let search = ValidatorSearchSummary::from(&s);
    assert_eq!(search.address, "1234567890ABCDEF");
    let n = ValidatorNominationSummary::from(&v);
    assert_eq!(n.active_nominator_count, 1);
    assert_eq!(n.active_nomination_total, 130);
    assert_eq!(n.inactive_nominator_count, 2);
    assert_eq!(n.inactive_nomination_total, 40);
    assert_eq!(n.inactive_nomination_total, s.inactive_nominations.total_amount);
}

#[test]
fn nomination_summary_without_active_stake_counts_totals() {
    let mut v = details();
    v.validator_stake = None;
    let n = ValidatorNominationSummary::from(&v);
    assert_eq!(n.active_nominator_count, 0);
    assert_eq!(n.inactive_nominator_count, 3);
    assert_eq!(n.inactive_nomination_total, 63);
}

#[test]
fn telegram_validator_summary_formats_amounts() {
    let mut v = details();
    v.self_stake.active_amount = 1_500_000_000_000;
    let s = TelegramChatValidatorSummary::from(&v, 12, 2);
    assert_eq!(s.display, "Validator");
    assert_eq!(s.self_stake_formatted, "1.50");
    assert_eq!(s.active_nomination_formatted, "0.00");
    assert_eq!(s.inactive_nominator_count, 2);
    assert!(s.heartbeat_received);
    assert!(s.missing_referendum_votes.is_empty());
}

#[test]
fn names_read_back_as_the_same_values() {
    for s in [TelegramChatState::Default, TelegramChatState::AddValidator, TelegramChatState::EnterBugReport, TelegramChatState::EnterFeatureRequest] {
        assert_eq!(TelegramChatState::from_str(&s.to_string()), s);
    }
    for c in [NFTChain::Acala, NFTChain::Karura, NFTChain::RMRK1, NFTChain::RMRK2, NFTChain::Statemine, NFTChain::Statemint, NFTChain::Unique] {
        assert_eq!(NFTChain::parse(&c.to_string()), Some(c));
        assert_eq!(NFTChain::from_str(&c.to_string().to_uppercase()), c);
    }
    assert_eq!(NFTChain::Unique.name(), "UNIQUE");
    assert_eq!(NFTChain::parse("ethereum"), None);
    assert_eq!(ReferendumStatus::from_str(&ReferendumStatus::TimedOut.to_string()), ReferendumStatus::TimedOut);
    assert_eq!(ReferendumStatus::Killed.to_string(), "Killed");
}

#[test]
fn democracy_conviction_numbers() {
    assert_eq!(get_democracy_conviction_u8(&DemocracyConviction::NoLock), 0);
    assert_eq!(get_democracy_conviction_u8(&DemocracyConviction::Locked6x), 6);
}

#[test]
fn database_rows_convert() {
    let hex_id = format!("0x{}", "01".repeat(32));
    let b = AppBlock::from(("0xabc".to_string(), 12, Some(1_000), Some(hex_id.clone()), 3, 4, true, 14, 9430)).unwrap();
    assert_eq!(b.number, 12);
    assert_eq!(b.timestamp, Some(1_000));
    assert_eq!(b.author_account_id, Some(AccountId::new([1; 32])));
    assert_eq!(b.runtime_version, 9430);
    let b = AppBlock::from(("0xabc".to_string(), 12, None, None, 3, 4, false, 14, 9430)).unwrap();
    assert_eq!(b.author_account_id, None);
    assert!(AppBlock::from(("0xabc".to_string(), 12, None, Some("bad".to_string()), 3, 4, false, 14, 9430)).is_err());
    let v = ValidateExtrinsic::from((1, "0x1".to_string(), 2, false, hex_id.clone(), hex_id.clone(), 5, true, true)).unwrap();
    assert_eq!(v.commission_per_billion, 5);
    assert_eq!(v.stash_account_id, AccountId::new([1; 32]));
    let p = PayoutStakersExtrinsic::from((1, "0x1".to_string(), 2, true, hex_id.clone(), hex_id, 77, false)).unwrap();
    assert_eq!(p.era_index, 77);
    assert_eq!(default_id(), 0);
    assert_eq!(AppServiceError::from("e".to_string()).description, "e");
    assert_eq!(ServiceError::from("f".to_string()).description, "f");
}

#[test]
fn extrinsic_rows_read_both_accounts() {
    let hex_one = format!("0x{}", "01".repeat(32));
    let hex_two = "02".repeat(32);
    let address = sp_core::crypto::AccountId32::new([3; 32]).to_ss58check_with_version(Ss58AddressFormat::custom(42));
    let c = SetControllerExtrinsic::from((7, "0x2".to_string(), 1, false, address.clone(), hex_two.clone(), true)).unwrap();
    assert_eq!(c.id, 7);
    assert_eq!(c.caller_account_id, AccountId::new([3; 32]));
    assert_eq!(c.controller_account_id, AccountId::new([2; 32]));
    assert!(c.is_successful);
    let v = ValidateExtrinsic::from((1, "0x1".to_string(), 2, false, hex_one.clone(), hex_two.clone(), 5, true, true)).unwrap();
    assert_eq!(v.controller_account_id, AccountId::new([2; 32]));
    let p = PayoutStakersExtrinsic::from((1, "0x1".to_string(), 2, true, hex_two.clone(), address, 9, true)).unwrap();
    assert_eq!(p.caller_account_id, AccountId::new([2; 32]));
    assert_eq!(p.validator_account_id, AccountId::new([3; 32]));
    assert!(ValidateExtrinsic::from((1, "0x1".to_string(), 2, false, hex_one.clone(), "0x12".to_string(), 5, true, true)).is_err());
    assert!(SetControllerExtrinsic::from((1, "0x1".to_string(), 2, false, "nope".to_string(), hex_two.clone(), true)).is_err());
    assert!(PayoutStakersExtrinsic::from((1, "0x1".to_string(), 2, false, hex_one, "zz".to_string(), 3, true)).is_err());
}

#[test]
fn server_keys_and_decisions() {
    assert_eq!(
        ValidatorDetailsServer::validator_storage_key("kusama", 42, true, "0xAB"),
        "subvt:kusama:validators:42:active:validator:0xAB"
    );
    assert_eq!(
        ValidatorDetailsServer::validator_storage_key("kusama", 42, false, "0xAB"),
        "subvt:kusama:validators:42:inactive:validator:0xAB"
    );
    assert_eq!(ValidatorDetailsServer::hash_key("k"), "k:hash");
    assert_eq!(
        ValidatorDetailsServer::finalized_block_channel("polkadot"),
        "subvt:polkadot:validators:publish:finalized_block_number"
    );
    assert_eq!(ValidatorDetailsServer::on_finalized_block(5, 5), None);
    assert_eq!(ValidatorDetailsServer::on_finalized_block(5, 6), Some(BusEvent::NewFinalizedBlock(6)));
    assert!(ValidatorDetailsServer::needs_update(1, 2));
    assert!(!ValidatorDetailsServer::needs_update(2, 2));
}

#[test]
fn details_diff_names_only_the_changed_fields() {
    let old = details();
    let same = old.get_diff(&details());
    assert_eq!(same.account.id, id(9));
    assert!(same.network_id.is_none() && same.preferences.is_none() && same.nominations.is_none());
    assert!(same.validator_stake.is_none() && same.heartbeat_received.is_none());
    assert!(same.next_session_keys.is_none() && same.onekv_location.is_none());

    let mut new = details();
    new.preferences.commission_per_billion = 7;
    new.nominations[1].stake.active_amount = 25;
    new.heartbeat_received = None;
    new.next_session_keys = "0xkeys".to_string();
    new.onekv_location = Some("Berlin".to_string());
    new.slash_count = 1;
    new.validator_stake.as_mut().unwrap().nominators[0].account.address = "changed".to_string();
    let d = old.get_diff(&new);
    assert_eq!(d.preferences, Some(ValidatorPreferences { commission_per_billion: 7, blocks_nominations: false }));
    assert_eq!(d.nominations.as_ref().map(|v| v[1].stake.active_amount), Some(25));
    assert_eq!(d.heartbeat_received, Some(None));
    assert_eq!(d.next_session_keys, Some("0xkeys".to_string()));
    assert_eq!(d.onekv_location, Some(Some("Berlin".to_string())));
    assert_eq!(d.slash_count, Some(1));
    assert!(d.validator_stake.is_some());
    assert!(d.network_id.is_none() && d.is_active.is_none() && d.reward_destination.is_none());
    assert!(d.unclaimed_era_indices.is_none() && d.para_core_assignment.is_none());
}
