use subvt::codec::read_compact_u32;
use subvt::crypto::AccountId;
use subvt::staking::{
    InactiveNominationsSummary, Nomination, NominationSummary, RewardDestination,
    ValidatorPreferences,
};
use subvt::substrate::{
    Block, BlockHeader, Chain, Era, EventDigest, LastRuntimeUpgradeInfo, MultiAddress, Stake,
    ValidatorStake,
};

fn account_bytes(seed: u8) -> [u8; 32] {
    let mut a = [0u8; 32];
    for (i, b) in a.iter_mut().enumerate() {
        *b = seed.wrapping_add(i as u8);
    }
    a
}

#[test]
fn compact_u32_single_and_two_byte_modes() {
    assert_eq!(read_compact_u32(&[0x04], 0).unwrap(), (1, 1));
    assert_eq!(read_compact_u32(&[0x15, 0x01], 0).unwrap(), (69, 2));
    assert!(read_compact_u32(&[0x15], 0).is_err());
    assert!(read_compact_u32(&[], 0).is_err());
}

fn ledger_bytes() -> Vec<u8> {
    let mut b = account_bytes(1).to_vec();
    b.extend_from_slice(&[0x91, 0x01]); // total 100
    b.push(0xC8); // active 50
    b.push(0x04); // one unlocking chunk
    b.push(0x28); // value 10
    b.push(0x0C); // era 3
    b.push(0x04); // one claimed era
    b.extend_from_slice(&[5, 0, 0, 0]);
    b
}

#[test]
fn stake_from_ledger_bytes() {
    let stake = Stake::from_bytes(&ledger_bytes()).unwrap();
    assert_eq!(stake.stash_account_id, AccountId::new(account_bytes(1)));
    assert_eq!(stake.total_amount, 100);
    assert_eq!(stake.active_amount, 50);
}

#[test]
fn stake_from_cut_ledger_is_an_error() {
    let b = ledger_bytes();
    assert!(Stake::from_bytes(&b[..b.len() - 1]).is_err());
    assert!(Stake::from_bytes(&b[..20]).is_err());
}

#[test]
fn nomination_from_bytes_reads_targets_and_era() {
    let mut b = vec![0x08];
    b.extend_from_slice(&account_bytes(10));
    b.extend_from_slice(&account_bytes(20));
    b.extend_from_slice(&[7, 0, 0, 0]);
    b.push(1);
    let owner = AccountId::new(account_bytes(30));
    let n = Nomination::from_bytes(&b, owner).unwrap();
    assert_eq!(n.stash_account.id, owner);
    assert_eq!(n.submission_era_index, 7);
    assert_eq!(n.target_account_ids, vec![AccountId::new(account_bytes(10)), AccountId::new(account_bytes(20))]);
    assert_eq!(n.stake.total_amount, 0);
    let summary = NominationSummary::from(&n);
    assert_eq!(summary.nominee_count, 2);
    b.pop();
    b.push(2);
    assert!(Nomination::from_bytes(&b, owner).is_err());
}

#[test]
fn inactive_nominations_summary_counts_and_sums() {
    let mut a = NominationSummary::default();
    a.stake.active_amount = 10;
    let mut b = NominationSummary::default();
    b.stake.active_amount = 32;
    let s = InactiveNominationsSummary::from(&vec![a, b]);
    assert_eq!(s.nomination_count, 2);
    assert_eq!(s.total_amount, 42);
}

#[test]
fn validator_stake_from_exposure() {
    let mut b = vec![0xA0]; // total 40
    b.push(0x28); // own 10
    b.push(0x08); // two nominators
    b.extend_from_slice(&account_bytes(2));
    b.push(0x3C); // 15
    b.extend_from_slice(&account_bytes(3));
    b.push(0x3C); // 15
    let v = ValidatorStake::from_bytes(&b, AccountId::new(account_bytes(9))).unwrap();
    assert_eq!(v.total_stake, 40);
    assert_eq!(v.self_stake, 10);
    assert_eq!(v.nominators.len(), 2);
    assert_eq!(v.nominators[1].account.id, AccountId::new(account_bytes(3)));
    assert_eq!(v.nominators[0].stake, 15);
    assert!(ValidatorStake::from_bytes(&b[..b.len() - 1], AccountId::new(account_bytes(9))).is_err());
}

#[test]
fn validator_preferences_saturate_at_one_billion() {
    let p = ValidatorPreferences::decode(&[0x03, 0x00, 0x94, 0x35, 0x77, 0x01]).unwrap();
    assert_eq!(p.commission_per_billion, 1_000_000_000);
    assert!(p.blocks_nominations);
    let q = ValidatorPreferences::decode(&[0x28, 0x00]).unwrap();
    assert_eq!(q.commission_per_billion, 10);
    assert!(!q.blocks_nominations);
    assert!(ValidatorPreferences::decode(&[0x28, 0x02]).is_err());
}

#[test]
fn reward_destination_variants() {
    assert_eq!(RewardDestination::from_bytes(&[0]).unwrap(), RewardDestination::Staked);
    assert_eq!(RewardDestination::from_bytes(&[4]).unwrap(), RewardDestination::NoDestination);
    let mut b = vec![3];
    b.extend_from_slice(&account_bytes(5));
    assert_eq!(RewardDestination::from_bytes(&b).unwrap(), RewardDestination::Account(AccountId::new(account_bytes(5))));
    assert!(RewardDestination::from_bytes(&[5]).is_err());
    assert!(RewardDestination::from_bytes(&[3, 1, 2]).is_err());
}

#[test]
fn multi_address_decode_and_account_id() {
    let mut b = vec![0];
    b.extend_from_slice(&account_bytes(7));
    let (a, next) = MultiAddress::decode(&b, 0).unwrap();
    assert_eq!(next, 33);
    assert_eq!(a.get_account_id(), Some(AccountId::new(account_bytes(7))));
    let (i, next) = MultiAddress::decode(&[1, 0x04], 0).unwrap();
    assert_eq!(i, MultiAddress::Index(1));
    assert_eq!(next, 2);
    assert_eq!(i.get_account_id(), None);
    let (r, next) = MultiAddress::decode(&[2, 0x08, 9, 9], 0).unwrap();
    assert_eq!(r, MultiAddress::Raw(vec![9, 9]));
    assert_eq!(next, 4);
    assert!(MultiAddress::decode(&[5], 0).is_err());
}

fn header(number: &str) -> BlockHeader {
    BlockHeader {
        digest: EventDigest { logs: vec![] },
        extrinsics_root: String::new(),
        number: number.to_string(),
        parent_hash: String::new(),
        state_root: String::new(),
    }
}

#[test]
fn block_number_from_hex() {
    assert_eq!(header("0x1a").get_number().unwrap(), 26);
    assert_eq!(header("ff").get_number().unwrap(), 255);
    assert_eq!(header("+Ff").get_number().unwrap(), 255);
    assert_eq!(header("0xffffffffffffffff").get_number().unwrap(), u64::MAX);
    assert!(header("0x1ffffffffffffffff").get_number().is_err());
    assert!(header("0xzz").get_number().is_err());
    assert!(header("0x").get_number().is_err());
    assert!(header("+").get_number().is_err());
    let block = Block { header: header("0x10"), extrinsics: vec![] };
    assert_eq!(block.header.get_number().unwrap(), 16);
}

#[test]
fn era_from_hex_adds_the_duration() {
    let era = Era::from("0x0500000001e803000000000000", 1000).unwrap();
    assert_eq!(era.index, 5);
    assert_eq!(era.start_timestamp, 1000);
    assert_eq!(era.end_timestamp, 2000);
    assert!(Era::from("0x050000", 1000).is_err());
}

#[test]
fn runtime_upgrade_from_hex() {
    let mut b = vec![0x59, 0x93, 0x20];
    b.extend_from_slice(b"polkadot");
    let hex_string = format!("0x{}", hex::encode(&b));
    let info = LastRuntimeUpgradeInfo::from_substrate_hex_string(&hex_string).unwrap();
    assert_eq!(info.spec_version, 9430);
    assert_eq!(info.spec_name, "polkadot");
    assert!(LastRuntimeUpgradeInfo::from_substrate_hex_string("0x5993").is_err());
}

#[test]
fn chain_from_name_or_symbol() {
    assert_eq!(Chain::from_str("KSM"), Chain::Kusama);
    assert_eq!(Chain::from_str("Polkadot"), Chain::Polkadot);
    assert_eq!(Chain::parse("wnd"), Some(Chain::Westend));
    assert_eq!(Chain::parse("rococo"), None);
}
