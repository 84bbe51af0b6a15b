use subvt::crypto::AccountId;
use subvt::event::{decode_events, ImOnlineEvent, StakingEvent, SubstrateEvent};
use subvt::extrinsic::{decode_extrinsics, StakingExtrinsic, SubstrateExtrinsic, TimestampExtrinsic};
use subvt::metadata::{
    get_metadata_constant_u32, get_metadata_constant_u64, get_metadata_epoch_duration_millis,
    get_metadata_era_duration_millis, get_metadata_expected_block_time_millis, get_variant_type_code,
    is_dispatch_error_legacy, is_weight_legacy, metadata_type_code_lines, ConstantInfo, PalletInfo,
    PrimitiveKind, RuntimeMetadata, TypeDefinition, TypeInfo, VariantInfo,
};
use subvt::substrate::{Block, BlockHeader, EventDigest};

fn ty(id: u32, def: TypeDefinition) -> TypeInfo {
    TypeInfo { id, path: vec![], def }
}

fn variant(name: &str, index: u8, fields: Vec<u32>) -> VariantInfo {
    VariantInfo { name: name.to_string(), index, fields }
}

fn metadata() -> RuntimeMetadata {
    let types = vec![
        ty(0, TypeDefinition::Variant(vec![variant("Bonded", 0, vec![1, 3]), variant("Paused", 1, vec![4])])),
        ty(1, TypeDefinition::Array(32, 2)),
        ty(2, TypeDefinition::Primitive(PrimitiveKind::U8)),
        ty(3, TypeDefinition::Primitive(PrimitiveKind::U128)),
        ty(4, TypeDefinition::Primitive(PrimitiveKind::U32)),
        ty(5, TypeDefinition::Variant(vec![variant("set", 0, vec![6]), variant("noop", 1, vec![4])])),
        ty(6, TypeDefinition::Compact(7)),
        ty(7, TypeDefinition::Primitive(PrimitiveKind::U64)),
        ty(8, TypeDefinition::Variant(vec![variant("AllGood", 0, vec![]), variant("HeartbeatReceived", 1, vec![1])])),
        ty(9, TypeDefinition::Variant(vec![variant("payout_stakers", 18, vec![1, 4])])),
    ];
    let pallets = vec![
        PalletInfo {
            name: "Staking".to_string(),
            index: 7,
            calls_type: Some(9),
            event_type: Some(0),
            constants: vec![ConstantInfo { name: "SessionsPerEra".to_string(), value: vec![6, 0, 0, 0] }],
        },
        PalletInfo { name: "Timestamp".to_string(), index: 3, calls_type: Some(5), event_type: None, constants: vec![] },
        PalletInfo { name: "ImOnline".to_string(), index: 9, calls_type: None, event_type: Some(8), constants: vec![] },
        PalletInfo {
            name: "Babe".to_string(),
            index: 1,
            calls_type: None,
            event_type: None,
            constants: vec![
                ConstantInfo { name: "ExpectedBlockTime".to_string(), value: 6000u64.to_le_bytes().to_vec() },
                ConstantInfo { name: "EpochDuration".to_string(), value: 600u64.to_le_bytes().to_vec() },
            ],
        },
    ];
    RuntimeMetadata { types, pallets }
}

fn account_bytes(seed: u8) -> [u8; 32] {
    let mut a = [0u8; 32];
    for (i, b) in a.iter_mut().enumerate() {
        *b = seed.wrapping_add(i as u8);
    }
    a
}

#[test]
fn decode_events_reads_staking_and_heartbeat_events() {
    let m = metadata();
    let mut b = vec![0x0C]; // three events
    b.extend_from_slice(&[0, 1, 0, 0, 0, 7, 0]);
    b.extend_from_slice(&account_bytes(1));
    b.extend_from_slice(&500u128.to_le_bytes());
    b.push(0); // no topics
    b.extend_from_slice(&[1, 9, 1]);
    b.extend_from_slice(&[0xAB; 32]);
    b.push(0);
    b.extend_from_slice(&[2, 7, 1, 9, 0, 0, 0, 0]);
    let events = decode_events(&m, 9430, &b).unwrap();
    assert_eq!(events.len(), 3);
    match events[0].as_ref().unwrap() {
        SubstrateEvent::Staking(StakingEvent::Bonded { extrinsic_index, account_id, balance }) => {
            assert_eq!(*extrinsic_index, Some(1));
            assert_eq!(*account_id, AccountId::new(account_bytes(1)));
            assert_eq!(*balance, 500);
        }
        other => panic!("unexpected event {:?}", other),
    }
    match events[1].as_ref().unwrap() {
        SubstrateEvent::ImOnline(ImOnlineEvent::HeartbeatReceived { extrinsic_index, im_online_key_hex_string }) => {
            assert_eq!(*extrinsic_index, None);
            assert_eq!(im_online_key_hex_string, &format!("0x{}", "AB".repeat(32)));
        }
        other => panic!("unexpected event {:?}", other),
    }
    match events[2].as_ref().unwrap() {
        SubstrateEvent::Other { module_name, event_name, extrinsic_index } => {
            assert_eq!(module_name, "Staking");
            assert_eq!(event_name, "Paused");
            assert_eq!(*extrinsic_index, None);
        }
        other => panic!("unexpected event {:?}", other),
    }
    assert_eq!(events[0].as_ref().unwrap().get_extrinsic_index(), Some(1));
}

#[test]
fn decode_events_stops_at_the_first_bad_record() {
    let m = metadata();
    let mut b = vec![0x08];
    b.extend_from_slice(&[5, 7, 0]); // unknown phase tag
    b.extend_from_slice(&[0; 60]);
    let events = decode_events(&m, 9430, &b).unwrap();
    assert_eq!(events.len(), 1);
    assert!(events[0].is_err());
    assert!(decode_events(&m, 9430, &[]).is_err());
}

fn block(extrinsics: Vec<String>) -> Block {
    Block {
        header: BlockHeader {
            digest: EventDigest { logs: vec![] },
            extrinsics_root: String::new(),
            number: "0x1".to_string(),
            parent_hash: String::new(),
            state_root: String::new(),
        },
        extrinsics,
    }
}

#[test]
fn decode_extrinsics_reads_timestamp_and_staking_calls() {
    let m = metadata();
    let mut payout = vec![0x04, 7, 18];
    payout.extend_from_slice(&account_bytes(4));
    payout.extend_from_slice(&[9, 0, 0, 0]);
    let mut wrapped = vec![(payout.len() as u8) * 4];
    wrapped.extend_from_slice(&payout);
    let exts = vec![
        "0x14040300a10f".to_string(),
        format!("0x{}", hex::encode(&wrapped)),
        "0x1c040301ffffffff".to_string(),
    ];
    let result = decode_extrinsics(&m, &block(exts)).unwrap();
    assert_eq!(result.len(), 3);
    match result[0].as_ref().unwrap() {
        SubstrateExtrinsic::Timestamp(TimestampExtrinsic::SetTime { maybe_signature, timestamp }) => {
            assert!(maybe_signature.is_none());
            assert_eq!(*timestamp, 1000);
        }
        other => panic!("unexpected extrinsic {:?}", other),
    }
    match result[1].as_ref().unwrap() {
        SubstrateExtrinsic::Staking(StakingExtrinsic::PayoutStakers { validator_account_id, era_index, .. }) => {
            assert_eq!(*validator_account_id, AccountId::new(account_bytes(4)));
            assert_eq!(*era_index, 9);
        }
        other => panic!("unexpected extrinsic {:?}", other),
    }
    match result[2].as_ref().unwrap() {
        SubstrateExtrinsic::Other { module_name, call_name, signature } => {
            assert_eq!(module_name, "Timestamp");
            assert_eq!(call_name, "noop");
            assert!(signature.is_none());
        }
        other => panic!("unexpected extrinsic {:?}", other),
    }
}

#[test]
fn decode_extrinsics_fails_on_bad_hex() {
    let m = metadata();
    assert!(decode_extrinsics(&m, &block(vec!["0xzz".to_string()])).is_err());
}

#[test]
fn metadata_constants_and_durations() {
    let m = metadata();
    assert_eq!(get_metadata_expected_block_time_millis(&m).unwrap(), 6000);
    assert_eq!(get_metadata_constant_u64(&m, "Babe", "EpochDuration").unwrap(), 600);
    assert_eq!(get_metadata_constant_u32(&m, "Staking", "SessionsPerEra").unwrap(), 6);
    assert_eq!(get_metadata_epoch_duration_millis(&m).unwrap(), 3_600_000);
    assert_eq!(get_metadata_era_duration_millis(&m).unwrap(), 21_600_000);
    assert!(get_metadata_constant_u64(&m, "Staking", "SessionsPerEra").is_err());
}

#[test]
fn legacy_runtime_versions() {
    assert!(is_dispatch_error_legacy(9180));
    assert!(!is_dispatch_error_legacy(9190));
    assert!(is_weight_legacy(9300));
    assert!(!is_weight_legacy(9301));
}

#[test]
fn type_code_report_lists_pallets_events_and_calls() {
    let m = metadata();
    let (lines, complete) = metadata_type_code_lines(&m);
    assert!(complete);
    let code = get_variant_type_code(&m.types, &variant("Bonded", 0, vec![1, 3])).unwrap();
    assert_eq!(lines[0], "Staking");
    assert_eq!(lines[1], "    2 events");
    assert_eq!(lines[2], format!("        Staking.Bonded {}", code));
    assert_eq!(lines[4], "    1 calls");
    assert!(lines.contains(&"Babe".to_string()));
    assert!(lines.contains(&"    0 events".to_string()));
}

#[test]
fn older_staking_event_names_read_as_current_ones() {
    let mut b = account_bytes(3).to_vec();
    b.extend_from_slice(&70u128.to_le_bytes());
    let old = StakingEvent::decode("Reward", Some(2), &b).unwrap();
    let new = StakingEvent::decode("Rewarded", Some(2), &b).unwrap();
    assert_eq!(old, new);
    assert!(matches!(new, Some(StakingEvent::Rewarded { amount: 70, .. })));
    assert_eq!(
        StakingEvent::decode("StakingElection", None, &[]).unwrap(),
        StakingEvent::decode("StakersElected", None, &[]).unwrap()
    );
}
