use subvt::crypto::AccountId;
use subvt::dispatch::Weight;
use subvt::dispatch_events::Timepoint;
use subvt::extrinsic::{
    decode_extrinsic, ConvictionVote, MultiSignature, SessionExtrinsic, Signature, ConvictionVotingExtrinsic, MultisigExtrinsic, ProxyExtrinsic,
    StakingExtrinsic, SubstrateExtrinsic, UtilityExtrinsic,
};
use subvt::governance::DemocracyConviction;
use subvt::metadata::{PalletInfo, PrimitiveKind, RuntimeMetadata, TypeDefinition, TypeInfo, VariantInfo};
use subvt::referendum_events::Vote;
use subvt::staking::ProxyType;
use subvt::substrate::MultiAddress;

fn ty(id: u32, def: TypeDefinition) -> TypeInfo {
    TypeInfo { id, path: vec![], def }
}

fn variant(name: &str, index: u8, fields: Vec<u32>) -> VariantInfo {
    VariantInfo { name: name.to_string(), index, fields }
}

fn pallet(name: &str, index: u8, calls_type: u32) -> PalletInfo {
    PalletInfo { name: name.to_string(), index, calls_type: Some(calls_type), event_type: None, constants: vec![] }
}

fn metadata() -> RuntimeMetadata {
    let types = vec![
        ty(0, TypeDefinition::Variant(vec![variant("payout_stakers", 18, vec![1, 2])])),
        ty(1, TypeDefinition::Array(32, 3)),
        ty(2, TypeDefinition::Primitive(PrimitiveKind::U32)),
        ty(3, TypeDefinition::Primitive(PrimitiveKind::U8)),
        ty(
            4,
            TypeDefinition::Variant(vec![
                variant("batch", 0, vec![2]),
                variant("batch_all", 2, vec![2]),
                variant("force_batch", 4, vec![2]),
            ]),
        ),
        ty(5, TypeDefinition::Variant(vec![variant("proxy", 0, vec![2]), variant("proxy_announced", 9, vec![2])])),
        ty(
            6,
            TypeDefinition::Variant(vec![variant("as_multi_threshold_1", 0, vec![2]), variant("as_multi", 1, vec![2])]),
        ),
        ty(7, TypeDefinition::Variant(vec![variant("vote", 0, vec![2]), variant("remove_vote", 3, vec![2])])),
        ty(8, TypeDefinition::Variant(vec![variant("remark", 0, vec![2])])),
    ];
    let pallets = vec![
        pallet("System", 0, 8),
        pallet("Staking", 7, 0),
        pallet("ConvictionVoting", 20, 7),
        pallet("Utility", 26, 4),
        pallet("Proxy", 29, 5),
        pallet("Multisig", 30, 6),
    ];
    RuntimeMetadata { types, pallets }
}

fn account(seed: u8) -> [u8; 32] {
    let mut a = [0u8; 32];
    for (i, b) in a.iter_mut().enumerate() {
        *b = seed.wrapping_add(i as u8);
    }
    a
}

/// An unsigned payout call: version byte, Staking.payout_stakers, validator, era.
fn payout_call(seed: u8, era: u32) -> Vec<u8> {
    let mut b = vec![0x04, 7, 18];
    b.extend_from_slice(&account(seed));
    b.extend_from_slice(&era.to_le_bytes());
    b
}

fn assert_payout(x: &SubstrateExtrinsic, seed: u8, era: u32) {
    match x {
        SubstrateExtrinsic::Staking(StakingExtrinsic::PayoutStakers { validator_account_id, era_index, .. }) => {
            assert_eq!(*validator_account_id, AccountId::new(account(seed)));
            assert_eq!(*era_index, era);
        }
        other => panic!("unexpected extrinsic {:?}", other),
    }
}

#[test]
fn a_batch_carries_its_calls_in_order() {
    let m = metadata();
    let mut b = vec![0x04, 26, 2, 0x08];
    b.extend_from_slice(&payout_call(1, 11));
    b.extend_from_slice(&[0x04, 0, 0, 1, 2, 3, 4]);
    let (x, end) = decode_extrinsic(&m, &None, &b, 0).unwrap();
    assert_eq!(end, b.len());
    match x {
        SubstrateExtrinsic::Utility(UtilityExtrinsic::BatchAll { maybe_signature, calls }) => {
            assert!(maybe_signature.is_none());
            assert_eq!(calls.len(), 2);
            assert_payout(&calls[0], 1, 11);
            match &calls[1] {
                SubstrateExtrinsic::Other { module_name, call_name, .. } => {
                    assert_eq!(module_name, "System");
                    assert_eq!(call_name, "remark");
                }
                other => panic!("unexpected extrinsic {:?}", other),
            }
        }
        other => panic!("unexpected extrinsic {:?}", other),
    }
}

#[test]
fn a_batch_cut_short_fails() {
    let m = metadata();
    let mut b = vec![0x04, 26, 0, 0x0C];
    b.extend_from_slice(&payout_call(1, 11));
    b.extend_from_slice(&payout_call(2, 12));
    assert!(decode_extrinsic(&m, &None, &b, 0).is_err());
}

#[test]
fn a_proxy_call_carries_the_real_account_and_its_call() {
    let m = metadata();
    let mut b = vec![0x04, 29, 0, 0x00];
    b.extend_from_slice(&account(7));
    b.extend_from_slice(&[0x01, 0x03]);
    b.extend_from_slice(&payout_call(3, 40));
    let (x, end) = decode_extrinsic(&m, &None, &b, 0).unwrap();
    assert_eq!(end, b.len());
    match x {
        SubstrateExtrinsic::Proxy(ProxyExtrinsic::Proxy { real, force_proxy_type, call, .. }) => {
            assert_eq!(real.get_account_id(), Some(AccountId::new(account(7))));
            assert!(matches!(force_proxy_type, Some(ProxyType::Staking)));
            assert_payout(&call, 3, 40);
        }
        other => panic!("unexpected extrinsic {:?}", other),
    }
    // An unknown proxy type is an error.
    let mut bad = vec![0x04, 29, 0, 0x00];
    bad.extend_from_slice(&account(7));
    bad.extend_from_slice(&[0x01, 0x09]);
    bad.extend_from_slice(&payout_call(3, 40));
    assert!(decode_extrinsic(&m, &None, &bad, 0).is_err());
}

#[test]
fn an_announced_proxy_call_reads_the_delegate_first() {
    let m = metadata();
    let mut b = vec![0x04, 29, 9, 0x00];
    b.extend_from_slice(&account(8));
    b.push(0x00);
    b.extend_from_slice(&account(9));
    b.push(0x00);
    b.extend_from_slice(&payout_call(4, 41));
    match decode_extrinsic(&m, &None, &b, 0).unwrap().0 {
        SubstrateExtrinsic::Proxy(ProxyExtrinsic::ProxyAnnounced { delegate, real, force_proxy_type, call, .. }) => {
            assert!(matches!(delegate, MultiAddress::Id(a) if a == AccountId::new(account(8))));
            assert!(matches!(real, MultiAddress::Id(a) if a == AccountId::new(account(9))));
            assert!(force_proxy_type.is_none());
            assert_payout(&call, 4, 41);
        }
        other => panic!("unexpected extrinsic {:?}", other),
    }
}

#[test]
fn multisig_calls_carry_signatories_and_a_call() {
    let m = metadata();
    let mut b = vec![0x04, 30, 0, 0x04];
    b.extend_from_slice(&account(5));
    b.extend_from_slice(&[0x04, 26, 0, 0x00]);
    match decode_extrinsic(&m, &None, &b, 0).unwrap().0 {
        SubstrateExtrinsic::Multisig(MultisigExtrinsic::AsMultiThreshold1 { other_signatories, call, .. }) => {
            assert_eq!(other_signatories, vec![AccountId::new(account(5))]);
            match *call {
                SubstrateExtrinsic::Utility(UtilityExtrinsic::Batch { calls, .. }) => assert!(calls.is_empty()),
                other => panic!("unexpected extrinsic {:?}", other),
            }
        }
        other => panic!("unexpected extrinsic {:?}", other),
    }
    let mut b = vec![0x04, 30, 1, 2, 0, 0x00, 0x01];
    b.extend_from_slice(&100u32.to_le_bytes());
    b.extend_from_slice(&3u32.to_le_bytes());
    b.extend_from_slice(&payout_call(6, 42));
    b.extend_from_slice(&[0x28, 0x04]);
    let (x, end) = decode_extrinsic(&m, &None, &b, 0).unwrap();
    assert_eq!(end, b.len());
    match x {
        SubstrateExtrinsic::Multisig(MultisigExtrinsic::AsMulti {
            threshold,
            other_signatories,
            maybe_timepoint,
            call,
            max_weight,
            ..
        }) => {
            assert_eq!(threshold, 2);
            assert!(other_signatories.is_empty());
            assert_eq!(maybe_timepoint, Some(Timepoint { height: 100, index: 3 }));
            assert_payout(&call, 6, 42);
            assert_eq!(max_weight, Weight { ref_time: 10, proof_size: 1 });
        }
        other => panic!("unexpected extrinsic {:?}", other),
    }
}

#[test]
fn conviction_votes_and_their_removal() {
    let m = metadata();
    let mut b = vec![0x04, 20, 0, 0x14, 0x00, 0x81];
    b.extend_from_slice(&1000u128.to_le_bytes());
    match decode_extrinsic(&m, &None, &b, 0).unwrap().0 {
        SubstrateExtrinsic::ConvictionVoting(ConvictionVotingExtrinsic::Vote { poll_index, vote, .. }) => {
            assert_eq!(poll_index, 5);
            assert_eq!(
                vote,
                ConvictionVote::Standard {
                    vote: Vote { aye: true, conviction: DemocracyConviction::Locked1x },
                    balance: 1000,
                }
            );
        }
        other => panic!("unexpected extrinsic {:?}", other),
    }
    let mut split = vec![0x04, 20, 0, 0x14, 0x02];
    split.extend_from_slice(&1u128.to_le_bytes());
    split.extend_from_slice(&2u128.to_le_bytes());
    split.extend_from_slice(&3u128.to_le_bytes());
    match decode_extrinsic(&m, &None, &split, 0).unwrap().0 {
        SubstrateExtrinsic::ConvictionVoting(ConvictionVotingExtrinsic::Vote { vote, .. }) => {
            assert_eq!(vote, ConvictionVote::SplitAbstain { aye: 1, nay: 2, abstain: 3 });
        }
        other => panic!("unexpected extrinsic {:?}", other),
    }
    let mut remove = vec![0x04, 20, 3, 0x01, 7, 0];
    remove.extend_from_slice(&77u32.to_le_bytes());
    match decode_extrinsic(&m, &None, &remove, 0).unwrap().0 {
        SubstrateExtrinsic::ConvictionVoting(ConvictionVotingExtrinsic::RemoveVote { class, index, .. }) => {
            assert_eq!(class, Some(7));
            assert_eq!(index, 77);
        }
        other => panic!("unexpected extrinsic {:?}", other),
    }
    b[5] = 0x07; // conviction seven does not exist
    assert!(decode_extrinsic(&m, &None, &b, 0).is_err());
}

#[test]
fn calls_carried_by_a_signed_call_carry_its_header() {
    let m = metadata();
    let signer = AccountId::new(account(77));
    let sig = Some(Signature {
        signer: MultiAddress::Id(signer),
        signature: MultiSignature::Sr25519([5; 64]),
        era: None,
        nonce: Some(3),
        tip: Some(0),
    });
    // With the header given, neither the batch nor its calls start with a version byte.
    let mut b = vec![26, 0, 0x08, 7, 18];
    b.extend_from_slice(&account(1));
    b.extend_from_slice(&5u32.to_le_bytes());
    b.extend_from_slice(&[0, 0, 9, 9, 9, 9]);
    let (x, end) = decode_extrinsic(&m, &sig, &b, 0).unwrap();
    assert_eq!(end, b.len());
    match x {
        SubstrateExtrinsic::Utility(UtilityExtrinsic::Batch { maybe_signature, calls }) => {
            assert_eq!(maybe_signature.unwrap().get_signer_account_id(), Some(signer));
            match &calls[0] {
                SubstrateExtrinsic::Staking(StakingExtrinsic::PayoutStakers { maybe_signature, .. }) => {
                    assert_eq!(maybe_signature.as_ref().unwrap().get_signer_account_id(), Some(signer));
                    assert_eq!(maybe_signature.as_ref().unwrap().nonce, Some(3));
                }
                other => panic!("unexpected extrinsic {:?}", other),
            }
            match &calls[1] {
                SubstrateExtrinsic::Other { signature, .. } => {
                    assert_eq!(signature.as_ref().unwrap().get_signer_account_id(), Some(signer));
                }
                other => panic!("unexpected extrinsic {:?}", other),
            }
        }
        other => panic!("unexpected extrinsic {:?}", other),
    }
    let mut p = vec![29, 0, 0x00];
    p.extend_from_slice(&account(2));
    p.extend_from_slice(&[0x00, 26, 4, 0x00]);
    match decode_extrinsic(&m, &sig, &p, 0).unwrap().0 {
        SubstrateExtrinsic::Proxy(ProxyExtrinsic::Proxy { call, .. }) => match *call {
            SubstrateExtrinsic::Utility(UtilityExtrinsic::ForceBatch { maybe_signature, calls }) => {
                assert!(calls.is_empty());
                assert_eq!(maybe_signature.unwrap().get_signer_account_id(), Some(signer));
            }
            other => panic!("unexpected extrinsic {:?}", other),
        },
        other => panic!("unexpected extrinsic {:?}", other),
    }
}

#[test]
fn session_keys_are_225_bytes_then_a_proof() {
    let mut b = vec![0xAA; 225];
    b.extend_from_slice(&[0x08, 1, 2]);
    let (x, end) = SessionExtrinsic::decode("set_keys", &None, &b, 0).unwrap();
    assert_eq!(end, b.len());
    match x {
        Some(SessionExtrinsic::SetKeys { maybe_signature, session_keys, proof }) => {
            assert!(maybe_signature.is_none());
            assert_eq!(session_keys, [0xAA; 225]);
            assert_eq!(proof, vec![1, 2]);
        }
        other => panic!("unexpected {:?}", other),
    }
    assert!(SessionExtrinsic::decode("set_keys", &None, &b[..226], 0).is_err());
    assert!(SessionExtrinsic::decode("purge_keys", &None, &[], 0).unwrap().0.is_none());
}
