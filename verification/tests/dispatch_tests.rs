use subvt::crypto::AccountId;
use subvt::dispatch::{
    decode_legacy_dispatch_error, LegacyDispatchError, decode_dispatch_error, decode_dispatch_info, decode_dispatch_result, decode_weight, ArithmeticError,
    DispatchClass, DispatchError, DispatchInfo, ModuleError, Pays, TokenError, TransactionalError, Weight,
};
use subvt::dispatch_events::{MultisigEvent, ProxyEvent, SystemEvent, Timepoint, UtilityEvent};
use subvt::event::{decode_pallet_event, SubstrateEvent};
use subvt::governance::DemocracyConviction;
use subvt::referendum_events::{
    AccountVote, Bounded, DemocracyEvent, ReferendaEvent, Tally, Vote, VoteThreshold,
};

fn account(seed: u8) -> [u8; 32] {
    let mut a = [0u8; 32];
    for (i, b) in a.iter_mut().enumerate() {
        *b = seed.wrapping_add(i as u8);
    }
    a
}

#[test]
fn module_errors_read_one_byte_before_runtime_9190_and_four_after() {
    assert_eq!(
        decode_dispatch_error(9180, &[3, 7, 2], 0).unwrap(),
        (DispatchError::Module(ModuleError { index: 7, error: [2, 0, 0, 0] }), 3)
    );
    assert_eq!(
        decode_dispatch_error(9190, &[3, 7, 2, 1, 0, 5], 0).unwrap(),
        (DispatchError::Module(ModuleError { index: 7, error: [2, 1, 0, 5] }), 6)
    );
    assert!(decode_dispatch_error(9190, &[3, 7, 2], 0).is_err());
}

#[test]
fn dispatch_errors_with_sub_errors_and_plain_tags() {
    assert_eq!(decode_dispatch_error(9430, &[7, 9], 0).unwrap(), (DispatchError::Token(TokenError::Blocked), 2));
    assert!(decode_dispatch_error(9430, &[7, 10], 0).is_err());
    assert_eq!(
        decode_dispatch_error(9430, &[8, 2], 0).unwrap(),
        (DispatchError::Arithmetic(ArithmeticError::DivisionByZero), 2)
    );
    assert_eq!(
        decode_dispatch_error(9430, &[9, 1], 0).unwrap(),
        (DispatchError::Transactional(TransactionalError::NoLayer), 2)
    );
    assert_eq!(decode_dispatch_error(9430, &[2], 0).unwrap(), (DispatchError::BadOrigin, 1));
    assert_eq!(decode_dispatch_error(9430, &[13], 0).unwrap(), (DispatchError::RootNotAllowed, 1));
    assert!(decode_dispatch_error(9430, &[14], 0).is_err());
    // The older layout knows no transactional or later errors.
    assert!(decode_dispatch_error(9100, &[9, 1], 0).is_err());
    assert!(decode_dispatch_error(9100, &[10], 0).is_err());
    assert_eq!(decode_dispatch_error(9100, &[6], 0).unwrap(), (DispatchError::TooManyConsumers, 1));
}

#[test]
fn weights_are_one_number_up_to_runtime_9300_and_two_compacts_after() {
    let legacy = 1_000_000u64.to_le_bytes();
    assert_eq!(decode_weight(9300, &legacy, 0).unwrap(), (Weight { ref_time: 1_000_000, proof_size: 0 }, 8));
    // compact 10 (0x28), then compact 64 (0x01 0x01)
    assert_eq!(decode_weight(9301, &[0x28, 0x01, 0x01], 0).unwrap(), (Weight { ref_time: 10, proof_size: 64 }, 3));
    assert!(decode_weight(9301, &[0x28], 0).is_err());
}

#[test]
fn dispatch_info_and_results() {
    assert_eq!(
        decode_dispatch_info(9430, &[0x28, 0x04, 2, 1], 0).unwrap(),
        (
            DispatchInfo {
                weight: Weight { ref_time: 10, proof_size: 1 },
                class: DispatchClass::Mandatory,
                pays_fee: Pays::No,
            },
            4
        )
    );
    assert!(decode_dispatch_info(9430, &[0x28, 0x04, 3, 1], 0).is_err());
    assert!(decode_dispatch_info(9430, &[0x28, 0x04, 0, 2], 0).is_err());
    assert_eq!(decode_dispatch_result(9430, &[0], 0).unwrap(), (Ok(()), 1));
    assert_eq!(decode_dispatch_result(9430, &[1, 5], 0).unwrap(), (Err(DispatchError::NoProviders), 2));
    assert!(decode_dispatch_result(9430, &[2], 0).is_err());
}

#[test]
fn system_events_carry_dispatch_outcomes() {
    let bytes = [0x28, 0x04, 0, 0];
    match SystemEvent::decode(9430, "ExtrinsicSuccess", Some(2), &bytes).unwrap() {
        Some(SystemEvent::ExtrinsicSuccess { extrinsic_index, dispatch_info }) => {
            assert_eq!(extrinsic_index, Some(2));
            assert_eq!(dispatch_info.class, DispatchClass::Normal);
            assert_eq!(dispatch_info.pays_fee, Pays::Yes);
        }
        other => panic!("unexpected {:?}", other),
    }
    let failed = [1, 0x28, 0x04, 1, 0];
    let event = SystemEvent::decode(9430, "ExtrinsicFailed", Some(4), &failed).unwrap().unwrap();
    assert_eq!(
        event,
        SystemEvent::ExtrinsicFailed {
            extrinsic_index: Some(4),
            dispatch_error: DispatchError::CannotLookup,
            dispatch_info: DispatchInfo {
                weight: Weight { ref_time: 10, proof_size: 1 },
                class: DispatchClass::Operational,
                pays_fee: Pays::Yes,
            },
        }
    );
    assert_eq!(event.get_extrinsic_index(), Some(4));
    let killed = SystemEvent::decode(9430, "KilledAccount", None, &account(3)).unwrap().unwrap();
    assert_eq!(killed, SystemEvent::KilledAccount { extrinsic_index: None, account_id: AccountId::new(account(3)) });
    assert!(SystemEvent::decode(9430, "NewAccount", None, &[0; 31]).is_err());
    assert!(SystemEvent::decode(9430, "Remarked", None, &[]).unwrap().is_none());
}

#[test]
fn utility_events() {
    let mut bytes = 3u32.to_le_bytes().to_vec();
    bytes.extend_from_slice(&[8, 1]);
    assert_eq!(
        UtilityEvent::decode(9430, "BatchInterrupted", Some(1), &bytes).unwrap(),
        Some(UtilityEvent::BatchInterrupted {
            extrinsic_index: Some(1),
            item_index: 3,
            dispatch_error: DispatchError::Arithmetic(ArithmeticError::Overflow),
        })
    );
    assert_eq!(
        UtilityEvent::decode(9430, "BatchCompleted", Some(1), &[]).unwrap(),
        Some(UtilityEvent::BatchCompleted { extrinsic_index: Some(1) })
    );
    assert!(UtilityEvent::decode(9430, "ItemFailed", None, &[]).is_err());
}

#[test]
fn multisig_and_proxy_executions() {
    let mut bytes = account(1).to_vec();
    bytes.extend_from_slice(&100u32.to_le_bytes());
    bytes.extend_from_slice(&2u32.to_le_bytes());
    bytes.extend_from_slice(&account(50));
    bytes.extend_from_slice(&[0xCD; 32]);
    bytes.push(0);
    assert_eq!(
        MultisigEvent::decode(9430, "MultisigExecuted", Some(7), &bytes).unwrap(),
        Some(MultisigEvent::MultisigExecuted {
            extrinsic_index: Some(7),
            approving_account_id: AccountId::new(account(1)),
            timepoint: Timepoint { height: 100, index: 2 },
            multisig_account_id: AccountId::new(account(50)),
            call_hash: [0xCD; 32],
            result: Ok(()),
        })
    );
    bytes.pop();
    assert!(MultisigEvent::decode(9430, "MultisigExecuted", Some(7), &bytes).is_err());
    assert_eq!(
        ProxyEvent::decode(9430, "ProxyExecuted", None, &[1, 2]).unwrap(),
        Some(ProxyEvent::ProxyExecuted { extrinsic_index: None, result: Err(DispatchError::BadOrigin) })
    );
}

#[test]
fn democracy_votes_read_aye_and_conviction_from_one_byte() {
    let mut bytes = account(9).to_vec();
    bytes.extend_from_slice(&12u32.to_le_bytes());
    bytes.push(0); // standard vote
    bytes.push(0x82); // aye, locked twice
    bytes.extend_from_slice(&77u128.to_le_bytes());
    assert_eq!(
        DemocracyEvent::decode("Voted", Some(3), &bytes).unwrap(),
        Some(DemocracyEvent::Voted {
            extrinsic_index: Some(3),
            account_id: AccountId::new(account(9)),
            referendum_index: 12,
            vote: AccountVote::Standard {
                vote: Vote { aye: true, conviction: DemocracyConviction::Locked2x },
                balance: 77,
            },
        })
    );
    bytes[37] = 0x07; // nay, conviction seven: invalid
    assert!(DemocracyEvent::decode("Voted", Some(3), &bytes).is_err());
    let mut started = 5u32.to_le_bytes().to_vec();
    started.push(2);
    assert_eq!(
        DemocracyEvent::decode("Started", None, &started).unwrap(),
        Some(DemocracyEvent::Started {
            extrinsic_index: None,
            referendum_index: 5,
            vote_threshold: VoteThreshold::SimpleMajority,
        })
    );
    assert!(DemocracyEvent::decode("Blacklisted", None, &[]).unwrap().is_none());
}

#[test]
fn referenda_submissions_and_tallies() {
    let mut bytes = 40u32.to_le_bytes().to_vec();
    bytes.extend_from_slice(&33u16.to_le_bytes());
    bytes.push(1); // inline proposal
    bytes.push(3 << 2); // three bytes
    bytes.extend_from_slice(&[9, 8, 7]);
    assert_eq!(
        ReferendaEvent::decode("Submitted", Some(0), &bytes).unwrap(),
        Some(ReferendaEvent::Submitted {
            extrinsic_index: Some(0),
            referendum_index: 40,
            track_id: 33,
            proposal: Bounded::Inline(vec![9, 8, 7]),
        })
    );
    let mut too_long = 40u32.to_le_bytes().to_vec();
    too_long.extend_from_slice(&33u16.to_le_bytes());
    too_long.push(1);
    too_long.extend_from_slice(&[0x05, 0x02]); // compact 129
    too_long.extend_from_slice(&[0; 129]);
    assert!(ReferendaEvent::decode("Submitted", Some(0), &too_long).is_err());
    let mut rejected = 41u32.to_le_bytes().to_vec();
    rejected.extend_from_slice(&1u128.to_le_bytes());
    rejected.extend_from_slice(&2u128.to_le_bytes());
    rejected.extend_from_slice(&3u128.to_le_bytes());
    assert_eq!(
        ReferendaEvent::decode("Rejected", None, &rejected).unwrap(),
        Some(ReferendaEvent::Rejected {
            extrinsic_index: None,
            referendum_index: 41,
            tally: Tally { ayes: 1, nays: 2, support: 3 },
        })
    );
}

#[test]
fn pallet_events_are_routed_by_pallet_name() {
    match decode_pallet_event(9430, "Utility", "BatchCompletedWithErrors", Some(5), &[]).unwrap() {
        Some(SubstrateEvent::Utility(e)) => assert_eq!(e.get_extrinsic_index(), Some(5)),
        other => panic!("unexpected {:?}", other),
    }
    let event = decode_pallet_event(9430, "System", "CodeUpdated", None, &[]).unwrap().unwrap();
    assert_eq!(event, SubstrateEvent::System(SystemEvent::CodeUpdated { extrinsic_index: None }));
    assert!(decode_pallet_event(9430, "Balances", "Transfer", None, &[]).unwrap().is_none());
    assert!(decode_pallet_event(9430, "Proxy", "ProxyExecuted", None, &[]).is_err());
}

#[test]
fn legacy_dispatch_errors_stand_for_current_ones() {
    assert_eq!(
        DispatchError::from(LegacyDispatchError::Module { index: 4, error: 9 }),
        DispatchError::Module(ModuleError { index: 4, error: [9, 0, 0, 0] })
    );
    assert_eq!(DispatchError::from(LegacyDispatchError::Token(TokenError::Frozen)), DispatchError::Token(TokenError::Frozen));
    assert_eq!(DispatchError::from(LegacyDispatchError::Other), DispatchError::Other);
    assert_eq!(
        decode_legacy_dispatch_error(&[3, 4, 9], 0).unwrap(),
        (LegacyDispatchError::Module { index: 4, error: 9 }, 3)
    );
    assert!(decode_legacy_dispatch_error(&[9, 0], 0).is_err());
    assert!(decode_legacy_dispatch_error(&[8, 3], 0).is_err());
}
