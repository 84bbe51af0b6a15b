use subvt::app::{Notification, UserValidator};
use subvt::crypto::AccountId;
use subvt::error::DecodeError;
use subvt::identity::data_to_string;
use subvt::records::{all_valid, candidate_is_valid, OneKVValidity};

fn validity(is_valid: bool) -> OneKVValidity {
    OneKVValidity {
        id: "v".to_string(),
        details: String::new(),
        is_valid,
        ty: "IDENTITY".to_string(),
        updated_at: 1,
    }
}

#[test]
fn a_candidate_is_valid_only_when_checked_and_every_check_passed() {
    assert!(all_valid(&vec![]));
    assert!(all_valid(&vec![validity(true), validity(true)]));
    assert!(!all_valid(&vec![validity(true), validity(false)]));
    assert!(!candidate_is_valid(&None));
    assert!(candidate_is_valid(&Some(vec![])));
    assert!(candidate_is_valid(&Some(vec![validity(true)])));
    assert!(!candidate_is_valid(&Some(vec![validity(false), validity(true)])));
}

#[test]
fn identity_data_reads_raw_text_only() {
    // Tag 6: five raw bytes.
    let bytes = [6, b'h', b'e', b'l', b'l', b'o', 0];
    assert_eq!(data_to_string(&bytes, 0).unwrap(), (Some("hello".to_string()), 6));
    assert_eq!(data_to_string(&bytes, 6).unwrap(), (None, 7));
    // Raw bytes that are not UTF-8 give no text.
    assert_eq!(data_to_string(&[3, 0xFF, 0xFE], 0).unwrap(), (None, 3));
    // A hash (tag 34) skips 32 bytes.
    let mut hashed = vec![34];
    hashed.extend_from_slice(&[7; 32]);
    assert_eq!(data_to_string(&hashed, 0).unwrap(), (None, 33));
    assert!(data_to_string(&[38], 0).is_err());
    assert!(data_to_string(&[9, b'a'], 0).is_err());
}

#[test]
fn user_validator_rows_read_the_account() {
    let hex = format!("0x{}", "01".repeat(32));
    let v = UserValidator::from((4, 5, 6, hex)).unwrap();
    assert_eq!((v.id, v.user_id, v.network_id), (4, 5, 6));
    assert_eq!(v.validator_account_id, AccountId::new([1; 32]));
    assert!(UserValidator::from((4, 5, 6, "not an account".to_string())).is_err());
}

#[test]
fn notification_rows_convert() {
    let id = AccountId::new([4; 32]);
    let row = (
        1, 2, 3, 4, "immediate".to_string(), 0, Some(id.to_ss58_check_with_version(2)),
        Some("{}".to_string()), "chain_validator_offline".to_string(), 5, "telegram".to_string(),
        "12345".to_string(), None, Some("log".to_string()),
    );
    let n = Notification::from(row).unwrap();
    assert_eq!((n.id, n.user_id, n.user_notification_rule_id, n.network_id), (1, 2, 3, 4));
    assert_eq!(n.period_type, "immediate");
    assert_eq!(n.validator_account_id, Some(id));
    assert_eq!(n.notification_type_code, "chain_validator_offline");
    assert_eq!(n.user_notification_channel_id, 5);
    assert_eq!(n.notification_channel.name, "telegram");
    assert_eq!(n.notification_target, "12345");
    assert_eq!(n.data_json, None);
    assert_eq!(n.log, Some("log".to_string()));
    assert!(n.created_at.is_none() && n.read_at.is_none());
    let bad = (
        1, 2, 3, 4, "day".to_string(), 1, Some("nope".to_string()), None, "t".to_string(), 5,
        "email".to_string(), "a@b".to_string(), None, None,
    );
    assert!(Notification::from(bad).is_err());
    let none = (
        1, 2, 3, 4, "day".to_string(), 1, None, None, "t".to_string(), 5,
        "email".to_string(), "a@b".to_string(), None, None,
    );
    assert_eq!(Notification::from(none).unwrap().validator_account_id, None);
}

#[test]
fn account_texts_read_back() {
    let id = AccountId::new([9; 32]);
    assert_eq!(AccountId::from_str(&id.to_hex_string()).unwrap(), id);
    assert_eq!(AccountId::from_str(&hex::encode([0xab; 32])).unwrap(), AccountId::new([0xab; 32]));
    assert_eq!(AccountId::from_str(&format!("0x{}", hex::encode([0xcd; 32]))).unwrap(), AccountId::new([0xcd; 32]));
    assert!(AccountId::from_str(&"ab".repeat(31)).is_err());
    assert_eq!(AccountId::from_str(&id.to_ss58_check_with_version(2)).unwrap(), id);
    assert_eq!(AccountId::from_str(&id.to_ss58_check_with_version(0)).unwrap(), id);
    assert_eq!(AccountId::from_ss58_check(&id.to_ss58_check_with_version(42)).unwrap(), id);
    assert!(AccountId::from_ss58_check(&id.to_hex_string()).is_err());
    match AccountId::from_str("0x") {
        Err(DecodeError::Error(m)) => assert_eq!(m, "Invalid address or account id hex."),
        Ok(_) => panic!("an empty hex is no account"),
    }
}
