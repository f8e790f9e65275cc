use ledger_client::errors::Error;
use ledger_client::hex32::Hash32;
use ledger_client::signer::{
    construct_update_signer, Authorization, SignCapability, UpdateKeyPair, UpdatePublicKey,
};
use ledger_client::status::{
    poll_deadline_passed, track_to_finality, StatusTracker, TransactionStatus,
};
use ledger_client::transaction::{
    update, update_sign_message, BlockItem, ExchangeRate, UpdatePayload,
};

/// A stand-in signature capability: tags the message with the first key
/// byte, so different keys visibly produce different signatures.
struct TaggingSigner;

impl SignCapability for TaggingSigner {
    fn sign(&self, key: &Vec<u8>, message: &Vec<u8>) -> Vec<u8> {
        let mut out = vec![key[0]];
        out.extend_from_slice(message);
        out
    }
}

fn authorization() -> Authorization {
    Authorization {
        keys: vec![
            UpdatePublicKey { index: 0, key: vec![10] },
            UpdatePublicKey { index: 1, key: vec![11] },
            UpdatePublicKey { index: 2, key: vec![12] },
        ],
        threshold: 2,
    }
}

#[test]
fn signer_holds_keys_sorted_ascending() {
    let kps = vec![
        UpdateKeyPair { index: 2, key: vec![22] },
        UpdateKeyPair { index: 0, key: vec![20] },
    ];
    let signer = construct_update_signer(&authorization(), kps).unwrap();
    let keys = signer.keys();
    assert_eq!(keys.len(), 2);
    assert_eq!(keys[0].index, 0);
    assert_eq!(keys[0].key, vec![20]);
    assert_eq!(keys[1].index, 2);
    assert_eq!(keys[1].key, vec![22]);
}

#[test]
fn signer_signs_once_per_index_ascending() {
    let kps = vec![
        UpdateKeyPair { index: 2, key: vec![22] },
        UpdateKeyPair { index: 0, key: vec![20] },
        UpdateKeyPair { index: 1, key: vec![21] },
    ];
    let signer = construct_update_signer(&authorization(), kps).unwrap();
    let sigs = signer.sign_message(&TaggingSigner, &vec![5, 6]);
    assert_eq!(sigs.len(), 3);
    assert_eq!(sigs[0].index, 0);
    assert_eq!(sigs[1].index, 1);
    assert_eq!(sigs[2].index, 2);
    assert_eq!(sigs[0].signature, vec![20, 5, 6]);
    assert_eq!(sigs[1].signature, vec![21, 5, 6]);
    assert_eq!(sigs[2].signature, vec![22, 5, 6]);
}

#[test]
fn too_few_keys_for_threshold_is_invalid() {
    let kps = vec![UpdateKeyPair { index: 0, key: vec![20] }];
    let r = construct_update_signer(&authorization(), kps);
    assert_eq!(r.unwrap_err(), Error::InvalidKeys);
}

#[test]
fn unauthorized_index_is_invalid() {
    let kps = vec![
        UpdateKeyPair { index: 0, key: vec![20] },
        UpdateKeyPair { index: 9, key: vec![29] },
    ];
    let r = construct_update_signer(&authorization(), kps);
    assert_eq!(r.unwrap_err(), Error::InvalidKeys);
}

#[test]
fn duplicate_index_is_rejected_at_construction() {
    let kps = vec![
        UpdateKeyPair { index: 1, key: vec![21] },
        UpdateKeyPair { index: 1, key: vec![99] },
    ];
    let r = construct_update_signer(&authorization(), kps);
    assert_eq!(r.unwrap_err(), Error::InvalidKeys);
}

#[test]
fn sign_message_bytes_are_exact() {
    let payload = UpdatePayload::MicroGtuPerEuro(ExchangeRate::new_unchecked(1, 1));
    let message = update_sign_message(5, 0, 1300, &payload);
    let mut expected: Vec<u8> = Vec::new();
    expected.extend_from_slice(&5u64.to_be_bytes());
    expected.extend_from_slice(&0u64.to_be_bytes());
    expected.extend_from_slice(&1300u64.to_be_bytes());
    expected.extend_from_slice(&17u64.to_be_bytes());
    expected.push(1);
    expected.extend_from_slice(&1u64.to_be_bytes());
    expected.extend_from_slice(&1u64.to_be_bytes());
    assert_eq!(message, expected);
}

#[test]
fn update_builder_takes_fields_over_unchanged() {
    let kps = vec![
        UpdateKeyPair { index: 0, key: vec![20] },
        UpdateKeyPair { index: 2, key: vec![22] },
    ];
    let signer = construct_update_signer(&authorization(), kps).unwrap();
    let payload = UpdatePayload::MicroGtuPerEuro(ExchangeRate::new_unchecked(1, 1));
    let instruction = update(&signer, &TaggingSigner, 5, 0, 1300, payload);
    assert_eq!(instruction.sequence_number, 5);
    assert_eq!(instruction.effective_time, 0);
    assert_eq!(instruction.timeout, 1300);
    match &instruction.payload {
        UpdatePayload::MicroGtuPerEuro(rate) => {
            assert_eq!(rate.numerator, 1);
            assert_eq!(rate.denominator, 1);
        }
    }
    assert_eq!(instruction.signatures.len(), 2);
    assert_eq!(instruction.signatures[0].index, 0);
    assert_eq!(instruction.signatures[1].index, 2);
    let item = BlockItem::from_update(instruction);
    assert!(matches!(item, BlockItem::Update(_)));
}

#[test]
fn tracker_starts_received_and_stops_at_finalization() {
    let block_a = Hash32::from_bytes(vec![0xAA; 32]).unwrap();
    let polls = vec![
        TransactionStatus::Received,
        TransactionStatus::Committed(vec![block_a.clone()]),
        TransactionStatus::Finalized(vec![block_a.clone()]),
        TransactionStatus::Received,
    ];
    let (tracker, used) = track_to_finality(polls);
    assert_eq!(used, 3);
    assert!(tracker.finished);
    match &tracker.current {
        TransactionStatus::Finalized(blocks) => {
            assert_eq!(blocks.len(), 1);
            assert!(blocks[0] == block_a);
        }
        _ => panic!("expected a finalized status"),
    }
}

#[test]
fn tracker_reports_intermediate_states() {
    let block_a = Hash32::from_bytes(vec![0xAA; 32]).unwrap();
    let block_b = Hash32::from_bytes(vec![0xBB; 32]).unwrap();
    let mut tracker = StatusTracker::start();
    assert!(matches!(tracker.current, TransactionStatus::Received));
    tracker.observe(TransactionStatus::Committed(vec![block_a.clone(), block_b.clone()]));
    assert!(!tracker.finished);
    match &tracker.current {
        TransactionStatus::Committed(blocks) => assert_eq!(blocks.len(), 2),
        _ => panic!("expected a committed status"),
    }
    tracker.observe(TransactionStatus::Finalized(vec![block_a.clone()]));
    assert!(tracker.finished);
    tracker.observe(TransactionStatus::Received);
    assert!(tracker.finished);
    assert!(matches!(tracker.current, TransactionStatus::Finalized(_)));
}

#[test]
fn tracker_without_finalization_consumes_every_poll() {
    let polls = vec![TransactionStatus::Received, TransactionStatus::Received];
    let (tracker, used) = track_to_finality(polls);
    assert_eq!(used, 2);
    assert!(!tracker.finished);
}

#[test]
fn end_to_end_rate_update_reaches_finality() {
    let summary = authorization();
    let kps = vec![
        UpdateKeyPair { index: 1, key: vec![21] },
        UpdateKeyPair { index: 0, key: vec![20] },
    ];
    let signer = construct_update_signer(&summary, kps).unwrap();
    let sequence_number = 3;
    let now = 1000;
    let expiry = now + 300;
    let payload = UpdatePayload::MicroGtuPerEuro(ExchangeRate::new_unchecked(1, 1));
    let instruction = update(&signer, &TaggingSigner, sequence_number, 0, expiry, payload);
    assert_eq!(instruction.signatures.len(), 2);
    let _item = BlockItem::from_update(instruction);

    let block_a = Hash32::from_bytes(vec![0xA1; 32]).unwrap();
    let polls = vec![
        TransactionStatus::Received,
        TransactionStatus::Committed(vec![block_a.clone()]),
        TransactionStatus::Finalized(vec![block_a.clone()]),
    ];
    let (tracker, used) = track_to_finality(polls);
    assert_eq!(used, 3);
    assert!(tracker.finished);
    match &tracker.current {
        TransactionStatus::Finalized(blocks) => {
            assert_eq!(blocks.len(), 1);
            assert!(blocks[0] == block_a);
        }
        _ => panic!("expected a finalized status"),
    }
    assert!(!poll_deadline_passed(now, expiry, 60));
}

#[test]
fn poll_deadline_is_expiry_plus_grace() {
    assert!(poll_deadline_passed(1361, 1300, 60));
    assert!(!poll_deadline_passed(1360, 1300, 60));
    assert!(!poll_deadline_passed(u64::MAX, u64::MAX, 1));
}
