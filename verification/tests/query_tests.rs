use ledger_client::errors::{CallFailure, DecodeFailure, Error};
use ledger_client::hex32::Hash32;
use ledger_client::identifiers::{
    account_info_request, ancestors_request, AccountAddress, AccountIdentifier,
    AccountIdentifierInput, BlockHashInput, BlockIdentifier, CredentialRegistrationID,
};
use ledger_client::metadata::extract_metadata;
use ledger_client::queries::{
    decode_account_info, decode_finalized_block, next_sequence_number_response, require,
    require_owned, WireAccountInfo, WireFinalizedBlock, WireUpdateSequenceNumbers,
};
use ledger_client::streams::{
    account_list_response, ancestors_response, decode_finalized_stream, module_list_response,
};

fn hex_of(h: &Hash32) -> String {
    String::from_utf8(h.to_hex()).unwrap()
}

#[test]
fn hex_round_trip_lowercase() {
    let s = b"00112233445566778899aabbccddeeff00112233445566778899aabbccddeeff".to_vec();
    let h = Hash32::from_hex(&s).unwrap();
    assert_eq!(h.to_hex(), s);
}

#[test]
fn hex_round_trip_mixed_case() {
    let s = b"00112233445566778899AABBCCDDEEFF00112233445566778899aAbBcCdDeEfF".to_vec();
    let h = Hash32::from_hex(&s).unwrap();
    let lower = b"00112233445566778899aabbccddeeff00112233445566778899aabbccddeeff".to_vec();
    assert_eq!(h.to_hex(), lower);
}

#[test]
fn hex_decode_produces_bytes() {
    let s = b"ff00000000000000000000000000000000000000000000000000000000000001".to_vec();
    let h = Hash32::from_hex(&s).unwrap();
    let mut expected = vec![0u8; 32];
    expected[0] = 0xff;
    expected[31] = 0x01;
    assert_eq!(h.as_bytes(), &expected);
}

#[test]
fn hex_rejects_wrong_length_and_bad_digits() {
    assert!(Hash32::from_hex(&b"abcd".to_vec()).is_none());
    let bad = b"zz112233445566778899aabbccddeeff00112233445566778899aabbccddeeff".to_vec();
    assert!(Hash32::from_hex(&bad).is_none());
}

#[test]
fn hash_equality_compares_bytes() {
    let a = Hash32::from_bytes(vec![7u8; 32]).unwrap();
    let b = Hash32::from_bytes(vec![7u8; 32]).unwrap();
    let c = Hash32::from_bytes(vec![8u8; 32]).unwrap();
    assert!(a == b);
    assert!(a != c);
    assert!(Hash32::from_bytes(vec![1u8; 31]).is_none());
}

#[test]
fn metadata_missing_header_is_call_error() {
    let r = extract_metadata(None);
    assert_eq!(r.unwrap_err(), Error::Call(CallFailure::MissingMetadata));
}

#[test]
fn metadata_wrong_length_is_call_error() {
    let short = b"abcd".to_vec();
    let r = extract_metadata(Some(&short));
    let e = r.unwrap_err();
    assert!(e.is_call_error());
    assert_eq!(e, Error::Call(CallFailure::MissingMetadata));
    let long = vec![b'a'; 65];
    let r2 = extract_metadata(Some(&long));
    assert_eq!(r2.unwrap_err(), Error::Call(CallFailure::MissingMetadata));
}

#[test]
fn metadata_malformed_hex_is_surfaced_not_zeroed() {
    let mut v = vec![b'0'; 64];
    v[10] = b'g';
    let r = extract_metadata(Some(&v));
    assert_eq!(r.unwrap_err(), Error::Call(CallFailure::MalformedMetadata));
}

#[test]
fn metadata_valid_header_decodes() {
    let v = b"00112233445566778899aabbccddeeff00112233445566778899aabbccddeeff".to_vec();
    let h = extract_metadata(Some(&v)).unwrap();
    assert_eq!(hex_of(&h).into_bytes(), v);
}

#[test]
fn block_identifier_converts_to_each_arm() {
    assert!(matches!(BlockIdentifier::Best.into_request(), BlockHashInput::Best));
    assert!(matches!(BlockIdentifier::LastFinal.into_request(), BlockHashInput::LastFinal));
    let h = Hash32::from_bytes(vec![5u8; 32]).unwrap();
    match BlockIdentifier::Given(h).into_request() {
        BlockHashInput::Given(v) => assert_eq!(v, vec![5u8; 32]),
        _ => panic!("expected the given-hash arm"),
    }
}

#[test]
fn account_identifier_converts_to_each_arm() {
    let addr = AccountAddress::from_bytes(vec![9u8; 32]).unwrap();
    match AccountIdentifier::Address(addr).into_request() {
        AccountIdentifierInput::Address(v) => assert_eq!(v, vec![9u8; 32]),
        _ => panic!("expected the address arm"),
    }
    let cred = CredentialRegistrationID::from_bytes(vec![3u8; 48]).unwrap();
    match AccountIdentifier::CredId(cred).into_request() {
        AccountIdentifierInput::CredId(v) => assert_eq!(v, vec![3u8; 48]),
        _ => panic!("expected the credential arm"),
    }
    match AccountIdentifier::Index(42).into_request() {
        AccountIdentifierInput::AccountIndex(ix) => assert_eq!(ix, 42),
        _ => panic!("expected the index arm"),
    }
    assert!(AccountAddress::from_bytes(vec![9u8; 20]).is_none());
    assert!(CredentialRegistrationID::from_bytes(vec![3u8; 47]).is_none());
}

#[test]
fn request_shapes_fill_every_field() {
    let addr = AccountAddress::from_bytes(vec![9u8; 32]).unwrap();
    let acc = AccountIdentifier::Address(addr);
    let req = account_info_request(&acc, &BlockIdentifier::LastFinal);
    assert!(matches!(req.block_hash, Some(BlockHashInput::LastFinal)));
    assert!(matches!(req.account_identifier, Some(AccountIdentifierInput::Address(_))));
    let anc = ancestors_request(&BlockIdentifier::Best, 10);
    assert_eq!(anc.amount, 10);
    assert!(matches!(anc.block_hash, Some(BlockHashInput::Best)));
}

#[test]
fn require_makes_optional_fields_required() {
    assert_eq!(require_owned::<u64>(Some(5)).unwrap(), 5);
    assert_eq!(
        require_owned::<u64>(None).unwrap_err(),
        Error::Decode(DecodeFailure::MissingField)
    );
    assert_eq!(*require::<u64>(&Some(5)).unwrap(), 5);
    assert!(require::<u64>(&None).is_err());
}

#[test]
fn account_info_decodes_all_fields() {
    let w = WireAccountInfo {
        address: Some(vec![4u8; 32]),
        amount: Some(1000),
        sequence_number: Some(7),
        index: Some(19),
    };
    let info = decode_account_info(w).unwrap();
    assert_eq!(info.amount, 1000);
    assert_eq!(info.sequence_number, 7);
    assert_eq!(info.index, 19);
    assert_eq!(info.address.as_bytes(), &vec![4u8; 32]);
}

#[test]
fn account_info_missing_field_fails() {
    let w = WireAccountInfo {
        address: Some(vec![4u8; 32]),
        amount: None,
        sequence_number: Some(7),
        index: Some(19),
    };
    assert_eq!(
        decode_account_info(w).unwrap_err(),
        Error::Decode(DecodeFailure::MissingField)
    );
}

#[test]
fn account_info_bad_address_fails() {
    let w = WireAccountInfo {
        address: Some(vec![4u8; 31]),
        amount: Some(1),
        sequence_number: Some(1),
        index: Some(1),
    };
    assert_eq!(
        decode_account_info(w).unwrap_err(),
        Error::Decode(DecodeFailure::MalformedValue)
    );
}

#[test]
fn account_list_yields_items_in_order_with_one_envelope() {
    let header = b"00112233445566778899aabbccddeeff00112233445566778899aabbccddeeff".to_vec();
    let items = vec![vec![1u8; 32], vec![2u8; 32]];
    let q = account_list_response(Some(&header), &items).unwrap();
    assert_eq!(hex_of(&q.block_hash).into_bytes(), header);
    assert_eq!(q.response.len(), 2);
    assert_eq!(q.response[0].as_ref().unwrap().as_bytes(), &vec![1u8; 32]);
    assert_eq!(q.response[1].as_ref().unwrap().as_bytes(), &vec![2u8; 32]);
}

#[test]
fn account_list_without_header_fails_before_items() {
    let items = vec![vec![1u8; 32]];
    let r = account_list_response(None, &items);
    assert_eq!(r.unwrap_err(), Error::Call(CallFailure::MissingMetadata));
}

#[test]
fn stream_error_is_terminal() {
    let header = b"00112233445566778899aabbccddeeff00112233445566778899aabbccddeeff".to_vec();
    let items = vec![vec![1u8; 32], vec![2u8; 5], vec![3u8; 32]];
    let q = module_list_response(Some(&header), &items).unwrap();
    assert_eq!(q.response.len(), 2);
    assert!(q.response[0].is_ok());
    assert_eq!(
        *q.response[1].as_ref().unwrap_err(),
        Error::Decode(DecodeFailure::MalformedValue)
    );
}

#[test]
fn ancestors_returns_what_the_server_has() {
    let header = b"00112233445566778899aabbccddeeff00112233445566778899aabbccddeeff".to_vec();
    let items = vec![vec![1u8; 32], vec![2u8; 32], vec![3u8; 32]];
    let req = ancestors_request(&BlockIdentifier::Best, 10);
    assert_eq!(req.amount, 10);
    let q = ancestors_response(Some(&header), &items).unwrap();
    assert_eq!(q.response.len(), 3);
    for item in q.response.iter() {
        assert!(item.is_ok());
    }
}

#[test]
fn finalized_block_requires_both_fields() {
    let good = WireFinalizedBlock { hash: Some(vec![3u8; 32]), height: Some(77) };
    let info = decode_finalized_block(&good).unwrap();
    assert_eq!(info.height, 77);
    assert_eq!(info.block_hash.as_bytes(), &vec![3u8; 32]);

    let no_hash = WireFinalizedBlock { hash: None, height: Some(77) };
    assert_eq!(
        decode_finalized_block(&no_hash).unwrap_err(),
        Error::Decode(DecodeFailure::MissingField)
    );
    let no_height = WireFinalizedBlock { hash: Some(vec![3u8; 32]), height: None };
    assert_eq!(
        decode_finalized_block(&no_height).unwrap_err(),
        Error::Decode(DecodeFailure::MissingField)
    );
    let bad_hash = WireFinalizedBlock { hash: Some(vec![3u8; 30]), height: Some(1) };
    assert_eq!(
        decode_finalized_block(&bad_hash).unwrap_err(),
        Error::Decode(DecodeFailure::MalformedValue)
    );
}

#[test]
fn finalized_feed_ends_on_first_bad_item() {
    let items = vec![
        WireFinalizedBlock { hash: Some(vec![1u8; 32]), height: Some(10) },
        WireFinalizedBlock { hash: Some(vec![2u8; 32]), height: Some(11) },
        WireFinalizedBlock { hash: None, height: Some(12) },
        WireFinalizedBlock { hash: Some(vec![4u8; 32]), height: Some(13) },
    ];
    let out = decode_finalized_stream(&items);
    assert_eq!(out.len(), 3);
    assert_eq!(out[0].as_ref().unwrap().height, 10);
    assert_eq!(out[1].as_ref().unwrap().height, 11);
    assert!(out[2].is_err());
}

#[test]
fn next_sequence_number_is_required() {
    let header = b"00112233445566778899aabbccddeeff00112233445566778899aabbccddeeff".to_vec();
    let q = next_sequence_number_response(
        Some(&header),
        WireUpdateSequenceNumbers { micro_ccd_per_euro: Some(12) },
    )
    .unwrap();
    assert_eq!(q.response, 12);
    let r = next_sequence_number_response(
        Some(&header),
        WireUpdateSequenceNumbers { micro_ccd_per_euro: None },
    );
    assert_eq!(r.unwrap_err(), Error::Decode(DecodeFailure::MissingField));
}

#[test]
fn call_error_classification() {
    assert!(Error::Call(CallFailure::Rejected).is_call_error());
    assert!(!Error::Transport.is_call_error());
    assert!(!Error::InvalidKeys.is_call_error());
}
