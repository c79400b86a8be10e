use chainlink_feeds::abi;

/// The selector the ABI convention assigns to a signature, computed
/// independently of the library's own keccak use.
fn selector_of(sig: &str) -> [u8; 4] {
    let digest = alloy_primitives::keccak256(sig.as_bytes());
    [digest[0], digest[1], digest[2], digest[3]]
}

#[test]
fn latest_answer_selector_is_the_known_constant() {
    assert_eq!(abi::encode_latest_answer(), vec![0x50, 0xd2, 0x5b, 0xcd]);
}

#[test]
fn latest_round_data_selector_is_the_known_constant() {
    assert_eq!(abi::encode_latest_round_data(), vec![0xfe, 0xaf, 0x96, 0x8c]);
}

#[test]
fn decimals_selector_is_the_known_constant() {
    assert_eq!(abi::encode_decimals(), vec![0x31, 0x3c, 0xe5, 0x67]);
}

#[test]
fn every_parameterless_payload_is_its_signature_selector() {
    let cases: Vec<(Vec<u8>, &str)> = vec![
        (abi::encode_latest_answer(), "latestAnswer()"),
        (abi::encode_latest_round_data(), "latestRoundData()"),
        (
            abi::encode_proposed_latest_round_data(),
            "proposedLatestRoundData()",
        ),
        (abi::encode_aggregator(), "aggregator()"),
        (abi::encode_decimals(), "decimals()"),
        (abi::encode_description(), "description()"),
        (abi::encode_phase_id(), "phaseId()"),
    ];
    for (payload, sig) in cases {
        assert_eq!(payload.len(), 4);
        assert_eq!(payload, selector_of(sig).to_vec());
    }
}

#[test]
fn get_round_data_payload_is_selector_plus_padded_word() {
    let payload = abi::encode_get_round_data(5);
    assert_eq!(payload.len(), 36);
    assert_eq!(&payload[0..4], selector_of("getRoundData(uint80)"));
    let mut word = [0u8; 32];
    word[31] = 5;
    assert_eq!(&payload[4..36], word);
}

#[test]
fn proposed_get_round_data_payload_is_selector_plus_padded_word() {
    let payload = abi::encode_proposed_get_round_data(0x0102030405060708090a0b0c0d0e0f10);
    assert_eq!(payload.len(), 36);
    assert_eq!(
        &payload[0..4],
        selector_of("proposedGetRoundData(uint80)")
    );
    assert_eq!(&payload[4..20], [0u8; 16]);
    assert_eq!(
        &payload[20..36],
        [1, 2, 3, 4, 5, 6, 7, 8, 9, 10, 11, 12, 13, 14, 15, 16]
    );
}

#[test]
fn phase_aggregators_payload_is_selector_plus_padded_word() {
    let payload = abi::encode_phase_aggregators(0x0203);
    assert_eq!(payload.len(), 36);
    assert_eq!(&payload[0..4], selector_of("phaseAggregators(uint16)"));
    assert_eq!(&payload[4..30], [0u8; 26]);
    assert_eq!(&payload[30..36], [0, 0, 0, 0, 2, 3]);
}

#[test]
fn repeated_invocations_return_identical_payloads() {
    assert_eq!(abi::encode_latest_answer(), abi::encode_latest_answer());
    assert_eq!(
        abi::encode_get_round_data(77),
        abi::encode_get_round_data(77)
    );
    assert_eq!(
        abi::encode_phase_aggregators(3),
        abi::encode_phase_aggregators(3)
    );
}

#[test]
fn distinct_round_ids_give_distinct_payloads() {
    assert_ne!(abi::encode_get_round_data(5), abi::encode_get_round_data(6));
    assert_ne!(
        abi::encode_get_round_data(0),
        abi::encode_get_round_data(u128::MAX)
    );
    assert_ne!(
        abi::encode_proposed_get_round_data(1),
        abi::encode_proposed_get_round_data(2)
    );
}

#[test]
fn distinct_phase_ids_give_distinct_payloads() {
    assert_ne!(
        abi::encode_phase_aggregators(1),
        abi::encode_phase_aggregators(2)
    );
}

#[test]
fn distinct_methods_give_distinct_payloads() {
    assert_ne!(abi::encode_latest_answer(), abi::encode_latest_round_data());
    assert_ne!(
        abi::encode_get_round_data(5),
        abi::encode_proposed_get_round_data(5)
    );
}
