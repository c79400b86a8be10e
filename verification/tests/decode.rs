use chainlink_feeds::feeds::decode_record;
use chainlink_feeds::json::JsonNumber;
use chainlink_feeds::json::JsonValue;
use chainlink_feeds::ChainId;
use chainlink_feeds::LoadError;
use chainlink_feeds::OraclesIndex;

fn s(v: &str) -> JsonValue {
    JsonValue::Str(v.to_string())
}

fn obj(pairs: Vec<(&str, JsonValue)>) -> JsonValue {
    JsonValue::Object(
        pairs
            .into_iter()
            .map(|(k, v)| (k.to_string(), v))
            .collect(),
    )
}

/// A record carrying only the three required fields.
fn minimal(name: Option<&str>) -> JsonValue {
    let mut pairs = vec![
        ("history", JsonValue::Bool(false)),
        ("pair", JsonValue::Array(vec![])),
        ("docs", JsonValue::Object(vec![])),
    ];
    if let Some(n) = name {
        pairs.push(("name", s(n)));
    }
    obj(pairs)
}

#[test]
fn minimal_record_decodes_with_all_optionals_absent() {
    let rec = decode_record(minimal(None)).unwrap();
    assert_eq!(rec.history, false);
    assert!(rec.pair.is_empty());
    assert_eq!(rec.docs, JsonValue::Object(vec![]));
    assert_eq!(rec.name, None);
    assert_eq!(rec.contract_address, None);
    assert_eq!(rec.heartbeat, None);
    assert_eq!(rec.threshold, None);
    assert_eq!(rec.decimals, None);
}

#[test]
fn full_record_decodes_every_field() {
    let doc = obj(vec![
        ("compareOffchain", s("")),
        (
            "contractAddress",
            s("0x72AFAECF99C9d9C8215fF44C77B94B99C28741e8"),
        ),
        ("contractType", s("")),
        ("contractVersion", JsonValue::Number(JsonNumber::UInt(4))),
        ("decimalPlaces", JsonValue::Number(JsonNumber::UInt(9))),
        ("ens", s("1inch-eth")),
        ("formatDecimalPlaces", JsonValue::Number(JsonNumber::UInt(0))),
        ("healthPrice", s("")),
        ("heartbeat", JsonValue::Number(JsonNumber::UInt(86400))),
        ("history", JsonValue::Bool(true)),
        ("multiply", s("1000000000000000000")),
        ("name", s("1INCH / ETH")),
        ("pair", JsonValue::Array(vec![s("1INCH"), s("ETH")])),
        ("path", s("1inch-eth")),
        (
            "proxyAddress",
            s("0x72AFAECF99C9d9C8215fF44C77B94B99C28741e8"),
        ),
        ("threshold", JsonValue::Number(JsonNumber::Text("0.5".to_string()))),
        ("valuePrefix", s("")),
        ("assetName", s("1inch")),
        ("feedCategory", s("verified")),
        ("feedType", s("Crypto")),
        ("docs", JsonValue::Null),
        ("decimals", JsonValue::Number(JsonNumber::UInt(18))),
    ]);
    let rec = decode_record(doc).unwrap();
    assert_eq!(rec.contract_version, Some(4));
    assert_eq!(rec.decimal_places, Some(9));
    assert_eq!(rec.ens.as_deref(), Some("1inch-eth"));
    assert_eq!(rec.heartbeat, Some(86400));
    assert_eq!(rec.history, true);
    assert_eq!(rec.name.as_deref(), Some("1INCH / ETH"));
    assert_eq!(rec.pair, vec!["1INCH".to_string(), "ETH".to_string()]);
    assert_eq!(
        rec.threshold,
        Some(JsonNumber::Text("0.5".to_string()))
    );
    assert_eq!(rec.feed_category.as_deref(), Some("verified"));
    assert_eq!(rec.docs, JsonValue::Null);
    assert_eq!(rec.decimals, Some(18));
    let addr = rec.contract_address.unwrap();
    assert_eq!(
        addr.bytes,
        vec![
            0x72, 0xAF, 0xAE, 0xCF, 0x99, 0xC9, 0xD9, 0xC8, 0x21, 0x5F, 0xF4, 0x4C, 0x77, 0xB9,
            0x4B, 0x99, 0xC2, 0x87, 0x41, 0xE8
        ]
    );
    assert_eq!(rec.proxy_address.unwrap().bytes.len(), 20);
}

#[test]
fn missing_history_fails_the_whole_load() {
    let bad = obj(vec![
        ("pair", JsonValue::Array(vec![])),
        ("docs", JsonValue::Null),
    ]);
    let doc = JsonValue::Array(vec![minimal(Some("A / B")), bad, minimal(Some("C / D"))]);
    let r = OraclesIndex::from_document(ChainId(1), doc);
    assert_eq!(r.err(), Some(LoadError::Decode(1)));
}

#[test]
fn wrong_wire_type_fails_the_record() {
    let doc = obj(vec![
        ("history", s("yes")),
        ("pair", JsonValue::Array(vec![])),
        ("docs", JsonValue::Null),
    ]);
    assert!(decode_record(doc).is_err());
}

#[test]
fn null_history_is_not_a_boolean() {
    let doc = obj(vec![
        ("history", JsonValue::Null),
        ("pair", JsonValue::Array(vec![])),
        ("docs", JsonValue::Null),
    ]);
    assert!(decode_record(doc).is_err());
}

#[test]
fn missing_docs_fails_the_record() {
    let doc = obj(vec![
        ("history", JsonValue::Bool(true)),
        ("pair", JsonValue::Array(vec![])),
    ]);
    assert!(decode_record(doc).is_err());
}

#[test]
fn null_optional_field_counts_as_absent() {
    let doc = obj(vec![
        ("history", JsonValue::Bool(true)),
        ("pair", JsonValue::Array(vec![])),
        ("docs", JsonValue::Null),
        ("name", JsonValue::Null),
        ("heartbeat", JsonValue::Null),
    ]);
    let rec = decode_record(doc).unwrap();
    assert_eq!(rec.name, None);
    assert_eq!(rec.heartbeat, None);
}

#[test]
fn top_level_must_be_an_array() {
    let r = OraclesIndex::from_document(ChainId(1), minimal(None));
    assert_eq!(r.err(), Some(LoadError::Decode(0)));
}

#[test]
fn empty_directory_builds_an_empty_index() {
    let index = OraclesIndex::from_document(ChainId(1), JsonValue::Array(vec![])).unwrap();
    assert_eq!(index.chain, ChainId(1));
    assert!(index.feeds.is_empty());
}

#[test]
fn records_keep_document_order() {
    let doc = JsonValue::Array(vec![minimal(Some("A / B")), minimal(Some("C / D"))]);
    let index = OraclesIndex::from_document(ChainId(137), doc).unwrap();
    assert_eq!(index.feeds.len(), 2);
    assert_eq!(index.feeds[0].name.as_deref(), Some("A / B"));
    assert_eq!(index.feeds[1].name.as_deref(), Some("C / D"));
}

#[test]
fn repeated_key_keeps_the_last_occurrence() {
    let doc = obj(vec![
        ("history", JsonValue::Bool(true)),
        ("pair", JsonValue::Array(vec![])),
        ("docs", JsonValue::Null),
        ("name", s("FIRST / KEY")),
        ("name", s("LAST / KEY")),
    ]);
    let rec = decode_record(doc).unwrap();
    assert_eq!(rec.name.as_deref(), Some("LAST / KEY"));
}

#[test]
fn unknown_keys_are_ignored() {
    let doc = obj(vec![
        ("history", JsonValue::Bool(true)),
        ("pair", JsonValue::Array(vec![])),
        ("docs", JsonValue::Null),
        ("somethingElse", s("ignored")),
    ]);
    assert!(decode_record(doc).is_ok());
}

#[test]
fn malformed_address_fails_the_record() {
    let doc = obj(vec![
        ("history", JsonValue::Bool(true)),
        ("pair", JsonValue::Array(vec![])),
        ("docs", JsonValue::Null),
        ("contractAddress", s("0x1234")),
    ]);
    assert!(decode_record(doc).is_err());
}

#[test]
fn decimals_over_the_byte_range_fail() {
    let doc = obj(vec![
        ("history", JsonValue::Bool(true)),
        ("pair", JsonValue::Array(vec![])),
        ("docs", JsonValue::Null),
        ("decimals", JsonValue::Number(JsonNumber::UInt(256))),
    ]);
    assert!(decode_record(doc).is_err());
}

#[test]
fn negative_heartbeat_fails() {
    let doc = obj(vec![
        ("history", JsonValue::Bool(true)),
        ("pair", JsonValue::Array(vec![])),
        ("docs", JsonValue::Null),
        ("heartbeat", JsonValue::Number(JsonNumber::Int(-1))),
    ]);
    assert!(decode_record(doc).is_err());
}

#[test]
fn pair_with_a_non_string_element_fails() {
    let doc = obj(vec![
        ("history", JsonValue::Bool(true)),
        (
            "pair",
            JsonValue::Array(vec![s("ETH"), JsonValue::Number(JsonNumber::UInt(1))]),
        ),
        ("docs", JsonValue::Null),
    ]);
    assert!(decode_record(doc).is_err());
}

#[test]
fn pair_longer_than_two_is_kept() {
    let doc = obj(vec![
        ("history", JsonValue::Bool(true)),
        ("pair", JsonValue::Array(vec![s("A"), s("B"), s("C")])),
        ("docs", JsonValue::Null),
    ]);
    let rec = decode_record(doc).unwrap();
    assert_eq!(rec.pair.len(), 3);
}

#[test]
fn docs_subtree_is_kept_as_is() {
    let docs = obj(vec![
        ("assetClass", s("Crypto")),
        ("marketHours", s("Continuous")),
    ]);
    let expected = obj(vec![
        ("assetClass", s("Crypto")),
        ("marketHours", s("Continuous")),
    ]);
    let doc = obj(vec![
        ("history", JsonValue::Bool(true)),
        ("pair", JsonValue::Array(vec![])),
        ("docs", docs),
    ]);
    let rec = decode_record(doc).unwrap();
    assert_eq!(rec.docs, expected);
}
