use chainlink_feeds::json::JsonNumber;
use chainlink_feeds::json::JsonValue;
use chainlink_feeds::ChainId;
use chainlink_feeds::OraclesIndex;

fn s(v: &str) -> JsonValue {
    JsonValue::Str(v.to_string())
}

fn record(name: Option<&str>, heartbeat: u64) -> JsonValue {
    let mut pairs = vec![
        ("history".to_string(), JsonValue::Bool(false)),
        ("pair".to_string(), JsonValue::Array(vec![])),
        ("docs".to_string(), JsonValue::Null),
        (
            "heartbeat".to_string(),
            JsonValue::Number(JsonNumber::UInt(heartbeat)),
        ),
    ];
    if let Some(n) = name {
        pairs.push(("name".to_string(), s(n)));
    }
    JsonValue::Object(pairs)
}

fn index(records: Vec<JsonValue>) -> OraclesIndex {
    OraclesIndex::from_document(ChainId(1), JsonValue::Array(records)).unwrap()
}

#[test]
fn lookup_finds_the_named_record() {
    let ix = index(vec![
        record(Some("AAVE / ETH"), 1),
        record(Some("1INCH / ETH"), 2),
    ]);
    let found = ix.get_oracle("1INCH", "ETH").unwrap();
    assert_eq!(found.name.as_deref(), Some("1INCH / ETH"));
    assert_eq!(found.heartbeat, Some(2));
}

#[test]
fn lookup_is_asymmetric() {
    let ix = index(vec![record(Some("1INCH / ETH"), 1)]);
    assert!(ix.get_oracle("1INCH", "ETH").is_some());
    assert!(ix.get_oracle("ETH", "1INCH").is_none());
}

#[test]
fn duplicate_names_return_the_first_in_document_order() {
    let ix = index(vec![
        record(Some("X / Y"), 10),
        record(Some("X / Y"), 20),
        record(Some("X / Y"), 30),
    ]);
    let found = ix.get_oracle("X", "Y").unwrap();
    assert_eq!(found.heartbeat, Some(10));
}

#[test]
fn records_without_a_name_never_match() {
    let ix = index(vec![record(None, 1), record(Some("X / Y"), 2)]);
    let found = ix.get_oracle("X", "Y").unwrap();
    assert_eq!(found.heartbeat, Some(2));
}

#[test]
fn lookup_is_case_sensitive() {
    let ix = index(vec![record(Some("eth / usd"), 1)]);
    assert!(ix.get_oracle("ETH", "USD").is_none());
    assert!(ix.get_oracle("eth", "usd").is_some());
}

#[test]
fn missing_pair_is_absence() {
    let ix = index(vec![record(Some("A / B"), 1)]);
    assert!(ix.get_oracle("C", "D").is_none());
}

#[test]
fn key_spacing_is_exact() {
    let ix = index(vec![record(Some("A/B"), 1), record(Some("A  /  B"), 2)]);
    assert!(ix.get_oracle("A", "B").is_none());
}
