use chainlink_feeds::catalog::Catalog;
use chainlink_feeds::ChainId;

#[test]
fn mainnet_1inch_eth_is_the_canonical_entry() {
    let catalog = Catalog::new();
    let oracle = catalog.get(ChainId(1), "1INCH", "ETH").unwrap();
    assert_eq!(
        oracle.address.bytes,
        vec![
            0x72, 0xAF, 0xAE, 0xCF, 0x99, 0xC9, 0xD9, 0xC8, 0x21, 0x5F, 0xF4, 0x4C, 0x77, 0xB9,
            0x4B, 0x99, 0xC2, 0x87, 0x41, 0xE8
        ]
    );
    assert_eq!(oracle.deviation, 200);
    assert_eq!(oracle.heartbeat, 86400);
    assert_eq!(oracle.decimals, 18);
}

#[test]
fn missing_pair_is_absence_not_an_error() {
    let catalog = Catalog::new();
    assert!(catalog.get(ChainId(1), "NONEXISTENT", "TOKEN").is_none());
}

#[test]
fn unknown_chain_is_absence() {
    let catalog = Catalog::new();
    assert!(catalog.get(ChainId(137), "ETH", "USD").is_none());
}

#[test]
fn eth_usd_is_present_with_the_known_address() {
    let catalog = Catalog::new();
    let oracle = catalog.get(ChainId(1), "ETH", "USD").unwrap();
    assert_eq!(
        oracle.address.bytes,
        vec![
            0x5F, 0x4E, 0xC3, 0xDF, 0x9C, 0xBD, 0x43, 0x71, 0x4F, 0xE2, 0x74, 0x0F, 0x5E, 0x36,
            0x16, 0x15, 0x5C, 0x5B, 0x84, 0x19
        ]
    );
    assert_eq!(oracle.decimals, 8);
}

#[test]
fn catalog_lookup_is_case_sensitive() {
    let catalog = Catalog::new();
    assert!(catalog.get(ChainId(1), "eth", "usd").is_none());
}

#[test]
fn token_and_base_are_not_interchangeable() {
    let catalog = Catalog::new();
    assert!(catalog.get(ChainId(1), "USD", "ETH").is_none());
}
