use chainlink_feeds::get_references_url;
use chainlink_feeds::ChainId;
use chainlink_feeds::ResolveError;

const SUPPORTED: [u64; 32] = [
    1, 11155111, 5, 56, 97, 137, 80001, 100, 43114, 43113, 250, 4002, 42161, 421614, 10, 11155420,
    420, 1285, 1284, 1088, 8453, 84531, 42220, 44787, 534352, 534351, 59144, 59140, 324, 300, 1101,
    1442,
];

#[test]
fn mainnet_url_is_exact() {
    assert_eq!(
        get_references_url(ChainId(1)),
        Ok("https://reference-data-directory.vercel.app/feeds-mainnet.json".to_string())
    );
}

#[test]
fn every_supported_chain_resolves_to_a_nonempty_url() {
    for id in SUPPORTED {
        let url = get_references_url(ChainId(id)).unwrap();
        assert!(!url.is_empty());
        assert!(url.starts_with("https://"));
        assert!(url.ends_with(".json"));
    }
}

#[test]
fn resolution_is_deterministic_across_repeated_calls() {
    for id in SUPPORTED {
        let first = get_references_url(ChainId(id));
        let second = get_references_url(ChainId(id));
        assert_eq!(first, second);
    }
}

#[test]
fn unsupported_chain_fails_and_never_yields_a_default() {
    for id in [0u64, 2, 3, 4, 6, 1111, 424242, u64::MAX] {
        assert_eq!(
            get_references_url(ChainId(id)),
            Err(ResolveError::UnsupportedChain)
        );
    }
}

#[test]
fn testnet_urls_differ_from_mainnet() {
    let mainnet = get_references_url(ChainId(1)).unwrap();
    let sepolia = get_references_url(ChainId(11155111)).unwrap();
    assert_ne!(mainnet, sepolia);
    assert!(sepolia.contains("sepolia"));
}
