//! Resolution of a chain to the URL of its feed-directory document.
//!
//! The supported set is a closed table; resolving any chain outside it
//! yields `ResolveError::UnsupportedChain` rather than a placeholder URL.

use vstd::prelude::*;
use crate::ChainId;
use crate::ResolveError;

verus! {

/// The feed-directory URL of each supported chain, `None` for any chain
/// outside the supported set.
pub open spec fn spec_references_url(chain: ChainId) -> Option<Seq<char>> {
    if chain.0 == 1 {
        Some("https://reference-data-directory.vercel.app/feeds-mainnet.json"@)
    } else if chain.0 == 11155111 {
        Some("https://reference-data-directory.vercel.app/feeds-ethereum-testnet-sepolia.json"@)
    } else if chain.0 == 5 {
        Some("https://reference-data-directory.vercel.app/feeds-goerli.json"@)
    } else if chain.0 == 56 {
        Some("https://reference-data-directory.vercel.app/feeds-bsc-mainnet.json"@)
    } else if chain.0 == 97 {
        Some("https://reference-data-directory.vercel.app/feeds-bsc-testnet.json"@)
    } else if chain.0 == 137 {
        Some("https://reference-data-directory.vercel.app/feeds-matic-mainnet.json"@)
    } else if chain.0 == 80001 {
        Some("https://reference-data-directory.vercel.app/feeds-matic-testnet.json"@)
    } else if chain.0 == 100 {
        Some("https://reference-data-directory.vercel.app/feeds-xdai-mainnet.json"@)
    } else if chain.0 == 43114 {
        Some("https://reference-data-directory.vercel.app/feeds-avalanche-mainnet.json"@)
    } else if chain.0 == 43113 {
        Some("https://reference-data-directory.vercel.app/feeds-avalanche-fuji-testnet.json"@)
    } else if chain.0 == 250 {
        Some("https://reference-data-directory.vercel.app/feeds-fantom-mainnet.json"@)
    } else if chain.0 == 4002 {
        Some("https://reference-data-directory.vercel.app/feeds-fantom-testnet.json"@)
    } else if chain.0 == 42161 {
        Some("https://reference-data-directory.vercel.app/feeds-ethereum-mainnet-arbitrum-1.json"@)
    } else if chain.0 == 421614 {
        Some(
            "https://reference-data-directory.vercel.app/feeds-ethereum-testnet-sepolia-arbitrum-1.json"@,
        )
    } else if chain.0 == 10 {
        Some("https://reference-data-directory.vercel.app/feeds-ethereum-mainnet-optimism-1.json"@)
    } else if chain.0 == 11155420 {
        Some(
            "https://reference-data-directory.vercel.app/feeds-ethereum-testnet-sepolia-optimism-1.json"@,
        )
    } else if chain.0 == 420 {
        Some(
            "https://reference-data-directory.vercel.app/feeds-ethereum-testnet-goerli-optimism-1.json"@,
        )
    } else if chain.0 == 1285 {
        Some("https://reference-data-directory.vercel.app/feeds-kusama-mainnet-moonriver.json"@)
    } else if chain.0 == 1284 {
        Some("https://reference-data-directory.vercel.app/feeds-polkadot-mainnet-moonbeam.json"@)
    } else if chain.0 == 1088 {
        Some("https://reference-data-directory.vercel.app/feeds-ethereum-mainnet-andromeda-1.json"@)
    } else if chain.0 == 8453 {
        Some("https://reference-data-directory.vercel.app/feeds-ethereum-mainnet-base-1.json"@)
    } else if chain.0 == 84531 {
        Some(
            "https://reference-data-directory.vercel.app/feeds-ethereum-testnet-goerli-base-1.json"@,
        )
    } else if chain.0 == 42220 {
        Some("https://reference-data-directory.vercel.app/feeds-celo-mainnet.json"@)
    } else if chain.0 == 44787 {
        Some("https://reference-data-directory.vercel.app/feeds-celo-testnet-alfajores.json"@)
    } else if chain.0 == 534352 {
        Some("https://reference-data-directory.vercel.app/feeds-ethereum-mainnet-scroll-1.json"@)
    } else if chain.0 == 534351 {
        Some(
            "https://reference-data-directory.vercel.app/feeds-ethereum-testnet-sepolia-scroll-1.json"@,
        )
    } else if chain.0 == 59144 {
        Some("https://reference-data-directory.vercel.app/feeds-ethereum-mainnet-linea-1.json"@)
    } else if chain.0 == 59140 {
        Some(
            "https://reference-data-directory.vercel.app/feeds-ethereum-testnet-goerli-linea-1.json"@,
        )
    } else if chain.0 == 324 {
        Some(
            "https://reference-data-directory-qy7u5hvya-chainlinklabs.vercel.app/feeds-ethereum-mainnet-zksync-1.json"@,
        )
    } else if chain.0 == 300 {
        Some(
            "https://reference-data-directory-qy7u5hvya-chainlinklabs.vercel.app/feeds-ethereum-testnet-goerli-zksync-1.json"@,
        )
    } else if chain.0 == 1101 {
        Some(
            "https://reference-data-directory-qy7u5hvya-chainlinklabs.vercel.app/feeds-ethereum-mainnet-polygon-zkevm-1.json"@,
        )
    } else if chain.0 == 1442 {
        Some(
            "https://reference-data-directory-qy7u5hvya-chainlinklabs.vercel.app/feeds-ethereum-testnet-goerli-polygon-zkevm-1.json"@,
        )
    } else {
        None
    }
}

/// Every chain in the supported set resolves to a non-empty URL.
pub proof fn lemma_supported_url_nonempty(chain: ChainId)
    requires
        spec_references_url(chain) is Some,
    ensures
        spec_references_url(chain).unwrap().len() > 0,
{
    reveal_strlit("https://reference-data-directory.vercel.app/feeds-mainnet.json");
    reveal_strlit("https://reference-data-directory.vercel.app/feeds-ethereum-testnet-sepolia.json");
    reveal_strlit("https://reference-data-directory.vercel.app/feeds-goerli.json");
    reveal_strlit("https://reference-data-directory.vercel.app/feeds-bsc-mainnet.json");
    reveal_strlit("https://reference-data-directory.vercel.app/feeds-bsc-testnet.json");
    reveal_strlit("https://reference-data-directory.vercel.app/feeds-matic-mainnet.json");
    reveal_strlit("https://reference-data-directory.vercel.app/feeds-matic-testnet.json");
    reveal_strlit("https://reference-data-directory.vercel.app/feeds-xdai-mainnet.json");
    reveal_strlit("https://reference-data-directory.vercel.app/feeds-avalanche-mainnet.json");
    reveal_strlit("https://reference-data-directory.vercel.app/feeds-avalanche-fuji-testnet.json");
    reveal_strlit("https://reference-data-directory.vercel.app/feeds-fantom-mainnet.json");
    reveal_strlit("https://reference-data-directory.vercel.app/feeds-fantom-testnet.json");
    reveal_strlit("https://reference-data-directory.vercel.app/feeds-ethereum-mainnet-arbitrum-1.json");
    reveal_strlit("https://reference-data-directory.vercel.app/feeds-ethereum-testnet-sepolia-arbitrum-1.json");
    reveal_strlit("https://reference-data-directory.vercel.app/feeds-ethereum-mainnet-optimism-1.json");
    reveal_strlit("https://reference-data-directory.vercel.app/feeds-ethereum-testnet-sepolia-optimism-1.json");
    reveal_strlit("https://reference-data-directory.vercel.app/feeds-ethereum-testnet-goerli-optimism-1.json");
    reveal_strlit("https://reference-data-directory.vercel.app/feeds-kusama-mainnet-moonriver.json");
    reveal_strlit("https://reference-data-directory.vercel.app/feeds-polkadot-mainnet-moonbeam.json");
    reveal_strlit("https://reference-data-directory.vercel.app/feeds-ethereum-mainnet-andromeda-1.json");
    reveal_strlit("https://reference-data-directory.vercel.app/feeds-ethereum-mainnet-base-1.json");
    reveal_strlit("https://reference-data-directory.vercel.app/feeds-ethereum-testnet-goerli-base-1.json");
    reveal_strlit("https://reference-data-directory.vercel.app/feeds-celo-mainnet.json");
    reveal_strlit("https://reference-data-directory.vercel.app/feeds-celo-testnet-alfajores.json");
    reveal_strlit("https://reference-data-directory.vercel.app/feeds-ethereum-mainnet-scroll-1.json");
    reveal_strlit("https://reference-data-directory.vercel.app/feeds-ethereum-testnet-sepolia-scroll-1.json");
    reveal_strlit("https://reference-data-directory.vercel.app/feeds-ethereum-mainnet-linea-1.json");
    reveal_strlit("https://reference-data-directory.vercel.app/feeds-ethereum-testnet-goerli-linea-1.json");
    reveal_strlit("https://reference-data-directory-qy7u5hvya-chainlinklabs.vercel.app/feeds-ethereum-mainnet-zksync-1.json");
    reveal_strlit("https://reference-data-directory-qy7u5hvya-chainlinklabs.vercel.app/feeds-ethereum-testnet-goerli-zksync-1.json");
    reveal_strlit("https://reference-data-directory-qy7u5hvya-chainlinklabs.vercel.app/feeds-ethereum-mainnet-polygon-zkevm-1.json");
    reveal_strlit("https://reference-data-directory-qy7u5hvya-chainlinklabs.vercel.app/feeds-ethereum-testnet-goerli-polygon-zkevm-1.json");
}

/// Resolution is deterministic: one chain has at most one URL, so two
/// resolutions of the same chain agree.
pub proof fn lemma_references_url_deterministic(chain: ChainId, u1: Seq<char>, u2: Seq<char>)
    requires
        spec_references_url(chain) == Some(u1),
        spec_references_url(chain) == Some(u2),
    ensures
        u1 == u2,
{
}

/// Resolves a chain to the URL of its feed-directory document.
///
/// Total and deterministic: a supported chain always yields the one URL
/// that `spec_references_url` gives it, and any other chain yields
/// `UnsupportedChain`, never a default or empty URL.
pub fn get_references_url(chain: ChainId) -> (r: Result<String, ResolveError>)
    ensures
        (r is Ok) == (spec_references_url(chain) is Some),
        r matches Ok(url) ==> spec_references_url(chain) == Some(url@),
        r matches Err(e) ==> e == ResolveError::UnsupportedChain,
{
    match chain.0 {
        1u64 => Ok("https://reference-data-directory.vercel.app/feeds-mainnet.json".to_owned()),
        11155111u64 => Ok(
            "https://reference-data-directory.vercel.app/feeds-ethereum-testnet-sepolia.json".to_owned(),
        ),
        5u64 => Ok("https://reference-data-directory.vercel.app/feeds-goerli.json".to_owned()),
        56u64 => Ok("https://reference-data-directory.vercel.app/feeds-bsc-mainnet.json".to_owned()),
        97u64 => Ok("https://reference-data-directory.vercel.app/feeds-bsc-testnet.json".to_owned()),
        137u64 => Ok(
            "https://reference-data-directory.vercel.app/feeds-matic-mainnet.json".to_owned(),
        ),
        80001u64 => Ok(
            "https://reference-data-directory.vercel.app/feeds-matic-testnet.json".to_owned(),
        ),
        100u64 => Ok(
            "https://reference-data-directory.vercel.app/feeds-xdai-mainnet.json".to_owned(),
        ),
        43114u64 => Ok(
            "https://reference-data-directory.vercel.app/feeds-avalanche-mainnet.json".to_owned(),
        ),
        43113u64 => Ok(
            "https://reference-data-directory.vercel.app/feeds-avalanche-fuji-testnet.json".to_owned(),
        ),
        250u64 => Ok(
            "https://reference-data-directory.vercel.app/feeds-fantom-mainnet.json".to_owned(),
        ),
        4002u64 => Ok(
            "https://reference-data-directory.vercel.app/feeds-fantom-testnet.json".to_owned(),
        ),
        42161u64 => Ok(
            "https://reference-data-directory.vercel.app/feeds-ethereum-mainnet-arbitrum-1.json".to_owned(),
        ),
        421614u64 => Ok(
            "https://reference-data-directory.vercel.app/feeds-ethereum-testnet-sepolia-arbitrum-1.json".to_owned(),
        ),
        10u64 => Ok(
            "https://reference-data-directory.vercel.app/feeds-ethereum-mainnet-optimism-1.json".to_owned(),
        ),
        11155420u64 => Ok(
            "https://reference-data-directory.vercel.app/feeds-ethereum-testnet-sepolia-optimism-1.json".to_owned(),
        ),
        420u64 => Ok(
            "https://reference-data-directory.vercel.app/feeds-ethereum-testnet-goerli-optimism-1.json".to_owned(),
        ),
        1285u64 => Ok(
            "https://reference-data-directory.vercel.app/feeds-kusama-mainnet-moonriver.json".to_owned(),
        ),
        1284u64 => Ok(
            "https://reference-data-directory.vercel.app/feeds-polkadot-mainnet-moonbeam.json".to_owned(),
        ),
        1088u64 => Ok(
            "https://reference-data-directory.vercel.app/feeds-ethereum-mainnet-andromeda-1.json".to_owned(),
        ),
        8453u64 => Ok(
            "https://reference-data-directory.vercel.app/feeds-ethereum-mainnet-base-1.json".to_owned(),
        ),
        84531u64 => Ok(
            "https://reference-data-directory.vercel.app/feeds-ethereum-testnet-goerli-base-1.json".to_owned(),
        ),
        42220u64 => Ok(
            "https://reference-data-directory.vercel.app/feeds-celo-mainnet.json".to_owned(),
        ),
        44787u64 => Ok(
            "https://reference-data-directory.vercel.app/feeds-celo-testnet-alfajores.json".to_owned(),
        ),
        534352u64 => Ok(
            "https://reference-data-directory.vercel.app/feeds-ethereum-mainnet-scroll-1.json".to_owned(),
        ),
        534351u64 => Ok(
            "https://reference-data-directory.vercel.app/feeds-ethereum-testnet-sepolia-scroll-1.json".to_owned(),
        ),
        59144u64 => Ok(
            "https://reference-data-directory.vercel.app/feeds-ethereum-mainnet-linea-1.json".to_owned(),
        ),
        59140u64 => Ok(
            "https://reference-data-directory.vercel.app/feeds-ethereum-testnet-goerli-linea-1.json".to_owned(),
        ),
        324u64 => Ok(
            "https://reference-data-directory-qy7u5hvya-chainlinklabs.vercel.app/feeds-ethereum-mainnet-zksync-1.json".to_owned(),
        ),
        300u64 => Ok(
            "https://reference-data-directory-qy7u5hvya-chainlinklabs.vercel.app/feeds-ethereum-testnet-goerli-zksync-1.json".to_owned(),
        ),
        1101u64 => Ok(
            "https://reference-data-directory-qy7u5hvya-chainlinklabs.vercel.app/feeds-ethereum-mainnet-polygon-zkevm-1.json".to_owned(),
        ),
        1442u64 => Ok(
            "https://reference-data-directory-qy7u5hvya-chainlinklabs.vercel.app/feeds-ethereum-testnet-goerli-polygon-zkevm-1.json".to_owned(),
        ),
        _ => Err(ResolveError::UnsupportedChain),
    }
}

} // verus!
