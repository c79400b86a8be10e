//! The static oracle catalog: a hand-curated, immutable mapping from
//! (chain, token, base) to a normalized oracle identity, independent of
//! the live directory and usable as a fallback or bootstrap dataset.
//!
//! The rows are advisory — they may drift from on-chain truth — and the
//! deviation values are in basis points. Build the catalog once and share
//! it read-only; nothing here mutates it after construction.

use vstd::prelude::*;
use crate::address::Address;
use crate::feeds::str_eq;
use crate::ChainId;

verus! {

/// The normalized, minimal identity of one oracle-proxy contract: all the
/// call encoder's callers need. Deviation is the update threshold in
/// basis points, heartbeat the maximum update interval in seconds,
/// decimals the precision of the answers.
#[derive(Debug, PartialEq)]
pub struct Oracle {
    pub address: Address,
    pub deviation: u32,
    pub heartbeat: u32,
    pub decimals: u8,
}

/// The mathematical model of a catalog oracle: the address as its bytes.
pub struct OracleModel {
    pub address: Seq<u8>,
    pub deviation: u32,
    pub heartbeat: u32,
    pub decimals: u8,
}

impl View for Oracle {
    type V = OracleModel;

    open spec fn view(&self) -> OracleModel {
        OracleModel {
            address: self.address@,
            deviation: self.deviation,
            heartbeat: self.heartbeat,
            decimals: self.decimals,
        }
    }
}

impl DeepView for Oracle {
    type V = OracleModel;

    open spec fn deep_view(&self) -> OracleModel {
        self.view()
    }
}

/// One catalog row: a lookup key and the oracle it names.
#[derive(Debug)]
pub struct Entry {
    pub chain: ChainId,
    pub token: String,
    pub base: String,
    pub oracle: Oracle,
}

/// The mathematical model of a catalog row.
pub struct EntryModel {
    pub chain: ChainId,
    pub token: Seq<char>,
    pub base: Seq<char>,
    pub oracle: OracleModel,
}

impl View for Entry {
    type V = EntryModel;

    open spec fn view(&self) -> EntryModel {
        EntryModel {
            chain: self.chain,
            token: self.token@,
            base: self.base@,
            oracle: self.oracle@,
        }
    }
}

impl DeepView for Entry {
    type V = EntryModel;

    open spec fn deep_view(&self) -> EntryModel {
        self.view()
    }
}

pub open spec fn model_1inch_eth() -> EntryModel {
    EntryModel {
        chain: ChainId(1),
        token: "1INCH"@,
        base: "ETH"@,
        oracle: OracleModel {
            address: seq![
                0x72u8, 0xAFu8, 0xAEu8, 0xCFu8, 0x99u8, 0xC9u8, 0xD9u8, 0xC8u8, 0x21u8, 0x5Fu8,
                0xF4u8, 0x4Cu8, 0x77u8, 0xB9u8, 0x4Bu8, 0x99u8, 0xC2u8, 0x87u8, 0x41u8, 0xE8u8,
            ],
            deviation: 200,
            heartbeat: 86400,
            decimals: 18,
        },
    }
}

pub open spec fn model_1inch_usd() -> EntryModel {
    EntryModel {
        chain: ChainId(1),
        token: "1INCH"@,
        base: "USD"@,
        oracle: OracleModel {
            address: seq![
                0xC9u8, 0x29u8, 0xADu8, 0x75u8, 0xB7u8, 0x25u8, 0x93u8, 0x96u8, 0x7Du8, 0xE8u8,
                0x3Eu8, 0x7Fu8, 0x7Cu8, 0xDAu8, 0x04u8, 0x93u8, 0x45u8, 0x82u8, 0x61u8, 0xD9u8,
            ],
            deviation: 100,
            heartbeat: 86400,
            decimals: 8,
        },
    }
}

pub open spec fn model_eth_usd() -> EntryModel {
    EntryModel {
        chain: ChainId(1),
        token: "ETH"@,
        base: "USD"@,
        oracle: OracleModel {
            address: seq![
                0x5Fu8, 0x4Eu8, 0xC3u8, 0xDFu8, 0x9Cu8, 0xBDu8, 0x43u8, 0x71u8, 0x4Fu8, 0xE2u8,
                0x74u8, 0x0Fu8, 0x5Eu8, 0x36u8, 0x16u8, 0x15u8, 0x5Cu8, 0x5Bu8, 0x84u8, 0x19u8,
            ],
            deviation: 50,
            heartbeat: 3600,
            decimals: 8,
        },
    }
}

pub open spec fn model_btc_usd() -> EntryModel {
    EntryModel {
        chain: ChainId(1),
        token: "BTC"@,
        base: "USD"@,
        oracle: OracleModel {
            address: seq![
                0xF4u8, 0x03u8, 0x00u8, 0x86u8, 0x52u8, 0x2Au8, 0x5Bu8, 0xEEu8, 0xA4u8, 0x98u8,
                0x8Fu8, 0x8Cu8, 0xA5u8, 0xB3u8, 0x6Du8, 0xBCu8, 0x97u8, 0xBCu8, 0xE8u8, 0x8Cu8,
            ],
            deviation: 50,
            heartbeat: 3600,
            decimals: 8,
        },
    }
}

pub open spec fn model_link_usd() -> EntryModel {
    EntryModel {
        chain: ChainId(1),
        token: "LINK"@,
        base: "USD"@,
        oracle: OracleModel {
            address: seq![
                0x2Cu8, 0x1Du8, 0x07u8, 0x2Eu8, 0x95u8, 0x6Au8, 0xFFu8, 0xC0u8, 0xD4u8, 0x35u8,
                0xCBu8, 0x7Au8, 0xC3u8, 0x8Eu8, 0xF1u8, 0x8Du8, 0x24u8, 0xD9u8, 0x12u8, 0x7Cu8,
            ],
            deviation: 100,
            heartbeat: 3600,
            decimals: 8,
        },
    }
}

pub open spec fn model_dai_usd() -> EntryModel {
    EntryModel {
        chain: ChainId(1),
        token: "DAI"@,
        base: "USD"@,
        oracle: OracleModel {
            address: seq![
                0xAEu8, 0xD0u8, 0xC3u8, 0x84u8, 0x02u8, 0xA5u8, 0xD1u8, 0x9Du8, 0xF6u8, 0xE4u8,
                0xC0u8, 0x3Fu8, 0x4Eu8, 0x2Du8, 0xCEu8, 0xD6u8, 0xE2u8, 0x9Cu8, 0x1Eu8, 0xE9u8,
            ],
            deviation: 100,
            heartbeat: 3600,
            decimals: 8,
        },
    }
}

pub open spec fn model_usdc_usd() -> EntryModel {
    EntryModel {
        chain: ChainId(1),
        token: "USDC"@,
        base: "USD"@,
        oracle: OracleModel {
            address: seq![
                0x8Fu8, 0xFFu8, 0xFFu8, 0xD4u8, 0xAFu8, 0xB6u8, 0x11u8, 0x5Bu8, 0x95u8, 0x4Bu8,
                0xD3u8, 0x26u8, 0xCBu8, 0xE7u8, 0xB4u8, 0xBAu8, 0x57u8, 0x68u8, 0x18u8, 0xF6u8,
            ],
            deviation: 25,
            heartbeat: 86400,
            decimals: 8,
        },
    }
}

pub open spec fn model_aave_eth() -> EntryModel {
    EntryModel {
        chain: ChainId(1),
        token: "AAVE"@,
        base: "ETH"@,
        oracle: OracleModel {
            address: seq![
                0x6Du8, 0xF0u8, 0x9Eu8, 0x97u8, 0x5Cu8, 0x83u8, 0x0Eu8, 0xCAu8, 0xE5u8, 0xBDu8,
                0x4Eu8, 0xD9u8, 0xD9u8, 0x0Fu8, 0x3Au8, 0x95u8, 0xA4u8, 0xF8u8, 0x80u8, 0x12u8,
            ],
            deviation: 200,
            heartbeat: 86400,
            decimals: 18,
        },
    }
}

/// The rows of the catalog, in their fixed order.
pub open spec fn spec_catalog() -> Seq<EntryModel> {
    seq![
        model_1inch_eth(),
        model_1inch_usd(),
        model_eth_usd(),
        model_btc_usd(),
        model_link_usd(),
        model_dai_usd(),
        model_usdc_usd(),
        model_aave_eth(),
    ]
}

/// The position of the first row keyed (chain, token, base).
pub open spec fn spec_catalog_match(
    rows: Seq<EntryModel>,
    chain: ChainId,
    token: Seq<char>,
    base: Seq<char>,
) -> Option<int>
    decreases rows.len(),
{
    if rows.len() == 0 {
        None
    } else if rows[0].chain == chain && rows[0].token == token && rows[0].base == base {
        Some(0)
    } else {
        match spec_catalog_match(rows.skip(1), chain, token, base) {
            Some(i) => Some(i + 1),
            None => None,
        }
    }
}

proof fn lemma_catalog_match_found(
    rows: Seq<EntryModel>,
    chain: ChainId,
    token: Seq<char>,
    base: Seq<char>,
    i: int,
)
    requires
        0 <= i < rows.len(),
        rows[i].chain == chain && rows[i].token == token && rows[i].base == base,
        forall|j: int|
            0 <= j < i ==> !((#[trigger] rows[j]).chain == chain && rows[j].token == token
                && rows[j].base == base),
    ensures
        spec_catalog_match(rows, chain, token, base) == Some(i),
    decreases i,
{
    if i == 0 {
    } else {
        assert(rows.skip(1)[i - 1] == rows[i]);
        assert(forall|j: int| 0 <= j < i - 1 ==> (#[trigger] rows.skip(1)[j]) == rows[j + 1]);
        lemma_catalog_match_found(rows.skip(1), chain, token, base, i - 1);
    }
}

proof fn lemma_catalog_match_none(
    rows: Seq<EntryModel>,
    chain: ChainId,
    token: Seq<char>,
    base: Seq<char>,
)
    requires
        forall|j: int|
            0 <= j < rows.len() ==> !((#[trigger] rows[j]).chain == chain && rows[j].token == token
                && rows[j].base == base),
    ensures
        spec_catalog_match(rows, chain, token, base) is None,
    decreases rows.len(),
{
    if rows.len() == 0 {
    } else {
        assert(forall|j: int|
            0 <= j < rows.skip(1).len() ==> (#[trigger] rows.skip(1)[j]) == rows[j + 1]);
        lemma_catalog_match_none(rows.skip(1), chain, token, base);
    }
}

/// The catalog itself: the fixed rows, built once and then read-only.
#[derive(Debug)]
pub struct Catalog {
    pub entries: Vec<Entry>,
}

fn mk_entry(
    chain: u64,
    token: &str,
    base: &str,
    address: Vec<u8>,
    deviation: u32,
    heartbeat: u32,
    decimals: u8,
) -> (e: Entry)
    ensures
        e@ == (EntryModel {
            chain: ChainId(chain),
            token: token@,
            base: base@,
            oracle: OracleModel { address: address@, deviation, heartbeat, decimals },
        }),
{
    Entry {
        chain: ChainId(chain),
        token: token.to_owned(),
        base: base.to_owned(),
        oracle: Oracle { address: Address { bytes: address }, deviation, heartbeat, decimals },
    }
}

impl Catalog {
    /// Builds the catalog's fixed rows. Build it once — behind one-time
    /// initialization if shared — and read it from anywhere; it never
    /// changes afterwards.
    pub fn new() -> (c: Catalog)
        ensures
            c.entries.deep_view() == spec_catalog(),
    {
        let mut entries: Vec<Entry> = Vec::new();
        entries.push(
            mk_entry(
                1,
                "1INCH",
                "ETH",
                vec![
                    0x72u8, 0xAFu8, 0xAEu8, 0xCFu8, 0x99u8, 0xC9u8, 0xD9u8, 0xC8u8, 0x21u8, 0x5Fu8,
                    0xF4u8, 0x4Cu8, 0x77u8, 0xB9u8, 0x4Bu8, 0x99u8, 0xC2u8, 0x87u8, 0x41u8, 0xE8u8,
                ],
                200,
                86400,
                18,
            ),
        );
        entries.push(
            mk_entry(
                1,
                "1INCH",
                "USD",
                vec![
                    0xC9u8, 0x29u8, 0xADu8, 0x75u8, 0xB7u8, 0x25u8, 0x93u8, 0x96u8, 0x7Du8, 0xE8u8,
                    0x3Eu8, 0x7Fu8, 0x7Cu8, 0xDAu8, 0x04u8, 0x93u8, 0x45u8, 0x82u8, 0x61u8, 0xD9u8,
                ],
                100,
                86400,
                8,
            ),
        );
        entries.push(
            mk_entry(
                1,
                "ETH",
                "USD",
                vec![
                    0x5Fu8, 0x4Eu8, 0xC3u8, 0xDFu8, 0x9Cu8, 0xBDu8, 0x43u8, 0x71u8, 0x4Fu8, 0xE2u8,
                    0x74u8, 0x0Fu8, 0x5Eu8, 0x36u8, 0x16u8, 0x15u8, 0x5Cu8, 0x5Bu8, 0x84u8, 0x19u8,
                ],
                50,
                3600,
                8,
            ),
        );
        entries.push(
            mk_entry(
                1,
                "BTC",
                "USD",
                vec![
                    0xF4u8, 0x03u8, 0x00u8, 0x86u8, 0x52u8, 0x2Au8, 0x5Bu8, 0xEEu8, 0xA4u8, 0x98u8,
                    0x8Fu8, 0x8Cu8, 0xA5u8, 0xB3u8, 0x6Du8, 0xBCu8, 0x97u8, 0xBCu8, 0xE8u8, 0x8Cu8,
                ],
                50,
                3600,
                8,
            ),
        );
        entries.push(
            mk_entry(
                1,
                "LINK",
                "USD",
                vec![
                    0x2Cu8, 0x1Du8, 0x07u8, 0x2Eu8, 0x95u8, 0x6Au8, 0xFFu8, 0xC0u8, 0xD4u8, 0x35u8,
                    0xCBu8, 0x7Au8, 0xC3u8, 0x8Eu8, 0xF1u8, 0x8Du8, 0x24u8, 0xD9u8, 0x12u8, 0x7Cu8,
                ],
                100,
                3600,
                8,
            ),
        );
        entries.push(
            mk_entry(
                1,
                "DAI",
                "USD",
                vec![
                    0xAEu8, 0xD0u8, 0xC3u8, 0x84u8, 0x02u8, 0xA5u8, 0xD1u8, 0x9Du8, 0xF6u8, 0xE4u8,
                    0xC0u8, 0x3Fu8, 0x4Eu8, 0x2Du8, 0xCEu8, 0xD6u8, 0xE2u8, 0x9Cu8, 0x1Eu8, 0xE9u8,
                ],
                100,
                3600,
                8,
            ),
        );
        entries.push(
            mk_entry(
                1,
                "USDC",
                "USD",
                vec![
                    0x8Fu8, 0xFFu8, 0xFFu8, 0xD4u8, 0xAFu8, 0xB6u8, 0x11u8, 0x5Bu8, 0x95u8, 0x4Bu8,
                    0xD3u8, 0x26u8, 0xCBu8, 0xE7u8, 0xB4u8, 0xBAu8, 0x57u8, 0x68u8, 0x18u8, 0xF6u8,
                ],
                25,
                86400,
                8,
            ),
        );
        entries.push(
            mk_entry(
                1,
                "AAVE",
                "ETH",
                vec![
                    0x6Du8, 0xF0u8, 0x9Eu8, 0x97u8, 0x5Cu8, 0x83u8, 0x0Eu8, 0xCAu8, 0xE5u8, 0xBDu8,
                    0x4Eu8, 0xD9u8, 0xD9u8, 0x0Fu8, 0x3Au8, 0x95u8, 0xA4u8, 0xF8u8, 0x80u8, 0x12u8,
                ],
                200,
                86400,
                18,
            ),
        );
        proof {
            assert(entries.deep_view() =~= spec_catalog()) by {
                assert(entries.deep_view().len() == 8);
                assert(entries.deep_view()[0] == model_1inch_eth());
                assert(entries.deep_view()[1] == model_1inch_usd());
                assert(entries.deep_view()[2] == model_eth_usd());
                assert(entries.deep_view()[3] == model_btc_usd());
                assert(entries.deep_view()[4] == model_link_usd());
                assert(entries.deep_view()[5] == model_dai_usd());
                assert(entries.deep_view()[6] == model_usdc_usd());
                assert(entries.deep_view()[7] == model_aave_eth());
            }
        }
        Catalog { entries }
    }

    /// Looks an oracle up by chain, token symbol and base symbol,
    /// case-sensitively. Absence of a row is an ordinary outcome, never
    /// an error.
    pub fn get(&self, chain: ChainId, token: &str, base: &str) -> (r: Option<&Oracle>)
        ensures
            ({
                let rows = self.entries.deep_view();
                match r {
                    Some(o) => spec_catalog_match(rows, chain, token@, base@) matches Some(i) && *o
                        == self.entries@[i].oracle,
                    None => spec_catalog_match(rows, chain, token@, base@) is None,
                }
            }),
    {
        let mut i: usize = 0;
        while i < self.entries.len()
            invariant
                i <= self.entries@.len(),
                forall|j: int|
                    0 <= j < i ==> !((#[trigger] self.entries.deep_view()[j]).chain == chain
                        && self.entries.deep_view()[j].token == token@
                        && self.entries.deep_view()[j].base == base@),
            decreases self.entries@.len() - i,
        {
            let e = &self.entries[i];
            if e.chain == chain && str_eq(&e.token, token) && str_eq(&e.base, base) {
                proof {
                    lemma_catalog_match_found(
                        self.entries.deep_view(),
                        chain,
                        token@,
                        base@,
                        i as int,
                    );
                }
                return Some(&e.oracle);
            }
            proof {
                assert(!((self.entries.deep_view()[i as int]).chain == chain
                    && self.entries.deep_view()[i as int].token == token@
                    && self.entries.deep_view()[i as int].base == base@));
            }
            i = i + 1;
        }
        proof {
            lemma_catalog_match_none(self.entries.deep_view(), chain, token@, base@);
        }
        None
    }
}

/// Catalog keys are unique: no two rows share (chain, token, base), so
/// the rows have mapping semantics.
pub proof fn lemma_catalog_keys_unique()
    ensures
        forall|i: int, j: int|
            0 <= i < j < spec_catalog().len() ==> !((#[trigger] spec_catalog()[i]).chain == (
            #[trigger] spec_catalog()[j]).chain && spec_catalog()[i].token == spec_catalog()[j].token
                && spec_catalog()[i].base == spec_catalog()[j].base),
{
    reveal_strlit("1INCH");
    reveal_strlit("ETH");
    reveal_strlit("USD");
    reveal_strlit("BTC");
    reveal_strlit("LINK");
    reveal_strlit("DAI");
    reveal_strlit("USDC");
    reveal_strlit("AAVE");
    assert("1INCH"@ != "ETH"@) by {
        assert("1INCH"@.len() == 5);
        assert("ETH"@.len() == 3);
    }
    assert("1INCH"@ != "BTC"@) by {
        assert("1INCH"@.len() == 5);
        assert("BTC"@.len() == 3);
    }
    assert("1INCH"@ != "LINK"@) by {
        assert("1INCH"@.len() == 5);
        assert("LINK"@.len() == 4);
    }
    assert("1INCH"@ != "DAI"@) by {
        assert("1INCH"@.len() == 5);
        assert("DAI"@.len() == 3);
    }
    assert("1INCH"@ != "USDC"@) by {
        assert("1INCH"@.len() == 5);
        assert("USDC"@.len() == 4);
    }
    assert("1INCH"@ != "AAVE"@) by {
        assert("1INCH"@.len() == 5);
        assert("AAVE"@.len() == 4);
    }
    assert("ETH"@ != "BTC"@) by {
        assert("ETH"@[0] == 'E');
        assert("BTC"@[0] == 'B');
    }
    assert("ETH"@ != "LINK"@) by {
        assert("ETH"@.len() == 3);
        assert("LINK"@.len() == 4);
    }
    assert("ETH"@ != "DAI"@) by {
        assert("ETH"@[0] == 'E');
        assert("DAI"@[0] == 'D');
    }
    assert("ETH"@ != "USDC"@) by {
        assert("ETH"@.len() == 3);
        assert("USDC"@.len() == 4);
    }
    assert("ETH"@ != "AAVE"@) by {
        assert("ETH"@.len() == 3);
        assert("AAVE"@.len() == 4);
    }
    assert("BTC"@ != "LINK"@) by {
        assert("BTC"@.len() == 3);
        assert("LINK"@.len() == 4);
    }
    assert("BTC"@ != "DAI"@) by {
        assert("BTC"@[0] == 'B');
        assert("DAI"@[0] == 'D');
    }
    assert("BTC"@ != "USDC"@) by {
        assert("BTC"@.len() == 3);
        assert("USDC"@.len() == 4);
    }
    assert("BTC"@ != "AAVE"@) by {
        assert("BTC"@.len() == 3);
        assert("AAVE"@.len() == 4);
    }
    assert("LINK"@ != "DAI"@) by {
        assert("LINK"@.len() == 4);
        assert("DAI"@.len() == 3);
    }
    assert("LINK"@ != "USDC"@) by {
        assert("LINK"@[0] == 'L');
        assert("USDC"@[0] == 'U');
    }
    assert("LINK"@ != "AAVE"@) by {
        assert("LINK"@[0] == 'L');
        assert("AAVE"@[0] == 'A');
    }
    assert("DAI"@ != "USDC"@) by {
        assert("DAI"@.len() == 3);
        assert("USDC"@.len() == 4);
    }
    assert("DAI"@ != "AAVE"@) by {
        assert("DAI"@.len() == 3);
        assert("AAVE"@.len() == 4);
    }
    assert("USDC"@ != "AAVE"@) by {
        assert("USDC"@[0] == 'U');
        assert("AAVE"@[0] == 'A');
    }
    assert("ETH"@ != "USD"@) by {
        assert("ETH"@[0] == 'E');
        assert("USD"@[0] == 'U');
    }
    assert("USD"@ != "AAVE"@) by {
        assert("USD"@.len() == 3);
        assert("AAVE"@.len() == 4);
    }
}

} // verus!
