//! Stateless construction of ABI call payloads for the oracle-proxy's
//! standard read methods.
//!
//! A payload is the method's four-byte selector — the head of the
//! Keccak-256 digest of its canonical signature — followed by one 32-byte
//! big-endian word per argument. Building a payload performs no I/O and
//! never fails on well-typed input; dispatching it is the caller's affair.

use vstd::prelude::*;

verus! {

/// What Keccak-256 returns on the UTF-8 bytes of a string: a pure
/// function of the characters alone.
pub uninterp spec fn keccak256_of(s: Seq<char>) -> Seq<u8>;

/// Relies on `alloy_primitives::keccak256`: the Keccak-256 digest of the
/// input bytes, 32 bytes long, a function of the input alone.
#[verifier::external_body]
fn keccak256_str(s: &str) -> (r: Vec<u8>)
    ensures
        r@ == keccak256_of(s@),
        r@.len() == 32,
{
    alloy_primitives::keccak256(s.as_bytes()).0.to_vec()
}

/// The four-byte selector of a method signature: the first four bytes of
/// the signature's Keccak-256 digest.
pub open spec fn spec_selector(sig: Seq<char>) -> Seq<u8> {
    keccak256_of(sig).take(4)
}

fn selector(sig: &str) -> (r: Vec<u8>)
    ensures
        r@ == spec_selector(sig@),
{
    let h = keccak256_str(sig);
    let mut out: Vec<u8> = Vec::new();
    out.push(h[0]);
    out.push(h[1]);
    out.push(h[2]);
    out.push(h[3]);
    proof {
        assert(out@ =~= keccak256_of(sig@).take(4));
    }
    out
}

/// One 32-byte ABI word holding an unsigned argument: big-endian,
/// zero-padded on the left.
pub open spec fn spec_abi_word(v: u128) -> Seq<u8> {
    Seq::new(
        32,
        |i: int|
            if i < 16 {
                0u8
            } else {
                (v >> (((31 - i) * 8) as u128)) as u8
            },
    )
}

fn abi_word(v: u128) -> (r: Vec<u8>)
    ensures
        r@ == spec_abi_word(v),
{
    let mut out: Vec<u8> = Vec::new();
    let mut i: usize = 0;
    while i < 32
        invariant
            out@.len() == i,
            i <= 32,
            forall|j: int| 0 <= j < i ==> out@[j] == spec_abi_word(v)[j],
        decreases 32 - i,
    {
        if i < 16 {
            out.push(0u8);
        } else {
            let sh: u128 = ((31 - i) as u128) * 8;
            out.push((v >> sh) as u8);
        }
        i = i + 1;
    }
    proof {
        assert(out@ =~= spec_abi_word(v));
    }
    out
}

/// The payload of `latestAnswer()`.
pub open spec fn spec_encode_latest_answer() -> Seq<u8> {
    spec_selector("latestAnswer()"@)
}

/// Builds the call payload of `latestAnswer()`, the lower-level
/// predecessor of `latestRoundData()`.
pub fn encode_latest_answer() -> (r: Vec<u8>)
    ensures
        r@ == spec_encode_latest_answer(),
{
    selector("latestAnswer()")
}

/// The payload of `latestRoundData()`.
pub open spec fn spec_encode_latest_round_data() -> Seq<u8> {
    spec_selector("latestRoundData()"@)
}

/// Builds the call payload of `latestRoundData()`, the preferred standard
/// read.
pub fn encode_latest_round_data() -> (r: Vec<u8>)
    ensures
        r@ == spec_encode_latest_round_data(),
{
    selector("latestRoundData()")
}

/// The payload of `getRoundData(uint80)` for one round id.
pub open spec fn spec_encode_get_round_data(round_id: u128) -> Seq<u8> {
    spec_selector("getRoundData(uint80)"@) + spec_abi_word(round_id)
}

/// Builds the call payload of `getRoundData(uint80)`. The round id packs
/// the phase id and the per-phase round counter into one integer.
pub fn encode_get_round_data(round_id: u128) -> (r: Vec<u8>)
    ensures
        r@ == spec_encode_get_round_data(round_id),
{
    let mut out = selector("getRoundData(uint80)");
    let mut w = abi_word(round_id);
    out.append(&mut w);
    proof {
        assert(out@ =~= spec_encode_get_round_data(round_id));
    }
    out
}

/// The payload of `proposedGetRoundData(uint80)` for one round id.
pub open spec fn spec_encode_proposed_get_round_data(round_id: u128) -> Seq<u8> {
    spec_selector("proposedGetRoundData(uint80)"@) + spec_abi_word(round_id)
}

/// Builds the call payload of `proposedGetRoundData(uint80)`, used only
/// while a new aggregator is proposed.
pub fn encode_proposed_get_round_data(round_id: u128) -> (r: Vec<u8>)
    ensures
        r@ == spec_encode_proposed_get_round_data(round_id),
{
    let mut out = selector("proposedGetRoundData(uint80)");
    let mut w = abi_word(round_id);
    out.append(&mut w);
    proof {
        assert(out@ =~= spec_encode_proposed_get_round_data(round_id));
    }
    out
}

/// The payload of `proposedLatestRoundData()`.
pub open spec fn spec_encode_proposed_latest_round_data() -> Seq<u8> {
    spec_selector("proposedLatestRoundData()"@)
}

/// Builds the call payload of `proposedLatestRoundData()`, used only
/// while a new aggregator is proposed.
pub fn encode_proposed_latest_round_data() -> (r: Vec<u8>)
    ensures
        r@ == spec_encode_proposed_latest_round_data(),
{
    selector("proposedLatestRoundData()")
}

/// The payload of `aggregator()`.
pub open spec fn spec_encode_aggregator() -> Seq<u8> {
    spec_selector("aggregator()"@)
}

/// Builds the call payload of `aggregator()`: the current phase's
/// aggregator address.
pub fn encode_aggregator() -> (r: Vec<u8>)
    ensures
        r@ == spec_encode_aggregator(),
{
    selector("aggregator()")
}

/// The payload of `decimals()`.
pub open spec fn spec_encode_decimals() -> Seq<u8> {
    spec_selector("decimals()"@)
}

/// Builds the call payload of `decimals()`: the precision of subsequent
/// answers.
pub fn encode_decimals() -> (r: Vec<u8>)
    ensures
        r@ == spec_encode_decimals(),
{
    selector("decimals()")
}

/// The payload of `description()`.
pub open spec fn spec_encode_description() -> Seq<u8> {
    spec_selector("description()"@)
}

/// Builds the call payload of `description()`: the human-readable feed
/// description.
pub fn encode_description() -> (r: Vec<u8>)
    ensures
        r@ == spec_encode_description(),
{
    selector("description()")
}

/// The payload of `phaseAggregators(uint16)` for one phase id.
pub open spec fn spec_encode_phase_aggregators(phase_id: u16) -> Seq<u8> {
    spec_selector("phaseAggregators(uint16)"@) + spec_abi_word(phase_id as u128)
}

/// Builds the call payload of `phaseAggregators(uint16)`: the aggregator
/// address of one phase.
pub fn encode_phase_aggregators(phase_id: u16) -> (r: Vec<u8>)
    ensures
        r@ == spec_encode_phase_aggregators(phase_id),
{
    let mut out = selector("phaseAggregators(uint16)");
    let mut w = abi_word(phase_id as u128);
    out.append(&mut w);
    proof {
        assert(out@ =~= spec_encode_phase_aggregators(phase_id));
    }
    out
}

/// The payload of `phaseId()`.
pub open spec fn spec_encode_phase_id() -> Seq<u8> {
    spec_selector("phaseId()"@)
}

/// Builds the call payload of `phaseId()`: the current phase id.
pub fn encode_phase_id() -> (r: Vec<u8>)
    ensures
        r@ == spec_encode_phase_id(),
{
    selector("phaseId()")
}

/// An ABI word determines its argument: two arguments with the same word
/// are equal.
pub proof fn lemma_abi_word_injective(a: u128, b: u128)
    requires
        spec_abi_word(a) == spec_abi_word(b),
    ensures
        a == b,
{
    assert((a >> 120u128) as u8 == (b >> 120u128) as u8) by {
        assert(spec_abi_word(a)[16] == (a >> (((31 - 16) * 8) as u128)) as u8);
        assert(spec_abi_word(b)[16] == (b >> (((31 - 16) * 8) as u128)) as u8);
        assert(spec_abi_word(a)[16] == spec_abi_word(b)[16]);
    }
    assert((a >> 112u128) as u8 == (b >> 112u128) as u8) by {
        assert(spec_abi_word(a)[17] == (a >> (((31 - 17) * 8) as u128)) as u8);
        assert(spec_abi_word(b)[17] == (b >> (((31 - 17) * 8) as u128)) as u8);
        assert(spec_abi_word(a)[17] == spec_abi_word(b)[17]);
    }
    assert((a >> 104u128) as u8 == (b >> 104u128) as u8) by {
        assert(spec_abi_word(a)[18] == (a >> (((31 - 18) * 8) as u128)) as u8);
        assert(spec_abi_word(b)[18] == (b >> (((31 - 18) * 8) as u128)) as u8);
        assert(spec_abi_word(a)[18] == spec_abi_word(b)[18]);
    }
    assert((a >> 96u128) as u8 == (b >> 96u128) as u8) by {
        assert(spec_abi_word(a)[19] == (a >> (((31 - 19) * 8) as u128)) as u8);
        assert(spec_abi_word(b)[19] == (b >> (((31 - 19) * 8) as u128)) as u8);
        assert(spec_abi_word(a)[19] == spec_abi_word(b)[19]);
    }
    assert((a >> 88u128) as u8 == (b >> 88u128) as u8) by {
        assert(spec_abi_word(a)[20] == (a >> (((31 - 20) * 8) as u128)) as u8);
        assert(spec_abi_word(b)[20] == (b >> (((31 - 20) * 8) as u128)) as u8);
        assert(spec_abi_word(a)[20] == spec_abi_word(b)[20]);
    }
    assert((a >> 80u128) as u8 == (b >> 80u128) as u8) by {
        assert(spec_abi_word(a)[21] == (a >> (((31 - 21) * 8) as u128)) as u8);
        assert(spec_abi_word(b)[21] == (b >> (((31 - 21) * 8) as u128)) as u8);
        assert(spec_abi_word(a)[21] == spec_abi_word(b)[21]);
    }
    assert((a >> 72u128) as u8 == (b >> 72u128) as u8) by {
        assert(spec_abi_word(a)[22] == (a >> (((31 - 22) * 8) as u128)) as u8);
        assert(spec_abi_word(b)[22] == (b >> (((31 - 22) * 8) as u128)) as u8);
        assert(spec_abi_word(a)[22] == spec_abi_word(b)[22]);
    }
    assert((a >> 64u128) as u8 == (b >> 64u128) as u8) by {
        assert(spec_abi_word(a)[23] == (a >> (((31 - 23) * 8) as u128)) as u8);
        assert(spec_abi_word(b)[23] == (b >> (((31 - 23) * 8) as u128)) as u8);
        assert(spec_abi_word(a)[23] == spec_abi_word(b)[23]);
    }
    assert((a >> 56u128) as u8 == (b >> 56u128) as u8) by {
        assert(spec_abi_word(a)[24] == (a >> (((31 - 24) * 8) as u128)) as u8);
        assert(spec_abi_word(b)[24] == (b >> (((31 - 24) * 8) as u128)) as u8);
        assert(spec_abi_word(a)[24] == spec_abi_word(b)[24]);
    }
    assert((a >> 48u128) as u8 == (b >> 48u128) as u8) by {
        assert(spec_abi_word(a)[25] == (a >> (((31 - 25) * 8) as u128)) as u8);
        assert(spec_abi_word(b)[25] == (b >> (((31 - 25) * 8) as u128)) as u8);
        assert(spec_abi_word(a)[25] == spec_abi_word(b)[25]);
    }
    assert((a >> 40u128) as u8 == (b >> 40u128) as u8) by {
        assert(spec_abi_word(a)[26] == (a >> (((31 - 26) * 8) as u128)) as u8);
        assert(spec_abi_word(b)[26] == (b >> (((31 - 26) * 8) as u128)) as u8);
        assert(spec_abi_word(a)[26] == spec_abi_word(b)[26]);
    }
    assert((a >> 32u128) as u8 == (b >> 32u128) as u8) by {
        assert(spec_abi_word(a)[27] == (a >> (((31 - 27) * 8) as u128)) as u8);
        assert(spec_abi_word(b)[27] == (b >> (((31 - 27) * 8) as u128)) as u8);
        assert(spec_abi_word(a)[27] == spec_abi_word(b)[27]);
    }
    assert((a >> 24u128) as u8 == (b >> 24u128) as u8) by {
        assert(spec_abi_word(a)[28] == (a >> (((31 - 28) * 8) as u128)) as u8);
        assert(spec_abi_word(b)[28] == (b >> (((31 - 28) * 8) as u128)) as u8);
        assert(spec_abi_word(a)[28] == spec_abi_word(b)[28]);
    }
    assert((a >> 16u128) as u8 == (b >> 16u128) as u8) by {
        assert(spec_abi_word(a)[29] == (a >> (((31 - 29) * 8) as u128)) as u8);
        assert(spec_abi_word(b)[29] == (b >> (((31 - 29) * 8) as u128)) as u8);
        assert(spec_abi_word(a)[29] == spec_abi_word(b)[29]);
    }
    assert((a >> 8u128) as u8 == (b >> 8u128) as u8) by {
        assert(spec_abi_word(a)[30] == (a >> (((31 - 30) * 8) as u128)) as u8);
        assert(spec_abi_word(b)[30] == (b >> (((31 - 30) * 8) as u128)) as u8);
        assert(spec_abi_word(a)[30] == spec_abi_word(b)[30]);
    }
    assert((a >> 0u128) as u8 == (b >> 0u128) as u8) by {
        assert(spec_abi_word(a)[31] == (a >> (((31 - 31) * 8) as u128)) as u8);
        assert(spec_abi_word(b)[31] == (b >> (((31 - 31) * 8) as u128)) as u8);
        assert(spec_abi_word(a)[31] == spec_abi_word(b)[31]);
    }
    assert(a == b) by (bit_vector)
        requires
            (a >> 120u128) as u8 == (b >> 120u128) as u8,
            (a >> 112u128) as u8 == (b >> 112u128) as u8,
            (a >> 104u128) as u8 == (b >> 104u128) as u8,
            (a >> 96u128) as u8 == (b >> 96u128) as u8,
            (a >> 88u128) as u8 == (b >> 88u128) as u8,
            (a >> 80u128) as u8 == (b >> 80u128) as u8,
            (a >> 72u128) as u8 == (b >> 72u128) as u8,
            (a >> 64u128) as u8 == (b >> 64u128) as u8,
            (a >> 56u128) as u8 == (b >> 56u128) as u8,
            (a >> 48u128) as u8 == (b >> 48u128) as u8,
            (a >> 40u128) as u8 == (b >> 40u128) as u8,
            (a >> 32u128) as u8 == (b >> 32u128) as u8,
            (a >> 24u128) as u8 == (b >> 24u128) as u8,
            (a >> 16u128) as u8 == (b >> 16u128) as u8,
            (a >> 8u128) as u8 == (b >> 8u128) as u8,
            (a >> 0u128) as u8 == (b >> 0u128) as u8,
    ;
}

proof fn lemma_selector_plus_word_injective(sel: Seq<u8>, a: u128, b: u128)
    requires
        sel + spec_abi_word(a) == sel + spec_abi_word(b),
    ensures
        a == b,
{
    assert(spec_abi_word(a) =~= spec_abi_word(b)) by {
        assert(forall|k: int|
            0 <= k < 32 ==> (sel + spec_abi_word(a))[sel.len() + k] == #[trigger] spec_abi_word(
                a,
            )[k]);
        assert(forall|k: int|
            0 <= k < 32 ==> (sel + spec_abi_word(b))[sel.len() + k] == #[trigger] spec_abi_word(
                b,
            )[k]);
    }
    lemma_abi_word_injective(a, b);
}

/// Two `getRoundData` payloads coincide exactly when their round ids do:
/// equal inputs give equal payloads, distinct inputs distinct payloads.
pub proof fn lemma_encode_get_round_data_injective(a: u128, b: u128)
    ensures
        (spec_encode_get_round_data(a) == spec_encode_get_round_data(b)) <==> a == b,
{
    if spec_encode_get_round_data(a) == spec_encode_get_round_data(b) {
        lemma_selector_plus_word_injective(spec_selector("getRoundData(uint80)"@), a, b);
    }
}

/// Two `proposedGetRoundData` payloads coincide exactly when their round
/// ids do.
pub proof fn lemma_encode_proposed_get_round_data_injective(a: u128, b: u128)
    ensures
        (spec_encode_proposed_get_round_data(a) == spec_encode_proposed_get_round_data(b)) <==> a
            == b,
{
    if spec_encode_proposed_get_round_data(a) == spec_encode_proposed_get_round_data(b) {
        lemma_selector_plus_word_injective(spec_selector("proposedGetRoundData(uint80)"@), a, b);
    }
}

/// Two `phaseAggregators` payloads coincide exactly when their phase ids
/// do.
pub proof fn lemma_encode_phase_aggregators_injective(a: u16, b: u16)
    ensures
        (spec_encode_phase_aggregators(a) == spec_encode_phase_aggregators(b)) <==> a == b,
{
    if spec_encode_phase_aggregators(a) == spec_encode_phase_aggregators(b) {
        lemma_selector_plus_word_injective(
            spec_selector("phaseAggregators(uint16)"@),
            a as u128,
            b as u128,
        );
    }
}

/// Payload construction is deterministic: each payload is pinned to a
/// function of the method and its arguments alone, so repeated
/// invocations for the same call return identical bytes.
pub proof fn lemma_encode_deterministic(r1: Seq<u8>, r2: Seq<u8>)
    requires
        r1 == spec_encode_latest_answer(),
        r2 == spec_encode_latest_answer(),
    ensures
        r1 == r2,
{
}

} // verus!
