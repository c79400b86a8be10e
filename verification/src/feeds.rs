//! Feed records: the normalized form of one directory entry, the decoder
//! that builds records from a directory document, and the in-memory index
//! with its pair-based lookup.

use vstd::prelude::*;
use crate::address::Address;
use crate::address::spec_parse_address;
use crate::json::JsonNumber;
use crate::json::JsonValue;
use crate::ChainId;

verus! {

/// One normalized directory entry. Only `history`, `pair` and `docs` are
/// guaranteed by the wire format; every other attribute is meaningful only
/// for some feed categories, and its absence is kept as absence, never
/// replaced by a default.
#[derive(Debug, PartialEq)]
pub struct Oracle {
    pub compare_offchain: Option<String>,
    pub contract_address: Option<Address>,
    pub contract_type: Option<String>,
    pub contract_version: Option<u8>,
    pub decimal_places: Option<u8>,
    pub ens: Option<String>,
    pub format_decimal_places: Option<u8>,
    pub health_price: Option<String>,
    pub heartbeat: Option<u32>,
    pub history: bool,
    pub multiply: Option<String>,
    pub name: Option<String>,
    pub pair: Vec<String>,
    pub path: Option<String>,
    pub proxy_address: Option<Address>,
    pub threshold: Option<JsonNumber>,
    pub value_prefix: Option<String>,
    pub asset_name: Option<String>,
    pub feed_category: Option<String>,
    pub feed_type: Option<String>,
    pub docs: JsonValue,
    pub decimals: Option<u8>,
}

/// The mathematical model of a feed record: strings as character
/// sequences, addresses as byte sequences, the opaque `docs` tree and the
/// number-typed `threshold` kept as they stand.
pub struct OracleModel {
    pub compare_offchain: Option<Seq<char>>,
    pub contract_address: Option<Seq<u8>>,
    pub contract_type: Option<Seq<char>>,
    pub contract_version: Option<u8>,
    pub decimal_places: Option<u8>,
    pub ens: Option<Seq<char>>,
    pub format_decimal_places: Option<u8>,
    pub health_price: Option<Seq<char>>,
    pub heartbeat: Option<u32>,
    pub history: bool,
    pub multiply: Option<Seq<char>>,
    pub name: Option<Seq<char>>,
    pub pair: Seq<Seq<char>>,
    pub path: Option<Seq<char>>,
    pub proxy_address: Option<Seq<u8>>,
    pub threshold: Option<JsonNumber>,
    pub value_prefix: Option<Seq<char>>,
    pub asset_name: Option<Seq<char>>,
    pub feed_category: Option<Seq<char>>,
    pub feed_type: Option<Seq<char>>,
    pub docs: JsonValue,
    pub decimals: Option<u8>,
}

impl View for Oracle {
    type V = OracleModel;

    open spec fn view(&self) -> OracleModel {
        OracleModel {
            compare_offchain: self.compare_offchain.deep_view(),
            contract_address: self.contract_address.deep_view(),
            contract_type: self.contract_type.deep_view(),
            contract_version: self.contract_version,
            decimal_places: self.decimal_places,
            ens: self.ens.deep_view(),
            format_decimal_places: self.format_decimal_places,
            health_price: self.health_price.deep_view(),
            heartbeat: self.heartbeat,
            history: self.history,
            multiply: self.multiply.deep_view(),
            name: self.name.deep_view(),
            pair: self.pair.deep_view(),
            path: self.path.deep_view(),
            proxy_address: self.proxy_address.deep_view(),
            threshold: self.threshold,
            value_prefix: self.value_prefix.deep_view(),
            asset_name: self.asset_name.deep_view(),
            feed_category: self.feed_category.deep_view(),
            feed_type: self.feed_type.deep_view(),
            docs: self.docs,
            decimals: self.decimals,
        }
    }
}

impl DeepView for Oracle {
    type V = OracleModel;

    open spec fn deep_view(&self) -> OracleModel {
        self.view()
    }
}

/// The raw value found for each known wire field of one directory entry,
/// before any typing rule is applied; `None` where the field is absent.
pub struct FieldSlots {
    pub compare_offchain: Option<JsonValue>,
    pub contract_address: Option<JsonValue>,
    pub contract_type: Option<JsonValue>,
    pub contract_version: Option<JsonValue>,
    pub decimal_places: Option<JsonValue>,
    pub ens: Option<JsonValue>,
    pub format_decimal_places: Option<JsonValue>,
    pub health_price: Option<JsonValue>,
    pub heartbeat: Option<JsonValue>,
    pub history: Option<JsonValue>,
    pub multiply: Option<JsonValue>,
    pub name: Option<JsonValue>,
    pub pair: Option<JsonValue>,
    pub path: Option<JsonValue>,
    pub proxy_address: Option<JsonValue>,
    pub threshold: Option<JsonValue>,
    pub value_prefix: Option<JsonValue>,
    pub asset_name: Option<JsonValue>,
    pub feed_category: Option<JsonValue>,
    pub feed_type: Option<JsonValue>,
    pub docs: Option<JsonValue>,
    pub decimals: Option<JsonValue>,
}

/// No field seen yet.
pub open spec fn spec_empty_slots() -> FieldSlots {
    FieldSlots {
        compare_offchain: None,
        contract_address: None,
        contract_type: None,
        contract_version: None,
        decimal_places: None,
        ens: None,
        format_decimal_places: None,
        health_price: None,
        heartbeat: None,
        history: None,
        multiply: None,
        name: None,
        pair: None,
        path: None,
        proxy_address: None,
        threshold: None,
        value_prefix: None,
        asset_name: None,
        feed_category: None,
        feed_type: None,
        docs: None,
        decimals: None,
    }
}

/// Files one object member into the slot its key names, unless that slot
/// is already filled; a key that names no known field is ignored. Members
/// are filed from the last to the first, so the occurrence that sticks for
/// a repeated key is the last one in document order.
pub open spec fn slots_add(acc: FieldSlots, key: Seq<char>, val: JsonValue) -> FieldSlots {
    if key == "compareOffchain"@ {
        if acc.compare_offchain is None {
            FieldSlots { compare_offchain: Some(val), ..acc }
        } else {
            acc
        }
    } else if key == "contractAddress"@ {
        if acc.contract_address is None {
            FieldSlots { contract_address: Some(val), ..acc }
        } else {
            acc
        }
    } else if key == "contractType"@ {
        if acc.contract_type is None {
            FieldSlots { contract_type: Some(val), ..acc }
        } else {
            acc
        }
    } else if key == "contractVersion"@ {
        if acc.contract_version is None {
            FieldSlots { contract_version: Some(val), ..acc }
        } else {
            acc
        }
    } else if key == "decimalPlaces"@ {
        if acc.decimal_places is None {
            FieldSlots { decimal_places: Some(val), ..acc }
        } else {
            acc
        }
    } else if key == "ens"@ {
        if acc.ens is None {
            FieldSlots { ens: Some(val), ..acc }
        } else {
            acc
        }
    } else if key == "formatDecimalPlaces"@ {
        if acc.format_decimal_places is None {
            FieldSlots { format_decimal_places: Some(val), ..acc }
        } else {
            acc
        }
    } else if key == "healthPrice"@ {
        if acc.health_price is None {
            FieldSlots { health_price: Some(val), ..acc }
        } else {
            acc
        }
    } else if key == "heartbeat"@ {
        if acc.heartbeat is None {
            FieldSlots { heartbeat: Some(val), ..acc }
        } else {
            acc
        }
    } else if key == "history"@ {
        if acc.history is None {
            FieldSlots { history: Some(val), ..acc }
        } else {
            acc
        }
    } else if key == "multiply"@ {
        if acc.multiply is None {
            FieldSlots { multiply: Some(val), ..acc }
        } else {
            acc
        }
    } else if key == "name"@ {
        if acc.name is None {
            FieldSlots { name: Some(val), ..acc }
        } else {
            acc
        }
    } else if key == "pair"@ {
        if acc.pair is None {
            FieldSlots { pair: Some(val), ..acc }
        } else {
            acc
        }
    } else if key == "path"@ {
        if acc.path is None {
            FieldSlots { path: Some(val), ..acc }
        } else {
            acc
        }
    } else if key == "proxyAddress"@ {
        if acc.proxy_address is None {
            FieldSlots { proxy_address: Some(val), ..acc }
        } else {
            acc
        }
    } else if key == "threshold"@ {
        if acc.threshold is None {
            FieldSlots { threshold: Some(val), ..acc }
        } else {
            acc
        }
    } else if key == "valuePrefix"@ {
        if acc.value_prefix is None {
            FieldSlots { value_prefix: Some(val), ..acc }
        } else {
            acc
        }
    } else if key == "assetName"@ {
        if acc.asset_name is None {
            FieldSlots { asset_name: Some(val), ..acc }
        } else {
            acc
        }
    } else if key == "feedCategory"@ {
        if acc.feed_category is None {
            FieldSlots { feed_category: Some(val), ..acc }
        } else {
            acc
        }
    } else if key == "feedType"@ {
        if acc.feed_type is None {
            FieldSlots { feed_type: Some(val), ..acc }
        } else {
            acc
        }
    } else if key == "docs"@ {
        if acc.docs is None {
            FieldSlots { docs: Some(val), ..acc }
        } else {
            acc
        }
    } else if key == "decimals"@ {
        if acc.decimals is None {
            FieldSlots { decimals: Some(val), ..acc }
        } else {
            acc
        }
    } else {
        acc
    }
}

/// The slots of an object's member list, filed from the last member
/// backwards on top of `acc`.
pub open spec fn scan_fields(pairs: Seq<(String, JsonValue)>, acc: FieldSlots) -> FieldSlots
    decreases pairs.len(),
{
    if pairs.len() == 0 {
        acc
    } else {
        scan_fields(pairs.drop_last(), slots_add(acc, pairs.last().0@, pairs.last().1))
    }
}

/// String comparison against a short literal.
pub(crate) fn str_eq(a: &String, b: &str) -> (r: bool)
    ensures
        r == (a@ == b@),
{
    *a == b.to_owned()
}

/// Splits an object's member list into one slot per known field, ignoring
/// unknown keys and letting the last occurrence of a repeated key win.
fn take_fields(pairs: Vec<(String, JsonValue)>) -> (r: FieldSlots)
    ensures
        r == scan_fields(pairs@, spec_empty_slots()),
{
    let ghost orig = pairs@;
    let mut pairs = pairs;
    let mut slots = FieldSlots {
        compare_offchain: None,
        contract_address: None,
        contract_type: None,
        contract_version: None,
        decimal_places: None,
        ens: None,
        format_decimal_places: None,
        health_price: None,
        heartbeat: None,
        history: None,
        multiply: None,
        name: None,
        pair: None,
        path: None,
        proxy_address: None,
        threshold: None,
        value_prefix: None,
        asset_name: None,
        feed_category: None,
        feed_type: None,
        docs: None,
        decimals: None,
    };
    assert(slots == spec_empty_slots());
    while pairs.len() > 0
        invariant
            scan_fields(orig, spec_empty_slots()) == scan_fields(pairs@, slots),
        decreases pairs@.len(),
    {
        let ghost before = pairs@;
        let ghost slots_before = slots;
        let pair = pairs.pop().unwrap();
        let k = pair.0;
        let v = pair.1;
        assert(before.last() == (k, v));
        assert(pairs@ == before.drop_last());
        if str_eq(&k, "compareOffchain") {
            if slots.compare_offchain.is_none() {
                slots.compare_offchain = Some(v);
            }
        } else if str_eq(&k, "contractAddress") {
            if slots.contract_address.is_none() {
                slots.contract_address = Some(v);
            }
        } else if str_eq(&k, "contractType") {
            if slots.contract_type.is_none() {
                slots.contract_type = Some(v);
            }
        } else if str_eq(&k, "contractVersion") {
            if slots.contract_version.is_none() {
                slots.contract_version = Some(v);
            }
        } else if str_eq(&k, "decimalPlaces") {
            if slots.decimal_places.is_none() {
                slots.decimal_places = Some(v);
            }
        } else if str_eq(&k, "ens") {
            if slots.ens.is_none() {
                slots.ens = Some(v);
            }
        } else if str_eq(&k, "formatDecimalPlaces") {
            if slots.format_decimal_places.is_none() {
                slots.format_decimal_places = Some(v);
            }
        } else if str_eq(&k, "healthPrice") {
            if slots.health_price.is_none() {
                slots.health_price = Some(v);
            }
        } else if str_eq(&k, "heartbeat") {
            if slots.heartbeat.is_none() {
                slots.heartbeat = Some(v);
            }
        } else if str_eq(&k, "history") {
            if slots.history.is_none() {
                slots.history = Some(v);
            }
        } else if str_eq(&k, "multiply") {
            if slots.multiply.is_none() {
                slots.multiply = Some(v);
            }
        } else if str_eq(&k, "name") {
            if slots.name.is_none() {
                slots.name = Some(v);
            }
        } else if str_eq(&k, "pair") {
            if slots.pair.is_none() {
                slots.pair = Some(v);
            }
        } else if str_eq(&k, "path") {
            if slots.path.is_none() {
                slots.path = Some(v);
            }
        } else if str_eq(&k, "proxyAddress") {
            if slots.proxy_address.is_none() {
                slots.proxy_address = Some(v);
            }
        } else if str_eq(&k, "threshold") {
            if slots.threshold.is_none() {
                slots.threshold = Some(v);
            }
        } else if str_eq(&k, "valuePrefix") {
            if slots.value_prefix.is_none() {
                slots.value_prefix = Some(v);
            }
        } else if str_eq(&k, "assetName") {
            if slots.asset_name.is_none() {
                slots.asset_name = Some(v);
            }
        } else if str_eq(&k, "feedCategory") {
            if slots.feed_category.is_none() {
                slots.feed_category = Some(v);
            }
        } else if str_eq(&k, "feedType") {
            if slots.feed_type.is_none() {
                slots.feed_type = Some(v);
            }
        } else if str_eq(&k, "docs") {
            if slots.docs.is_none() {
                slots.docs = Some(v);
            }
        } else if str_eq(&k, "decimals") {
            if slots.decimals.is_none() {
                slots.decimals = Some(v);
            }
        }
        proof {
            assert(slots == slots_add(slots_before, k@, v));
        }
    }
    assert(pairs@.len() == 0);
    slots
}

/// An optional string field: absence and `null` mean absence, a string is
/// its value, and any other node is a wire-type violation (outer `None`).
pub open spec fn spec_opt_string(slot: Option<JsonValue>) -> Option<Option<Seq<char>>> {
    match slot {
        None => Some(None),
        Some(JsonValue::Null) => Some(None),
        Some(JsonValue::Str(s)) => Some(Some(s@)),
        Some(_) => None,
    }
}

/// An optional 8-bit count field: a non-negative integer up to 255, absent
/// or `null` for absence; anything else is a wire-type violation.
pub open spec fn spec_opt_u8(slot: Option<JsonValue>) -> Option<Option<u8>> {
    match slot {
        None => Some(None),
        Some(JsonValue::Null) => Some(None),
        Some(JsonValue::Number(JsonNumber::UInt(n))) => if n <= 255 {
            Some(Some(n as u8))
        } else {
            None
        },
        Some(_) => None,
    }
}

/// An optional 32-bit count field, with the same rules as `spec_opt_u8`.
pub open spec fn spec_opt_u32(slot: Option<JsonValue>) -> Option<Option<u32>> {
    match slot {
        None => Some(None),
        Some(JsonValue::Null) => Some(None),
        Some(JsonValue::Number(JsonNumber::UInt(n))) => if n <= 0xffff_ffff {
            Some(Some(n as u32))
        } else {
            None
        },
        Some(_) => None,
    }
}

/// An optional address field: a string in the 20-byte hexadecimal form,
/// absent or `null` for absence; a malformed string or any other node is a
/// wire-type violation.
pub open spec fn spec_opt_address(slot: Option<JsonValue>) -> Option<Option<Seq<u8>>> {
    match slot {
        None => Some(None),
        Some(JsonValue::Null) => Some(None),
        Some(JsonValue::Str(s)) => match spec_parse_address(s@) {
            Some(b) => Some(Some(b)),
            None => None,
        },
        Some(_) => None,
    }
}

/// An optional numeric field kept as the number itself.
pub open spec fn spec_opt_number(slot: Option<JsonValue>) -> Option<Option<JsonNumber>> {
    match slot {
        None => Some(None),
        Some(JsonValue::Null) => Some(None),
        Some(JsonValue::Number(n)) => Some(Some(n)),
        Some(_) => None,
    }
}

/// The required boolean field: it must be present and a boolean.
pub open spec fn spec_req_bool(slot: Option<JsonValue>) -> Option<bool> {
    match slot {
        Some(JsonValue::Bool(b)) => Some(b),
        _ => None,
    }
}

/// The required pair field: an array whose elements are all strings.
pub open spec fn spec_req_pair(slot: Option<JsonValue>) -> Option<Seq<Seq<char>>> {
    match slot {
        Some(JsonValue::Array(elems)) => if forall|i: int|
            0 <= i < elems@.len() ==> (#[trigger] elems@[i]) is Str {
            Some(elems@.map_values(|e: JsonValue| e->Str_0@))
        } else {
            None
        },
        _ => None,
    }
}

fn take_opt_string(slot: Option<JsonValue>) -> (r: Result<Option<String>, ()>)
    ensures
        match r {
            Ok(v) => spec_opt_string(slot) == Some(v.deep_view()),
            Err(_) => spec_opt_string(slot) is None,
        },
{
    match slot {
        None => Ok(None),
        Some(JsonValue::Null) => Ok(None),
        Some(JsonValue::Str(s)) => Ok(Some(s)),
        Some(_) => Err(()),
    }
}

fn take_opt_u8(slot: Option<JsonValue>) -> (r: Result<Option<u8>, ()>)
    ensures
        match r {
            Ok(v) => spec_opt_u8(slot) == Some(v),
            Err(_) => spec_opt_u8(slot) is None,
        },
{
    match slot {
        None => Ok(None),
        Some(JsonValue::Null) => Ok(None),
        Some(JsonValue::Number(JsonNumber::UInt(n))) => if n <= 255 {
            Ok(Some(n as u8))
        } else {
            Err(())
        },
        Some(_) => Err(()),
    }
}

fn take_opt_u32(slot: Option<JsonValue>) -> (r: Result<Option<u32>, ()>)
    ensures
        match r {
            Ok(v) => spec_opt_u32(slot) == Some(v),
            Err(_) => spec_opt_u32(slot) is None,
        },
{
    match slot {
        None => Ok(None),
        Some(JsonValue::Null) => Ok(None),
        Some(JsonValue::Number(JsonNumber::UInt(n))) => if n <= 0xffff_ffff {
            Ok(Some(n as u32))
        } else {
            Err(())
        },
        Some(_) => Err(()),
    }
}

fn take_opt_address(slot: Option<JsonValue>) -> (r: Result<Option<Address>, ()>)
    ensures
        match r {
            Ok(v) => spec_opt_address(slot) == Some(v.deep_view()) && (v matches Some(a)
                ==> a.wf()),
            Err(_) => spec_opt_address(slot) is None,
        },
{
    match slot {
        None => Ok(None),
        Some(JsonValue::Null) => Ok(None),
        Some(JsonValue::Str(s)) => match Address::parse(s.as_str()) {
            Some(a) => Ok(Some(a)),
            None => Err(()),
        },
        Some(_) => Err(()),
    }
}

fn take_opt_number(slot: Option<JsonValue>) -> (r: Result<Option<JsonNumber>, ()>)
    ensures
        match r {
            Ok(v) => spec_opt_number(slot) == Some(v),
            Err(_) => spec_opt_number(slot) is None,
        },
{
    match slot {
        None => Ok(None),
        Some(JsonValue::Null) => Ok(None),
        Some(JsonValue::Number(n)) => Ok(Some(n)),
        Some(_) => Err(()),
    }
}

fn take_req_bool(slot: Option<JsonValue>) -> (r: Result<bool, ()>)
    ensures
        match r {
            Ok(b) => spec_req_bool(slot) == Some(b),
            Err(_) => spec_req_bool(slot) is None,
        },
{
    match slot {
        Some(JsonValue::Bool(b)) => Ok(b),
        _ => Err(()),
    }
}

fn take_req_pair(slot: Option<JsonValue>) -> (r: Result<Vec<String>, ()>)
    ensures
        match r {
            Ok(v) => spec_req_pair(slot) == Some(v.deep_view()),
            Err(_) => spec_req_pair(slot) is None,
        },
{
    let elems = match slot {
        Some(JsonValue::Array(elems)) => elems,
        _ => {
            return Err(());
        },
    };
    let ghost orig = elems@;
    let mut elems = elems;
    let mut out: Vec<String> = Vec::new();
    while elems.len() > 0
        invariant
            orig.len() == out@.len() + elems@.len(),
            elems@ == orig.skip(out@.len() as int),
            forall|j: int| 0 <= j < out@.len() ==> (#[trigger] orig[j]) is Str,
            forall|j: int| 0 <= j < out@.len() ==> #[trigger] out@[j]@ == orig[j]->Str_0@,
            (forall|i: int| 0 <= i < orig.len() ==> (#[trigger] orig[i]) is Str)
                ==> spec_req_pair(slot) == Some(orig.map_values(|e: JsonValue| e->Str_0@)),
            !(forall|i: int| 0 <= i < orig.len() ==> (#[trigger] orig[i]) is Str)
                ==> spec_req_pair(slot) is None,
        decreases elems@.len(),
    {
        let ghost k = out@.len() as int;
        let e = elems.remove(0);
        proof {
            assert(e == orig[k]);
            assert(elems@ =~= orig.skip(k + 1));
        }
        match e {
            JsonValue::Str(s) => {
                out.push(s);
            },
            _ => {
                proof {
                    assert(!(orig[k] is Str));
                }
                return Err(());
            },
        }
    }
    proof {
        assert(out.deep_view() =~= orig.map_values(|e: JsonValue| e->Str_0@));
    }
    Ok(out)
}

/// Whether every slot of one entry obeys its wire-typing rule, the three
/// required fields (`history`, `pair`, `docs`) included.
pub open spec fn slots_valid(s: FieldSlots) -> bool {
    &&& spec_opt_string(s.compare_offchain) is Some
    &&& spec_opt_address(s.contract_address) is Some
    &&& spec_opt_string(s.contract_type) is Some
    &&& spec_opt_u8(s.contract_version) is Some
    &&& spec_opt_u8(s.decimal_places) is Some
    &&& spec_opt_string(s.ens) is Some
    &&& spec_opt_u8(s.format_decimal_places) is Some
    &&& spec_opt_string(s.health_price) is Some
    &&& spec_opt_u32(s.heartbeat) is Some
    &&& spec_req_bool(s.history) is Some
    &&& spec_opt_string(s.multiply) is Some
    &&& spec_opt_string(s.name) is Some
    &&& spec_req_pair(s.pair) is Some
    &&& spec_opt_string(s.path) is Some
    &&& spec_opt_address(s.proxy_address) is Some
    &&& spec_opt_number(s.threshold) is Some
    &&& spec_opt_string(s.value_prefix) is Some
    &&& spec_opt_string(s.asset_name) is Some
    &&& spec_opt_string(s.feed_category) is Some
    &&& spec_opt_string(s.feed_type) is Some
    &&& s.docs is Some
    &&& spec_opt_u8(s.decimals) is Some
}

/// The record one entry's slots denote, `None` when any slot breaks its
/// wire-typing rule.
pub open spec fn spec_record_of_slots(s: FieldSlots) -> Option<OracleModel> {
    if slots_valid(s) {
        Some(
            OracleModel {
                compare_offchain: spec_opt_string(s.compare_offchain).unwrap(),
                contract_address: spec_opt_address(s.contract_address).unwrap(),
                contract_type: spec_opt_string(s.contract_type).unwrap(),
                contract_version: spec_opt_u8(s.contract_version).unwrap(),
                decimal_places: spec_opt_u8(s.decimal_places).unwrap(),
                ens: spec_opt_string(s.ens).unwrap(),
                format_decimal_places: spec_opt_u8(s.format_decimal_places).unwrap(),
                health_price: spec_opt_string(s.health_price).unwrap(),
                heartbeat: spec_opt_u32(s.heartbeat).unwrap(),
                history: spec_req_bool(s.history).unwrap(),
                multiply: spec_opt_string(s.multiply).unwrap(),
                name: spec_opt_string(s.name).unwrap(),
                pair: spec_req_pair(s.pair).unwrap(),
                path: spec_opt_string(s.path).unwrap(),
                proxy_address: spec_opt_address(s.proxy_address).unwrap(),
                threshold: spec_opt_number(s.threshold).unwrap(),
                value_prefix: spec_opt_string(s.value_prefix).unwrap(),
                asset_name: spec_opt_string(s.asset_name).unwrap(),
                feed_category: spec_opt_string(s.feed_category).unwrap(),
                feed_type: spec_opt_string(s.feed_type).unwrap(),
                docs: s.docs.unwrap(),
                decimals: spec_opt_u8(s.decimals).unwrap(),
            },
        )
    } else {
        None
    }
}

/// The record one directory element denotes: the element must be an
/// object, and each of its known fields must obey its wire-typing rule.
pub open spec fn spec_decode_record(v: JsonValue) -> Option<OracleModel> {
    match v {
        JsonValue::Object(pairs) => spec_record_of_slots(scan_fields(pairs@, spec_empty_slots())),
        _ => None,
    }
}

/// Decodes one directory element into a feed record. Succeeds on exactly
/// the elements `spec_decode_record` accepts, and returns exactly the
/// record it denotes.
pub fn decode_record(v: JsonValue) -> (r: Result<Oracle, ()>)
    ensures
        match r {
            Ok(rec) => spec_decode_record(v) == Some(rec@),
            Err(_) => spec_decode_record(v) is None,
        },
{
    let pairs = match v {
        JsonValue::Object(pairs) => pairs,
        _ => {
            return Err(());
        },
    };
    let slots = take_fields(pairs);
    let ghost slots_g = slots;
    let FieldSlots {
        compare_offchain: sl_compare_offchain,
        contract_address: sl_contract_address,
        contract_type: sl_contract_type,
        contract_version: sl_contract_version,
        decimal_places: sl_decimal_places,
        ens: sl_ens,
        format_decimal_places: sl_format_decimal_places,
        health_price: sl_health_price,
        heartbeat: sl_heartbeat,
        history: sl_history,
        multiply: sl_multiply,
        name: sl_name,
        pair: sl_pair,
        path: sl_path,
        proxy_address: sl_proxy_address,
        threshold: sl_threshold,
        value_prefix: sl_value_prefix,
        asset_name: sl_asset_name,
        feed_category: sl_feed_category,
        feed_type: sl_feed_type,
        docs: sl_docs,
        decimals: sl_decimals,
    } = slots;
    let compare_offchain = match take_opt_string(sl_compare_offchain) {
        Ok(x) => x,
        Err(_) => {
            return Err(());
        },
    };
    let contract_address = match take_opt_address(sl_contract_address) {
        Ok(x) => x,
        Err(_) => {
            return Err(());
        },
    };
    let contract_type = match take_opt_string(sl_contract_type) {
        Ok(x) => x,
        Err(_) => {
            return Err(());
        },
    };
    let contract_version = match take_opt_u8(sl_contract_version) {
        Ok(x) => x,
        Err(_) => {
            return Err(());
        },
    };
    let decimal_places = match take_opt_u8(sl_decimal_places) {
        Ok(x) => x,
        Err(_) => {
            return Err(());
        },
    };
    let ens = match take_opt_string(sl_ens) {
        Ok(x) => x,
        Err(_) => {
            return Err(());
        },
    };
    let format_decimal_places = match take_opt_u8(sl_format_decimal_places) {
        Ok(x) => x,
        Err(_) => {
            return Err(());
        },
    };
    let health_price = match take_opt_string(sl_health_price) {
        Ok(x) => x,
        Err(_) => {
            return Err(());
        },
    };
    let heartbeat = match take_opt_u32(sl_heartbeat) {
        Ok(x) => x,
        Err(_) => {
            return Err(());
        },
    };
    let history = match take_req_bool(sl_history) {
        Ok(x) => x,
        Err(_) => {
            return Err(());
        },
    };
    let multiply = match take_opt_string(sl_multiply) {
        Ok(x) => x,
        Err(_) => {
            return Err(());
        },
    };
    let name = match take_opt_string(sl_name) {
        Ok(x) => x,
        Err(_) => {
            return Err(());
        },
    };
    let pair = match take_req_pair(sl_pair) {
        Ok(x) => x,
        Err(_) => {
            return Err(());
        },
    };
    let path = match take_opt_string(sl_path) {
        Ok(x) => x,
        Err(_) => {
            return Err(());
        },
    };
    let proxy_address = match take_opt_address(sl_proxy_address) {
        Ok(x) => x,
        Err(_) => {
            return Err(());
        },
    };
    let threshold = match take_opt_number(sl_threshold) {
        Ok(x) => x,
        Err(_) => {
            return Err(());
        },
    };
    let value_prefix = match take_opt_string(sl_value_prefix) {
        Ok(x) => x,
        Err(_) => {
            return Err(());
        },
    };
    let asset_name = match take_opt_string(sl_asset_name) {
        Ok(x) => x,
        Err(_) => {
            return Err(());
        },
    };
    let feed_category = match take_opt_string(sl_feed_category) {
        Ok(x) => x,
        Err(_) => {
            return Err(());
        },
    };
    let feed_type = match take_opt_string(sl_feed_type) {
        Ok(x) => x,
        Err(_) => {
            return Err(());
        },
    };
    let docs = match sl_docs {
        Some(d) => d,
        None => {
            return Err(());
        },
    };
    let decimals = match take_opt_u8(sl_decimals) {
        Ok(x) => x,
        Err(_) => {
            return Err(());
        },
    };
    let rec = Oracle {
        compare_offchain,
        contract_address,
        contract_type,
        contract_version,
        decimal_places,
        ens,
        format_decimal_places,
        health_price,
        heartbeat,
        history,
        multiply,
        name,
        pair,
        path,
        proxy_address,
        threshold,
        value_prefix,
        asset_name,
        feed_category,
        feed_type,
        docs,
        decimals,
    };
    proof {
        assert(slots_valid(slots_g));
        assert(rec@ == spec_record_of_slots(slots_g).unwrap());
    }
    Ok(rec)
}

/// Failure to load a directory document.
#[derive(Debug, PartialEq)]
pub enum LoadError {
    /// The transport failed before any document was obtained; carries the
    /// transport's own description. Never produced by decoding.
    Network(String),
    /// The document is not an array of well-typed feed objects; carries
    /// the position of the offending element (0 when the top level is not
    /// an array at all).
    Decode(usize),
}

/// The records a directory document denotes: the top level must be an
/// array and every element must decode, else the whole document denotes
/// nothing — a partially decoded directory is never produced.
pub open spec fn spec_document_records(doc: JsonValue) -> Option<Seq<OracleModel>> {
    match doc {
        JsonValue::Array(elems) => if forall|i: int|
            0 <= i < elems@.len() ==> spec_decode_record(#[trigger] elems@[i]) is Some {
            Some(elems@.map_values(|e: JsonValue| spec_decode_record(e).unwrap()))
        } else {
            None
        },
        _ => None,
    }
}

/// Decodes a whole directory document into its sequence of feed records,
/// in document order. Fails with `Decode` at the position of the first
/// element that breaks a wire-typing rule; an element that fails never
/// yields a partial sequence.
pub fn decode_feed_records(doc: JsonValue) -> (r: Result<Vec<Oracle>, LoadError>)
    ensures
        match r {
            Ok(recs) => spec_document_records(doc) == Some(recs.deep_view()),
            Err(LoadError::Decode(ix)) => {
                &&& spec_document_records(doc) is None
                &&& !(doc is Array) ==> ix == 0
                &&& doc is Array ==> {
                    &&& ix < doc->Array_0@.len()
                    &&& spec_decode_record(doc->Array_0@[ix as int]) is None
                    &&& forall|j: int|
                        0 <= j < ix ==> spec_decode_record(#[trigger] doc->Array_0@[j]) is Some
                }
            },
            Err(LoadError::Network(_)) => false,
        },
{
    let elems = match doc {
        JsonValue::Array(elems) => elems,
        _ => {
            return Err(LoadError::Decode(0));
        },
    };
    let ghost orig = elems@;
    let mut elems = elems;
    let mut out: Vec<Oracle> = Vec::new();
    while elems.len() > 0
        invariant
            orig.len() == out@.len() + elems@.len(),
            elems@ == orig.skip(out@.len() as int),
            forall|j: int|
                0 <= j < out@.len() ==> spec_decode_record(#[trigger] orig[j]) == Some(
                    out.deep_view()[j],
                ),
            doc is Array && doc->Array_0@ == orig,
        decreases elems@.len(),
    {
        let ghost k = out@.len() as int;
        let e = elems.remove(0);
        proof {
            assert(e == orig[k]);
            assert(elems@ =~= orig.skip(k + 1));
        }
        match decode_record(e) {
            Ok(rec) => {
                out.push(rec);
                proof {
                    assert(forall|j: int|
                        0 <= j < out@.len() ==> spec_decode_record(#[trigger] orig[j]) == Some(
                            out.deep_view()[j],
                        ));
                }
            },
            Err(_) => {
                proof {
                    assert(spec_decode_record(orig[k]) is None);
                }
                return Err(LoadError::Decode(out.len()));
            },
        }
    }
    proof {
        assert(forall|i: int|
            0 <= i < orig.len() ==> spec_decode_record(#[trigger] orig[i]) is Some);
        assert(out.deep_view() =~= orig.map_values(|e: JsonValue| spec_decode_record(e).unwrap()));
    }
    Ok(out)
}

/// The comparison key a pair lookup uses: the token symbol, a slash with
/// one space on each side, the base symbol.
pub open spec fn pair_key(token: Seq<char>, base: Seq<char>) -> Seq<char> {
    token + " / "@ + base
}

/// The position of the first record whose name is the given key; a record
/// with an absent name never matches.
pub open spec fn spec_first_match(views: Seq<OracleModel>, key: Seq<char>) -> Option<int>
    decreases views.len(),
{
    if views.len() == 0 {
        None
    } else if views[0].name == Some(key) {
        Some(0)
    } else {
        match spec_first_match(views.skip(1), key) {
            Some(i) => Some(i + 1),
            None => None,
        }
    }
}

/// When position `i` matches and no earlier position does, the lookup
/// finds exactly position `i`.
pub proof fn lemma_first_match_found(views: Seq<OracleModel>, key: Seq<char>, i: int)
    requires
        0 <= i < views.len(),
        views[i].name == Some(key),
        forall|j: int| 0 <= j < i ==> (#[trigger] views[j]).name != Some(key),
    ensures
        spec_first_match(views, key) == Some(i),
    decreases i,
{
    if i == 0 {
    } else {
        assert(views[0].name != Some(key));
        assert(views.skip(1)[i - 1] == views[i]);
        assert(forall|j: int| 0 <= j < i - 1 ==> (#[trigger] views.skip(1)[j]) == views[j + 1]);
        lemma_first_match_found(views.skip(1), key, i - 1);
    }
}

/// When no position matches, the lookup finds nothing.
pub proof fn lemma_first_match_none(views: Seq<OracleModel>, key: Seq<char>)
    requires
        forall|j: int| 0 <= j < views.len() ==> (#[trigger] views[j]).name != Some(key),
    ensures
        spec_first_match(views, key) is None,
    decreases views.len(),
{
    if views.len() == 0 {
    } else {
        assert(forall|j: int|
            0 <= j < views.skip(1).len() ==> (#[trigger] views.skip(1)[j]) == views[j + 1]);
        lemma_first_match_none(views.skip(1), key);
    }
}

/// A found position always bears the looked-up name: a record whose name
/// is absent, or another name, is never the one a lookup returns.
pub proof fn lemma_first_match_matches(views: Seq<OracleModel>, key: Seq<char>)
    ensures
        spec_first_match(views, key) matches Some(m) ==> 0 <= m < views.len() && views[m].name
            == Some(key),
    decreases views.len(),
{
    if views.len() == 0 {
    } else if views[0].name == Some(key) {
    } else {
        lemma_first_match_matches(views.skip(1), key);
        match spec_first_match(views.skip(1), key) {
            Some(m) => {
                assert(views.skip(1)[m] == views[m + 1]);
            },
            None => {},
        }
    }
}

/// Among records sharing one name, the lookup returns the earliest in
/// sequence order: if any position `i` bears the looked-up name, a match
/// is found, it lies no later than `i`, and it bears that name itself —
/// so a later duplicate, and a record with no name at all, is never the
/// one returned.
pub proof fn lemma_lookup_first_of_duplicates(views: Seq<OracleModel>, key: Seq<char>, i: int)
    requires
        0 <= i < views.len(),
        views[i].name == Some(key),
    ensures
        spec_first_match(views, key) matches Some(m) && 0 <= m <= i && views[m].name == Some(key),
    decreases views.len(),
{
    if views[0].name == Some(key) {
    } else {
        assert(i > 0);
        assert(views.skip(1)[i - 1] == views[i]);
        lemma_lookup_first_of_duplicates(views.skip(1), key, i - 1);
        assert(forall|j: int|
            0 <= j < views.skip(1).len() ==> (#[trigger] views.skip(1)[j]) == views[j + 1]);
    }
}

/// The in-memory feed index of one chain: the records of one loaded
/// directory document, in document order, with pair-based lookup.
#[derive(Debug)]
pub struct OraclesIndex {
    pub chain: ChainId,
    pub feeds: Vec<Oracle>,
}

impl OraclesIndex {
    /// Builds the index for one chain from a parsed directory document.
    /// Succeeds exactly when the whole document decodes; a failed load
    /// yields no index at all.
    pub fn from_document(chain: ChainId, doc: JsonValue) -> (r: Result<OraclesIndex, LoadError>)
        ensures
            match r {
                Ok(index) => index.chain == chain && spec_document_records(doc) == Some(
                    index.feeds.deep_view(),
                ),
                Err(LoadError::Decode(ix)) => {
                    &&& spec_document_records(doc) is None
                    &&& !(doc is Array) ==> ix == 0
                    &&& doc is Array ==> {
                        &&& ix < doc->Array_0@.len()
                        &&& spec_decode_record(doc->Array_0@[ix as int]) is None
                        &&& forall|j: int|
                            0 <= j < ix ==> spec_decode_record(#[trigger] doc->Array_0@[j]) is Some
                    }
                },
                Err(LoadError::Network(_)) => false,
            },
    {
        match decode_feed_records(doc) {
            Ok(feeds) => Ok(OraclesIndex { chain, feeds }),
            Err(e) => Err(e),
        }
    }

    /// Looks a feed up by its pair: the first record, in document order,
    /// whose name is exactly `"{token} / {base}"`. Case-sensitive and
    /// asymmetric in token and base; absence is an ordinary outcome, and a
    /// record with an absent name is never returned.
    pub fn get_oracle(&self, token: &str, base: &str) -> (r: Option<&Oracle>)
        ensures
            ({
                let views = self.feeds.deep_view();
                let key = pair_key(token@, base@);
                match r {
                    Some(rec) => spec_first_match(views, key) matches Some(i) && *rec
                        == self.feeds@[i],
                    None => spec_first_match(views, key) is None,
                }
            }),
    {
        let mut key = token.to_owned();
        key.append(" / ");
        key.append(base);
        let mut i: usize = 0;
        while i < self.feeds.len()
            invariant
                key@ == pair_key(token@, base@),
                i <= self.feeds@.len(),
                forall|j: int|
                    0 <= j < i ==> (#[trigger] self.feeds.deep_view()[j]).name != Some(key@),
            decreases self.feeds@.len() - i,
        {
            let rec = &self.feeds[i];
            let matched = match &rec.name {
                Some(n) => str_eq(n, key.as_str()),
                None => false,
            };
            if matched {
                proof {
                    assert(self.feeds.deep_view()[i as int].name == Some(key@));
                    lemma_first_match_found(self.feeds.deep_view(), key@, i as int);
                }
                return Some(rec);
            }
            proof {
                assert(self.feeds.deep_view()[i as int].name != Some(key@));
            }
            i = i + 1;
        }
        proof {
            lemma_first_match_none(self.feeds.deep_view(), key@);
        }
        None
    }
}

} // verus!

