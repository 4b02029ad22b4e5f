use vstd::arithmetic::div_mod::lemma_div_denominator;
use vstd::prelude::*;
use vstd::string::*;

use crate::wire::{member_names, names_unique, WireValue};

verus! {

/// A number as the JSON reader keeps it: a sign, a decimal mantissa and a
/// power-of-ten exponent, so that its value is `± mantissa * 10^exponent`.
#[derive(Debug, Clone, Copy, PartialEq, Eq)]
pub struct JsonNumber {
    pub positive: bool,
    pub mantissa: u64,
    pub exponent: i16,
}

/// A parsed, untyped configuration document.
#[derive(Debug)]
pub enum ConfigDoc {
    Null,
    Bool(bool),
    Number(JsonNumber),
    Text(String),
    Array(Vec<ConfigDoc>),
    Object(Vec<(String, ConfigDoc)>),
}

/// One step of a path into a document: a member name or a list position.
#[derive(Debug)]
pub enum PathStep {
    Key(String),
    Index(usize),
}

/// Why a document could not be mapped to a wire value.
#[derive(Debug)]
pub enum MapError {
    /// A `null`, or a number out of the range of `Int`, at this path.
    UnsupportedValue(Vec<PathStep>),
    /// The document's top level is not an object.
    NotAnObject,
    /// The value handed over as a list is not an array.
    NotAnArray,
    /// The text is not a JSON document.
    Unparsable,
    /// The text is longer than `MAX_DOCUMENT_CHARS` characters.
    TooLarge,
}

/// The longest text handed to the JSON reader. Its number reader keeps a
/// 16-bit exponent that a fraction of more digits than this could push out
/// of range.
pub const MAX_DOCUMENT_CHARS: usize = 32768;

pub open spec fn pow10(n: nat) -> nat
    decreases n,
{
    if n == 0 {
        1
    } else {
        10 * pow10((n - 1) as nat)
    }
}

/// The magnitude of a number, truncated toward zero where the exponent is
/// negative: the fractional part is dropped.
pub open spec fn magnitude(n: JsonNumber) -> int {
    if n.exponent >= 0 {
        n.mantissa * pow10(n.exponent as nat)
    } else {
        n.mantissa as int / pow10((-n.exponent) as nat) as int
    }
}

/// The integer that a number maps to.
pub open spec fn number_value(n: JsonNumber) -> int {
    if n.positive {
        magnitude(n)
    } else {
        -magnitude(n)
    }
}

pub open spec fn fits_i64(v: int) -> bool {
    i64::MIN <= v <= i64::MAX
}

pub open spec fn doc_member_names(members: Seq<(String, ConfigDoc)>) -> Seq<Seq<char>> {
    members.map_values(|m: (String, ConfigDoc)| m.0@)
}

impl ConfigDoc {
    /// Holds no `null` and no number out of the range of `Int`, at any depth.
    pub open spec fn supported(self) -> bool
        decreases self,
    {
        match self {
            ConfigDoc::Null => false,
            ConfigDoc::Number(n) => fits_i64(number_value(n)),
            ConfigDoc::Array(items) => forall|i: int|
                0 <= i < items.len() ==> (#[trigger] items@[i]).supported(),
            ConfigDoc::Object(members) => forall|i: int|
                0 <= i < members.len() ==> (#[trigger] members@[i]).1.supported(),
            _ => true,
        }
    }

    /// A value that has no mapping: `null`, or a number out of range.
    pub open spec fn unsupported_scalar(self) -> bool {
        match self {
            ConfigDoc::Null => true,
            ConfigDoc::Number(n) => !fits_i64(number_value(n)),
            _ => false,
        }
    }

    /// Every object, at every depth, has unique member names.
    pub open spec fn wf(self) -> bool
        decreases self,
    {
        match self {
            ConfigDoc::Array(items) => forall|i: int|
                0 <= i < items.len() ==> (#[trigger] items@[i]).wf(),
            ConfigDoc::Object(members) => {
                &&& names_unique(doc_member_names(members@))
                &&& forall|i: int| 0 <= i < members.len() ==> (#[trigger] members@[i]).1.wf()
            },
            _ => true,
        }
    }

    /// Following `path` from this document reaches a value with no mapping.
    pub open spec fn leads_to_unsupported(self, path: Seq<PathStep>) -> bool
        decreases self,
    {
        if path.len() == 0 {
            self.unsupported_scalar()
        } else {
            match (self, path[0]) {
                (ConfigDoc::Array(items), PathStep::Index(i)) => {
                    &&& i < items.len()
                    &&& items@[i as int].leads_to_unsupported(path.drop_first())
                },
                (ConfigDoc::Object(members), PathStep::Key(k)) => exists|i: int|
                    0 <= i < members.len() && (#[trigger] members@[i]).0@ == k@
                        && members@[i].1.leads_to_unsupported(path.drop_first()),
                _ => false,
            }
        }
    }
}

/// `w` is the wire value that `d` maps to: strings, booleans and lists stay
/// as they are, numbers become their integer value, and objects become
/// structures with the same member names in the same order.
pub open spec fn mirrors(d: ConfigDoc, w: WireValue) -> bool
    decreases d,
{
    match d {
        ConfigDoc::Null => false,
        ConfigDoc::Bool(b) => w == WireValue::Bool(b),
        ConfigDoc::Number(n) => w == WireValue::Int(number_value(n) as i64) && fits_i64(
            number_value(n),
        ),
        ConfigDoc::Text(s) => w matches WireValue::Str(t) && t@ == s@,
        ConfigDoc::Array(items) => w matches WireValue::List(ws) && ws.len() == items.len()
            && forall|i: int| 0 <= i < items.len() ==> mirrors(#[trigger] items@[i], ws@[i]),
        ConfigDoc::Object(members) => w matches WireValue::Struct(ws) && ws.len()
            == members.len() && forall|i: int|
            0 <= i < members.len() ==> (#[trigger] ws@[i]).0@ == members@[i].0@ && mirrors(
                members@[i].1,
                ws@[i].1,
            ),
    }
}

/// Deep, order-sensitive equality of wire values: the same variant, the
/// same scalars, the same members in the same order.
pub open spec fn same_value(a: WireValue, b: WireValue) -> bool
    decreases a,
{
    match (a, b) {
        (WireValue::Str(x), WireValue::Str(y)) => x@ == y@,
        (WireValue::Int(x), WireValue::Int(y)) => x == y,
        (WireValue::Bool(x), WireValue::Bool(y)) => x == y,
        (WireValue::List(xs), WireValue::List(ys)) => xs.len() == ys.len() && forall|i: int|
            0 <= i < xs.len() ==> same_value(#[trigger] xs@[i], ys@[i]),
        (WireValue::Struct(xs), WireValue::Struct(ys)) => xs.len() == ys.len() && forall|i: int|
            0 <= i < xs.len() ==> (#[trigger] xs@[i]).0@ == ys@[i].0@ && same_value(
                xs@[i].1,
                ys@[i].1,
            ),
        _ => false,
    }
}

/// The magnitude of `i64::MIN`, the largest that an `i64` can carry.
pub const MAX_MAGNITUDE: u64 = 9223372036854775808;

proof fn lemma_pow10_positive(n: nat)
    ensures
        pow10(n) >= 1,
        n >= 1 ==> pow10(n) >= 10,
    decreases n,
{
    if n > 0 {
        lemma_pow10_positive((n - 1) as nat);
    }
}

/// The magnitude of `n`, where it is at most `MAX_MAGNITUDE`.
fn capped_magnitude(n: JsonNumber) -> (r: Option<u64>)
    ensures
        r matches Some(m) ==> m == magnitude(n) && m <= MAX_MAGNITUDE,
        r is None ==> magnitude(n) > MAX_MAGNITUDE,
{
    let mut m: u64 = n.mantissa;
    if n.exponent >= 0 {
        let e: i16 = n.exponent;
        let mut k: i16 = 0;
        proof {
            lemma_pow10_positive(e as nat);
            assert(m * pow10(e as nat) >= m) by (nonlinear_arith)
                requires
                    pow10(e as nat) >= 1,
            ;
        }
        if m > MAX_MAGNITUDE {
            return None;
        }
        while k < e
            invariant
                0 <= k <= e,
                e == n.exponent,
                m <= MAX_MAGNITUDE,
                m * pow10((e - k) as nat) == magnitude(n),
            decreases e - k,
        {
            let ghost rest: nat = (e - k - 1) as nat;
            proof {
                lemma_pow10_positive(rest);
                assert(pow10((e - k) as nat) == 10 * pow10(rest));
                assert(m * pow10((e - k) as nat) == (m * 10) * pow10(rest)) by (nonlinear_arith)
                    requires
                        pow10((e - k) as nat) == 10 * pow10(rest),
                ;
            }
            if m > MAX_MAGNITUDE / 10 {
                proof {
                    assert((m * 10) * pow10(rest) >= m * 10) by (nonlinear_arith)
                        requires
                            pow10(rest) >= 1,
                            m >= 0,
                    ;
                }
                return None;
            }
            m = m * 10;
            k = k + 1;
        }
        assert(k == e);
        assert(pow10(0) == 1);
        assert(m * pow10(0) == m);
        Some(m)
    } else {
        let count: u32 = (0 - (n.exponent as i32)) as u32;
        let mut k: u32 = 0;
        proof {
            assert(n.mantissa as int / 1 == n.mantissa);
        }
        while k < count
            invariant
                k <= count,
                count == -n.exponent,
                m == n.mantissa as int / pow10(k as nat) as int,
            decreases count - k,
        {
            proof {
                lemma_pow10_positive(k as nat);
                lemma_div_denominator(n.mantissa as int, pow10(k as nat) as int, 10);
                assert(pow10((k + 1) as nat) == pow10(k as nat) * 10);
            }
            m = m / 10;
            k = k + 1;
        }
        assert(k as nat == (-n.exponent) as nat);
        if m > MAX_MAGNITUDE {
            None
        } else {
            Some(m)
        }
    }
}

/// The integer that a number maps to: `± mantissa * 10^exponent`, with any
/// fractional part dropped (truncation toward zero), or `None` where that
/// integer is out of the range of `i64`.
pub fn number_to_int(n: JsonNumber) -> (r: Option<i64>)
    ensures
        r is Some <==> fits_i64(number_value(n)),
        r matches Some(v) ==> v == number_value(n),
{
    match capped_magnitude(n) {
        None => None,
        Some(m) => {
            if n.positive {
                if m <= i64::MAX as u64 {
                    Some(m as i64)
                } else {
                    None
                }
            } else if m == MAX_MAGNITUDE {
                Some(i64::MIN)
            } else {
                Some(0 - (m as i64))
            }
        },
    }
}

/// Maps a document to the wire value that mirrors it. Fails with
/// `UnsupportedValue` and the path of the offending value where the
/// document holds a `null` or a number out of range.
pub fn map_value(d: &ConfigDoc) -> (r: Result<WireValue, MapError>)
    ensures
        r is Ok <==> d.supported(),
        r matches Ok(w) ==> mirrors(*d, w) && (d.wf() ==> w.wf()),
        r matches Err(e) ==> e matches MapError::UnsupportedValue(p) && d.leads_to_unsupported(p@),
    decreases d,
{
    match d {
        ConfigDoc::Null => Err(MapError::UnsupportedValue(Vec::new())),
        ConfigDoc::Bool(b) => Ok(WireValue::Bool(*b)),
        ConfigDoc::Number(n) => match number_to_int(*n) {
            Some(v) => Ok(WireValue::Int(v)),
            None => Err(MapError::UnsupportedValue(Vec::new())),
        },
        ConfigDoc::Text(s) => Ok(WireValue::Str(s.clone())),
        ConfigDoc::Array(items) => match map_items(items) {
            Ok(ws) => {
                let w = WireValue::List(ws);
                assert(d.wf() ==> w.wf()) by {
                    if d.wf() {
                        assert forall|j: int| 0 <= j < ws.len() implies (#[trigger] ws@[j]).wf() by {
                            assert(items@[j].wf());
                        }
                    }
                }
                Ok(w)
            },
            Err(e) => Err(e),
        },
        ConfigDoc::Object(members) => match map_members(members) {
            Ok(ws) => {
                let w = WireValue::Struct(ws);
                assert(d.wf() ==> w.wf()) by {
                    if d.wf() {
                        assert forall|j: int| 0 <= j < ws.len() implies (#[trigger] ws@[j]).1.wf() by {
                            assert(members@[j].1.wf());
                        }
                    }
                }
                Ok(w)
            },
            Err(e) => Err(e),
        },
    }
}

fn map_items(items: &Vec<ConfigDoc>) -> (r: Result<Vec<WireValue>, MapError>)
    ensures
        r is Ok <==> forall|j: int| 0 <= j < items.len() ==> (#[trigger] items@[j]).supported(),
        r matches Ok(ws) ==> {
            &&& ws.len() == items.len()
            &&& forall|j: int| 0 <= j < items.len() ==> mirrors(#[trigger] items@[j], ws@[j])
            &&& forall|j: int| 0 <= j < items.len() ==> (#[trigger] items@[j]).wf() ==> ws@[j].wf()
        },
        r matches Err(e) ==> e matches MapError::UnsupportedValue(p) && p@.len() > 0 && (
        p@[0] matches PathStep::Index(k) && k < items.len() && items@[k as int].leads_to_unsupported(
            p@.drop_first(),
        )),
    decreases items,
{
    let mut ws: Vec<WireValue> = Vec::new();
    let mut i: usize = 0;
    while i < items.len()
        invariant
            i <= items.len(),
            ws.len() == i,
            forall|j: int| 0 <= j < i ==> mirrors(#[trigger] items@[j], ws@[j]),
            forall|j: int| 0 <= j < i ==> (#[trigger] items@[j]).supported(),
            forall|j: int| 0 <= j < i ==> (#[trigger] items@[j]).wf() ==> ws@[j].wf(),
        decreases items.len() - i,
    {
        match map_value(&items[i]) {
            Ok(w) => {
                ws.push(w);
            },
            Err(e) => {
                if let MapError::UnsupportedValue(mut p) = e {
                    let ghost rest = p@;
                    p.insert(0, PathStep::Index(i));
                    assert(p@.drop_first() =~= rest);
                    return Err(MapError::UnsupportedValue(p));
                }
                return Err(e);
            },
        }
        i = i + 1;
    }
    Ok(ws)
}

fn map_members(members: &Vec<(String, ConfigDoc)>) -> (r: Result<Vec<(String, WireValue)>, MapError>)
    ensures
        r is Ok <==> forall|j: int|
            0 <= j < members.len() ==> (#[trigger] members@[j]).1.supported(),
        r matches Ok(ws) ==> {
            &&& ws.len() == members.len()
            &&& forall|j: int|
                0 <= j < members.len() ==> (#[trigger] ws@[j]).0@ == members@[j].0@ && mirrors(
                    members@[j].1,
                    ws@[j].1,
                )
            &&& forall|j: int|
                0 <= j < members.len() ==> (#[trigger] members@[j]).1.wf() ==> ws@[j].1.wf()
            &&& member_names(ws@) == doc_member_names(members@)
        },
        r matches Err(e) ==> e matches MapError::UnsupportedValue(p) && p@.len() > 0 && (
        p@[0] matches PathStep::Key(k) && exists|j: int|
            0 <= j < members.len() && (#[trigger] members@[j]).0@ == k@
                && members@[j].1.leads_to_unsupported(p@.drop_first())),
    decreases members,
{
    let mut ws: Vec<(String, WireValue)> = Vec::new();
    let mut i: usize = 0;
    while i < members.len()
        invariant
            i <= members.len(),
            ws.len() == i,
            forall|j: int|
                0 <= j < i ==> (#[trigger] ws@[j]).0@ == members@[j].0@ && mirrors(
                    members@[j].1,
                    ws@[j].1,
                ),
            forall|j: int| 0 <= j < i ==> (#[trigger] members@[j]).1.supported(),
            forall|j: int| 0 <= j < i ==> (#[trigger] members@[j]).1.wf() ==> ws@[j].1.wf(),
        decreases members.len() - i,
    {
        match map_value(&members[i].1) {
            Ok(w) => {
                ws.push((members[i].0.clone(), w));
            },
            Err(e) => {
                if let MapError::UnsupportedValue(mut p) = e {
                    let ghost rest = p@;
                    p.insert(0, PathStep::Key(members[i].0.clone()));
                    assert(p@.drop_first() =~= rest);
                    return Err(MapError::UnsupportedValue(p));
                }
                return Err(e);
            },
        }
        i = i + 1;
    }
    assert(member_names(ws@) =~= doc_member_names(members@));
    Ok(ws)
}

/// Maps the members of a top-level object, in document order.
pub fn json_to_btree(parsed: &ConfigDoc) -> (r: Result<Vec<(String, WireValue)>, MapError>)
    ensures
        !(parsed is Object) ==> r matches Err(MapError::NotAnObject),
        parsed is Object ==> (r is Ok <==> parsed.supported()),
        r matches Ok(ws) ==> mirrors(*parsed, WireValue::Struct(ws)) && (parsed.wf()
            ==> WireValue::Struct(ws).wf()),
        parsed is Object && r is Err ==> (r matches Err(MapError::UnsupportedValue(p))
            && parsed.leads_to_unsupported(p@)),
{
    match parsed {
        ConfigDoc::Object(members) => map_members(members),
        _ => Err(MapError::NotAnObject),
    }
}

/// Maps the elements of an array, in order.
pub fn json_array_to_xmlrpc(json_array: &ConfigDoc) -> (r: Result<Vec<WireValue>, MapError>)
    ensures
        !(json_array is Array) ==> r matches Err(MapError::NotAnArray),
        json_array is Array ==> (r is Ok <==> json_array.supported()),
        r matches Ok(ws) ==> mirrors(*json_array, WireValue::List(ws)),
        json_array is Array && r is Err ==> (r matches Err(MapError::UnsupportedValue(p))
            && json_array.leads_to_unsupported(p@)),
{
    match json_array {
        ConfigDoc::Array(items) => map_items(items),
        _ => Err(MapError::NotAnArray),
    }
}

/// The document that the JSON reader makes of `text`, or `None` where the
/// reader rejects it.
pub uninterp spec fn json_document(text: Seq<char>) -> Option<ConfigDoc>;

#[verifier::external_type_specification]
#[verifier::external_body]
pub struct ExJsonValue(json::JsonValue);

/// Relies on json::parse: whether it accepts `text`, and the document it
/// builds, depend on the text alone.
#[verifier::external_body]
pub(crate) fn parse_json(text: &str) -> (r: Option<ConfigDoc>)
    requires
        text@.len() <= MAX_DOCUMENT_CHARS,
    ensures
        r == json_document(text@),
{
    match json::parse(text) {
        Ok(v) => Some(doc_from_json(&v)),
        Err(_) => None,
    }
}

/// Relies on json::JsonValue's variants, json::number::Number::as_parts and
/// json::object::Object::iter (members in document order) to copy a parsed
/// value; it claims nothing of the copy.
#[verifier::external_body]
fn doc_from_json(v: &json::JsonValue) -> ConfigDoc {
    match v {
        json::JsonValue::Null => ConfigDoc::Null,
        json::JsonValue::Short(s) => ConfigDoc::Text(s.as_str().to_string()),
        json::JsonValue::String(s) => ConfigDoc::Text(s.clone()),
        json::JsonValue::Number(n) => {
            let (positive, mantissa, exponent) = n.as_parts();
            ConfigDoc::Number(JsonNumber { positive, mantissa, exponent })
        },
        json::JsonValue::Boolean(b) => ConfigDoc::Bool(*b),
        json::JsonValue::Object(o) => ConfigDoc::Object(
            o.iter().map(|(k, m)| (k.to_string(), doc_from_json(m))).collect(),
        ),
        json::JsonValue::Array(a) => ConfigDoc::Array(a.iter().map(doc_from_json).collect()),
    }
}

/// Reads a configuration document from its text and maps it to the `Struct`
/// that mirrors its top-level object.
pub fn formula_payload(text: &str) -> (r: Result<WireValue, MapError>)
    ensures
        text@.len() > MAX_DOCUMENT_CHARS ==> r matches Err(MapError::TooLarge),
        text@.len() <= MAX_DOCUMENT_CHARS && json_document(text@) is None ==> r matches Err(
            MapError::Unparsable,
        ),
        text@.len() <= MAX_DOCUMENT_CHARS ==> (json_document(text@) matches Some(d) ==> {
            &&& (!(d is Object) ==> (r matches Err(MapError::NotAnObject)))
            &&& (d is Object ==> (r is Ok <==> d.supported()))
            &&& (r matches Ok(w) ==> mirrors(d, w) && (d.wf() ==> w.wf()))
            &&& (d is Object && r is Err ==> (r matches Err(MapError::UnsupportedValue(p))
                && d.leads_to_unsupported(p@)))
        }),
{
    if text.unicode_len() > MAX_DOCUMENT_CHARS {
        return Err(MapError::TooLarge);
    }
    match parse_json(text) {
        None => Err(MapError::Unparsable),
        Some(doc) => match doc {
            ConfigDoc::Object(_) => map_value(&doc),
            _ => Err(MapError::NotAnObject),
        },
    }
}

/// Mapping is deterministic: two wire values that mirror the same document
/// are the same value, with the same members in the same order at every
/// depth.
pub proof fn lemma_mapping_deterministic(d: ConfigDoc, w1: WireValue, w2: WireValue)
    requires
        mirrors(d, w1),
        mirrors(d, w2),
    ensures
        same_value(w1, w2),
    decreases d,
{
    match d {
        ConfigDoc::Array(items) => {
            let xs = w1->List_0;
            let ys = w2->List_0;
            assert forall|i: int| 0 <= i < xs.len() implies same_value(
                #[trigger] xs@[i],
                ys@[i],
            ) by {
                lemma_mapping_deterministic(items@[i], xs@[i], ys@[i]);
            }
        },
        ConfigDoc::Object(members) => {
            let xs = w1->Struct_0;
            let ys = w2->Struct_0;
            assert forall|i: int| 0 <= i < xs.len() implies (#[trigger] xs@[i]).0@ == ys@[i].0@
                && same_value(xs@[i].1, ys@[i].1) by {
                lemma_mapping_deterministic(members@[i].1, xs@[i].1, ys@[i].1);
            }
        },
        _ => {},
    }
}

/// Mapping keeps the order of members: the structure that an object maps
/// to lists the object's member names in the order they appear in the
/// document.
pub proof fn lemma_mapping_keeps_member_order(d: ConfigDoc, w: WireValue)
    requires
        mirrors(d, w),
        d is Object,
    ensures
        w is Struct,
        member_names(w->Struct_0@) == doc_member_names(d->Object_0@),
{
    assert(member_names(w->Struct_0@) =~= doc_member_names(d->Object_0@));
}

/// A document with a `null` (or a number out of range) at any depth has no
/// mapping: `map_value` fails on it, and only with `UnsupportedValue`.
pub proof fn lemma_unsupported_is_rejected(d: ConfigDoc, path: Seq<PathStep>)
    requires
        d.leads_to_unsupported(path),
    ensures
        !d.supported(),
    decreases d,
{
    if path.len() > 0 {
        match (d, path[0]) {
            (ConfigDoc::Array(items), PathStep::Index(i)) => {
                lemma_unsupported_is_rejected(items@[i as int], path.drop_first());
            },
            (ConfigDoc::Object(members), PathStep::Key(k)) => {
                let j = choose|j: int|
                    0 <= j < members.len() && (#[trigger] members@[j]).0@ == k@
                        && members@[j].1.leads_to_unsupported(path.drop_first());
                lemma_unsupported_is_rejected(members@[j].1, path.drop_first());
            },
            _ => {},
        }
    }
}

/// Deep equality of documents up to how numbers are written: the same
/// variant, the same texts and booleans, numbers of the same value, and the
/// same members in the same order at every depth.
pub open spec fn same_document(a: ConfigDoc, b: ConfigDoc) -> bool
    decreases a,
{
    match (a, b) {
        (ConfigDoc::Null, ConfigDoc::Null) => true,
        (ConfigDoc::Bool(x), ConfigDoc::Bool(y)) => x == y,
        (ConfigDoc::Number(x), ConfigDoc::Number(y)) => number_value(x) == number_value(y),
        (ConfigDoc::Text(x), ConfigDoc::Text(y)) => x@ == y@,
        (ConfigDoc::Array(xs), ConfigDoc::Array(ys)) => xs.len() == ys.len() && forall|i: int|
            0 <= i < xs.len() ==> same_document(#[trigger] xs@[i], ys@[i]),
        (ConfigDoc::Object(xs), ConfigDoc::Object(ys)) => xs.len() == ys.len() && forall|i: int|
            0 <= i < xs.len() ==> (#[trigger] xs@[i]).0@ == ys@[i].0@ && same_document(
                xs@[i].1,
                ys@[i].1,
            ),
        _ => false,
    }
}

/// Mapping and writing back agree: a document that is written back from
/// the wire value another document maps to is that document again, with
/// its members in the same order and its values equal (numbers by value).
pub proof fn lemma_mapping_round_trip(d: ConfigDoc, w: WireValue, back: ConfigDoc)
    requires
        mirrors(d, w),
        mirrors(back, w),
    ensures
        same_document(d, back),
    decreases d,
{
    match d {
        ConfigDoc::Array(items) => {
            let others = back->Array_0;
            let ws = w->List_0;
            assert forall|i: int| 0 <= i < items.len() implies same_document(
                #[trigger] items@[i],
                others@[i],
            ) by {
                lemma_mapping_round_trip(items@[i], ws@[i], others@[i]);
            }
        },
        ConfigDoc::Object(members) => {
            let others = back->Object_0;
            let ws = w->Struct_0;
            assert forall|i: int| 0 <= i < members.len() implies (#[trigger] members@[i]).0@
                == others@[i].0@ && same_document(members@[i].1, others@[i].1) by {
                lemma_mapping_round_trip(members@[i].1, ws@[i].1, others@[i].1);
            }
        },
        _ => {},
    }
}

} // verus!
