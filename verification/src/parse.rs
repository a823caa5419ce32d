//! Parsing reply text into the library's document model.
//!
//! The JSON grammar itself is handled by serde_json behind the trusted
//! items below. What the parse returns is a function of the text
//! alone, so it carries a name — [`json_of`] — and the conversion into
//! [`JsonNode`] is verified to preserve that named value node by node;
//! everything past the parsed tree — lookup, section classification,
//! typed decoding — is verified code over [`JsonNode`].

use vstd::prelude::*;

use crate::json::{deep_elems, deep_members, lemma_deep_elems, lemma_deep_members, JsonMember,
    JsonNode, JsonVal};

verus! {

#[verifier::external_type_specification]
#[verifier::external_body]
pub struct ExValue(serde_json::Value);

#[verifier::external_type_specification]
#[verifier::external_body]
pub struct ExNumber(serde_json::Number);

#[verifier::external_type_specification]
#[verifier::external_body]
#[verifier::reject_recursive_types(K)]
#[verifier::reject_recursive_types(V)]
pub struct ExMap<K, V>(serde_json::Map<K, V>);

/// What serde_json's parse returns for a text: the document's
/// mathematical value when the text is JSON, nothing otherwise. The
/// parse depends on the text alone.
pub uninterp spec fn json_of(s: Seq<char>) -> Option<JsonVal>;

/// The mathematical value a parsed serde_json tree holds; integers
/// that fit 64 signed bits count as integers, every other number
/// counts as its display text.
pub uninterp spec fn val_of(v: serde_json::Value) -> JsonVal;

/// The values held by a parsed array's elements.
pub open spec fn vals_of(s: Seq<serde_json::Value>) -> Seq<JsonVal> {
    Seq::new(s.len(), |i: int| val_of(s[i]))
}

/// The (name, value) pairs a parsed object holds, in the order its
/// map yields them.
pub uninterp spec fn entries_of(m: serde_json::Map<String, serde_json::Value>) -> Seq<(Seq<char>, JsonVal)>;

/// The value a parsed number holds: an integer when it fits 64 signed
/// bits, its display text otherwise.
pub uninterp spec fn num_val(n: serde_json::Number) -> JsonVal;

/// The pieces of one parsed JSON value, one variant per grammar form.
pub enum ValueParts {
    /// The null value.
    PartNull,
    /// A boolean.
    PartBool(bool),
    /// A number, still in serde_json's representation.
    PartNum(serde_json::Number),
    /// A string.
    PartText(String),
    /// An array of values.
    PartArr(Vec<serde_json::Value>),
    /// An object of named members.
    PartObj(serde_json::Map<String, serde_json::Value>),
}

/// Relies on serde_json::from_str: parses JSON text into a value tree,
/// or fails on text that is not JSON; the result is a function of the
/// text alone.
#[verifier::external_body]
fn parse_value(s: &str) -> (r: Option<serde_json::Value>)
    ensures
        (match r {
            Some(v) => Some(val_of(v)),
            None => None::<JsonVal>,
        }) == json_of(s@),
{
    serde_json::from_str::<serde_json::Value>(s).ok()
}

/// Relies on the variant structure of serde_json::Value: hands each
/// variant's payload over unchanged, so the held value is preserved.
#[verifier::external_body]
fn split_value(v: serde_json::Value) -> (r: ValueParts)
    ensures
        match r {
            ValueParts::PartNull => val_of(v) == JsonVal::Null,
            ValueParts::PartBool(b) => val_of(v) == JsonVal::Bool(b),
            ValueParts::PartNum(n) => val_of(v) == num_val(n),
            ValueParts::PartText(s) => val_of(v) == JsonVal::Text(s@),
            ValueParts::PartArr(a) => val_of(v) == JsonVal::Arr(vals_of(a@)),
            ValueParts::PartObj(m) => val_of(v) == JsonVal::Obj(entries_of(m)),
        },
{
    match v {
        serde_json::Value::Null => ValueParts::PartNull,
        serde_json::Value::Bool(b) => ValueParts::PartBool(b),
        serde_json::Value::Number(n) => ValueParts::PartNum(n),
        serde_json::Value::String(s) => ValueParts::PartText(s),
        serde_json::Value::Array(a) => ValueParts::PartArr(a),
        serde_json::Value::Object(m) => ValueParts::PartObj(m),
    }
}

/// Relies on serde_json::Map::into_iter: hands the members out as
/// (name, value) pairs, exactly the pairs the map holds.
#[verifier::external_body]
fn map_entries(m: serde_json::Map<String, serde_json::Value>) -> (r: Vec<(String, serde_json::Value)>)
    ensures
        r@.len() == entries_of(m).len(),
        forall|i: int| 0 <= i < r@.len()
            ==> entries_of(m)[i] == ((#[trigger] r@[i]).0@, val_of(r@[i].1)),
{
    m.into_iter().collect()
}

/// Relies on serde_json::Number::as_i64: the number's value exactly
/// when it is an integer representable in 64 signed bits.
#[verifier::external_body]
fn num_as_i64(n: &serde_json::Number) -> (r: Option<i64>)
    ensures
        match r {
            Some(i) => num_val(*n) == JsonVal::Int(i as int),
            None => num_val(*n) is Num,
        },
{
    n.as_i64()
}

/// Relies on serde_json::Number's display form: the number's text,
/// which is what a non-integer number counts as.
#[verifier::external_body]
fn num_text(n: &serde_json::Number) -> (r: String)
    ensures
        num_val(*n) is Num ==> num_val(*n) == JsonVal::Num(r@),
{
    format!("{}", n)
}

/// How deep a parsed tree may nest; matches serde_json's own recursion
/// limit.
const MAX_DEPTH: u32 = 128;

/// Converts one parsed value into the library's model, preserving the
/// value it holds; trees nested deeper than `depth` are refused.
#[verifier::loop_isolation(false)]
fn node_of_value(v: serde_json::Value, depth: u32) -> (r: Option<JsonNode>)
    ensures
        r matches Some(n) ==> n.deep() == val_of(v),
    decreases depth,
{
    match split_value(v) {
        ValueParts::PartNull => Some(JsonNode::Null),
        ValueParts::PartBool(b) => Some(JsonNode::Bool(b)),
        ValueParts::PartNum(n) => {
            match num_as_i64(&n) {
                Some(i) => Some(JsonNode::Int(i)),
                None => Some(JsonNode::Num(num_text(&n))),
            }
        },
        ValueParts::PartText(s) => Some(JsonNode::Text(s)),
        ValueParts::PartArr(mut a) => {
            if depth == 0 {
                return None;
            }
            let ghost a0 = a@;
            let mut rev: Vec<serde_json::Value> = Vec::new();
            loop
                invariant
                    depth >= 1,
                    a@.len() + rev@.len() == a0.len(),
                    a@ == a0.take(a@.len() as int),
                    forall|i: int| 0 <= i < rev@.len()
                        ==> #[trigger] rev@[i] == a0[a0.len() - 1 - i],
                decreases a@.len(),
            {
                match a.pop() {
                    Some(x) => {
                        proof {
                            assert(a@ =~= a0.take(a@.len() as int));
                        }
                        rev.push(x);
                    },
                    None => { break; },
                }
            }
            let mut out: Vec<JsonNode> = Vec::new();
            loop
                invariant
                    depth >= 1,
                    out@.len() + rev@.len() == a0.len(),
                    forall|i: int| 0 <= i < rev@.len()
                        ==> #[trigger] rev@[i] == a0[a0.len() - 1 - i],
                    forall|i: int| 0 <= i < out@.len()
                        ==> (#[trigger] out@[i]).deep() == val_of(a0[i]),
                decreases rev@.len(),
            {
                match rev.pop() {
                    Some(x) => {
                        proof {
                            assert(x == a0[out@.len() as int]);
                        }
                        match node_of_value(x, depth - 1) {
                            Some(n) => { out.push(n); },
                            None => { return None; },
                        }
                    },
                    None => { break; },
                }
            }
            proof {
                lemma_deep_elems(out@);
                assert(deep_elems(out@) =~= vals_of(a0));
            }
            Some(JsonNode::Arr(out))
        },
        ValueParts::PartObj(m) => {
            if depth == 0 {
                return None;
            }
            let ghost mv = entries_of(m);
            let mut entries = map_entries(m);
            let ghost e0 = entries@;
            let mut rev: Vec<(String, serde_json::Value)> = Vec::new();
            loop
                invariant
                    depth >= 1,
                    entries@.len() + rev@.len() == e0.len(),
                    entries@ == e0.take(entries@.len() as int),
                    forall|i: int| 0 <= i < rev@.len()
                        ==> #[trigger] rev@[i] == e0[e0.len() - 1 - i],
                decreases entries@.len(),
            {
                match entries.pop() {
                    Some(x) => {
                        proof {
                            assert(entries@ =~= e0.take(entries@.len() as int));
                        }
                        rev.push(x);
                    },
                    None => { break; },
                }
            }
            let mut out: Vec<JsonMember> = Vec::new();
            loop
                invariant
                    depth >= 1,
                    mv == entries_of(m),
                    mv.len() == e0.len(),
                    forall|i: int| 0 <= i < e0.len()
                        ==> mv[i] == ((#[trigger] e0[i]).0@, val_of(e0[i].1)),
                    out@.len() + rev@.len() == e0.len(),
                    forall|i: int| 0 <= i < rev@.len()
                        ==> #[trigger] rev@[i] == e0[e0.len() - 1 - i],
                    forall|i: int| 0 <= i < out@.len()
                        ==> ((#[trigger] out@[i]).name@, out@[i].value.deep()) == mv[i],
                decreases rev@.len(),
            {
                match rev.pop() {
                    Some((name, x)) => {
                        proof {
                            assert((name, x) == e0[out@.len() as int]);
                        }
                        match node_of_value(x, depth - 1) {
                            Some(n) => { out.push(JsonMember { name, value: n }); },
                            None => { return None; },
                        }
                    },
                    None => { break; },
                }
            }
            proof {
                lemma_deep_members(out@);
                assert(deep_members(out@) =~= entries_of(m));
            }
            Some(JsonNode::Obj(out))
        },
    }
}

/// Parses reply text into the library's document model.
///
/// A text that serde_json parses yields the document holding exactly
/// the parsed value; a text that does not parse yields nothing. (A
/// tree nested absurdly deep is also refused.)
pub fn parse_json(s: &str) -> (r: Option<JsonNode>)
    ensures
        r matches Some(n) ==> json_of(s@) == Some(n.deep()),
        json_of(s@) is None ==> r is None,
{
    match parse_value(s) {
        Some(v) => node_of_value(v, MAX_DEPTH),
        None => None,
    }
}

} // verus!
