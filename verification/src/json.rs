//! The frontend's structured values, and the engine's values turned into
//! them.

use vstd::prelude::*;
use vstd::string::StringExecFns;
use crate::libmpv::models::{double_is_finite, is_finite_bits, MpvNode, NodeModel};
use crate::libmpv::node::{entries_of, models_of};

verus! {

/// One member of an object.
#[derive(Debug, PartialEq, Eq)]
pub struct JsonEntry {
    pub key: String,
    pub value: JsonValue,
}

/// A value as the frontend sends and receives it. A number is an integer,
/// signed or unsigned, or a double, held by the 64 bits of its IEEE 754
/// encoding; an object keeps the order of its members.
#[derive(Debug, PartialEq, Eq)]
pub enum JsonValue {
    Null,
    Bool(bool),
    Int(i64),
    UInt(u64),
    Double(u64),
    String(String),
    Array(Vec<JsonValue>),
    Object(Vec<JsonEntry>),
}

/// The mathematical value of a `JsonValue`.
pub enum JsonModel {
    Null,
    Bool(bool),
    Int(int),
    Double(u64),
    Text(Seq<char>),
    Array(Seq<JsonModel>),
    Object(Seq<(Seq<char>, JsonModel)>),
}

impl JsonValue {
    /// The mathematical value.
    pub open spec fn model(self) -> JsonModel
        decreases self,
    {
        match self {
            JsonValue::Null => JsonModel::Null,
            JsonValue::Bool(b) => JsonModel::Bool(b),
            JsonValue::Int(i) => JsonModel::Int(i as int),
            JsonValue::UInt(n) => JsonModel::Int(n as int),
            JsonValue::Double(bits) => JsonModel::Double(bits),
            JsonValue::String(s) => JsonModel::Text(s@),
            JsonValue::Array(v) => JsonModel::Array(
                Seq::new(
                    v@.len(),
                    |i: int|
                        if 0 <= i < v@.len() {
                            v@[i].model()
                        } else {
                            JsonModel::Null
                        },
                ),
            ),
            JsonValue::Object(v) => JsonModel::Object(
                Seq::new(
                    v@.len(),
                    |i: int|
                        if 0 <= i < v@.len() {
                            (v@[i].key@, v@[i].value.model())
                        } else {
                            (Seq::empty(), JsonModel::Null)
                        },
                ),
            ),
        }
    }
}

impl View for JsonValue {
    type V = JsonModel;

    open spec fn view(&self) -> JsonModel {
        self.model()
    }
}

/// The models of an object's members, in order.
pub open spec fn json_entries_of(v: Seq<JsonEntry>) -> Seq<(Seq<char>, JsonModel)> {
    Seq::new(v.len(), |i: int| (v[i].key@, v[i].value.model()))
}

/// The text that the standard base64 alphabet, with padding, encodes the
/// bytes to.
pub uninterp spec fn base64_standard(bytes: Seq<u8>) -> Seq<char>;

/// Calls `encode` of base64's `STANDARD` engine (the alphabet of RFC 4648
/// with `+` and `/`, padded with `=`). The result is a function of the bytes
/// alone. The call panics only where four thirds of the length overflow
/// `usize`, which no vector's length does. Believed, not proved.
#[verifier::external_body]
pub(crate) fn base64_encode(bytes: &Vec<u8>) -> (res: String)
    ensures
        res@ == base64_standard(bytes@),
{
    base64::Engine::encode(&base64::engine::general_purpose::STANDARD, bytes)
}

/// The frontend's value for an engine value: a double that is not finite
/// becomes null, a byte string its base64 text, a keyed list an object with
/// the same keys in the same order; everything else keeps its shape.
pub open spec fn json_of(m: NodeModel) -> JsonModel
    decreases m,
{
    match m {
        NodeModel::Null => JsonModel::Null,
        NodeModel::Text(s) => JsonModel::Text(s),
        NodeModel::Flag(b) => JsonModel::Bool(b),
        NodeModel::Int64(i) => JsonModel::Int(i),
        NodeModel::Double(bits) => if is_finite_bits(bits) {
            JsonModel::Double(bits)
        } else {
            JsonModel::Null
        },
        NodeModel::Array(items) => JsonModel::Array(
            Seq::new(
                items.len(),
                |i: int|
                    if 0 <= i < items.len() {
                        json_of(items[i])
                    } else {
                        JsonModel::Null
                    },
            ),
        ),
        NodeModel::Dict(entries) => JsonModel::Object(
            Seq::new(
                entries.len(),
                |i: int|
                    if 0 <= i < entries.len() {
                        (entries[i].0, json_of(entries[i].1))
                    } else {
                        (Seq::empty(), JsonModel::Null)
                    },
            ),
        ),
        NodeModel::Bytes(bytes) => JsonModel::Text(base64_standard(bytes)),
    }
}

impl MpvNode {
    /// The frontend's value for this engine value.
    pub fn to_json(&self) -> (res: JsonValue)
        ensures
            res.model() == json_of(self.model()),
        decreases self,
    {
        match self {
            MpvNode::Null => JsonValue::Null,
            MpvNode::String(s) => JsonValue::String(s.clone()),
            MpvNode::Flag(b) => JsonValue::Bool(*b),
            MpvNode::Int64(i) => JsonValue::Int(*i),
            MpvNode::Double(bits) => {
                if double_is_finite(*bits) {
                    JsonValue::Double(*bits)
                } else {
                    JsonValue::Null
                }
            },
            MpvNode::NodeArray(v) => {
                let mut out: Vec<JsonValue> = Vec::new();
                let mut i: usize = 0;
                while i < v.len()
                    invariant
                        *self is NodeArray,
                        self->NodeArray_0 == *v,
                        i <= v.len(),
                        out@.len() == i,
                        forall|k: int|
                            0 <= k < i ==> (#[trigger] out@[k]).model() == json_of(v@[k].model()),
                    decreases v.len() - i,
                {
                    proof {
                        assert(decreases_to!(*v => v[i as int]));
                    }
                    let item = v[i].to_json();
                    out.push(item);
                    i += 1;
                }
                let res = JsonValue::Array(out);
                proof {
                    assert(self.model()->Array_0 =~= models_of(v@));
                    assert(res.model()->Array_0 =~= json_of(self.model())->Array_0);
                }
                res
            },
            MpvNode::NodeMap(v) => {
                let mut out: Vec<JsonEntry> = Vec::new();
                let mut i: usize = 0;
                while i < v.len()
                    invariant
                        *self is NodeMap,
                        self->NodeMap_0 == *v,
                        i <= v.len(),
                        out@.len() == i,
                        forall|k: int|
                            0 <= k < i ==> (#[trigger] out@[k]).key@ == v@[k].key@ && out@[k]
                                .value.model() == json_of(v@[k].value.model()),
                    decreases v.len() - i,
                {
                    proof {
                        assert(decreases_to!(*v => v[i as int]));
                    }
                    let value = v[i].value.to_json();
                    out.push(JsonEntry { key: v[i].key.clone(), value });
                    i += 1;
                }
                let res = JsonValue::Object(out);
                proof {
                    assert(self.model()->Dict_0 =~= entries_of(v@));
                    assert(res.model()->Object_0 =~= json_of(self.model())->Object_0);
                }
                res
            },
            MpvNode::ByteArray(bytes) => JsonValue::String(base64_encode(bytes)),
        }
    }

    /// Turns the engine value into the frontend's.
    pub fn into(self) -> (res: JsonValue)
        ensures
            res.model() == json_of(self.model()),
    {
        self.to_json()
    }
}

/// A member of an object.
pub fn member(key: &str, value: JsonValue) -> (res: JsonEntry)
    ensures
        res.key@ == key@,
        res.value == value,
{
    JsonEntry { key: String::from_str(key), value }
}

/// The object with the given members, in their order.
pub fn object(entries: Vec<JsonEntry>) -> (res: JsonValue)
    ensures
        res.model() == JsonModel::Object(json_entries_of(entries@)),
{
    let res = JsonValue::Object(entries);
    proof {
        assert(res.model()->Object_0 =~= json_entries_of(entries@));
    }
    res
}

/// The list of the given texts, in their order.
pub fn text_array(texts: &Vec<String>) -> (res: JsonValue)
    ensures
        res.model() == JsonModel::Array(
            Seq::new(texts@.len(), |i: int| JsonModel::Text(texts@[i]@)),
        ),
{
    let mut items: Vec<JsonValue> = Vec::new();
    let mut i: usize = 0;
    while i < texts.len()
        invariant
            i <= texts.len(),
            items@.len() == i,
            forall|k: int| 0 <= k < i ==> (#[trigger] items@[k]).model() == JsonModel::Text(
                texts@[k]@,
            ),
        decreases texts.len() - i,
    {
        items.push(JsonValue::String(texts[i].clone()));
        i += 1;
    }
    let res = JsonValue::Array(items);
    proof {
        assert(res.model()->Array_0 =~= Seq::new(
            texts@.len(),
            |i: int| JsonModel::Text(texts@[i]@),
        ));
    }
    res
}

} // verus!
