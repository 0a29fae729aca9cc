//! Property formats and the dynamic values that the engine hands out.

use vstd::prelude::*;

verus! {

/// The engine's code for "no value".
pub const MPV_FORMAT_NONE: u32 = 0;

/// The engine's code for a text value.
pub const MPV_FORMAT_STRING: u32 = 1;

/// The engine's code for a text value formatted for on-screen display.
pub const MPV_FORMAT_OSD_STRING: u32 = 2;

/// The engine's code for a flag.
pub const MPV_FORMAT_FLAG: u32 = 3;

/// The engine's code for a signed 64-bit integer.
pub const MPV_FORMAT_INT64: u32 = 4;

/// The engine's code for a double.
pub const MPV_FORMAT_DOUBLE: u32 = 5;

/// The engine's code for a dynamic value.
pub const MPV_FORMAT_NODE: u32 = 6;

/// The engine's code for a list of dynamic values.
pub const MPV_FORMAT_NODE_ARRAY: u32 = 7;

/// The engine's code for a keyed list of dynamic values.
pub const MPV_FORMAT_NODE_MAP: u32 = 8;

/// The engine's code for a byte string.
pub const MPV_FORMAT_BYTE_ARRAY: u32 = 9;

/// The format in which a property is read or observed.
#[derive(Debug, Clone, Copy, PartialEq, Eq)]
pub enum MpvFormat {
    String,
    Flag,
    Int64,
    Double,
    Node,
}

impl MpvFormat {
    /// The engine's code of the format.
    pub open spec fn spec_code(self) -> u32 {
        match self {
            MpvFormat::String => MPV_FORMAT_STRING,
            MpvFormat::Flag => MPV_FORMAT_FLAG,
            MpvFormat::Int64 => MPV_FORMAT_INT64,
            MpvFormat::Double => MPV_FORMAT_DOUBLE,
            MpvFormat::Node => MPV_FORMAT_NODE,
        }
    }

    /// The format that an engine code stands for, if it is one in which a
    /// property can be read.
    pub open spec fn spec_from_code(code: u32) -> Option<MpvFormat> {
        if code == MPV_FORMAT_STRING {
            Some(MpvFormat::String)
        } else if code == MPV_FORMAT_FLAG {
            Some(MpvFormat::Flag)
        } else if code == MPV_FORMAT_INT64 {
            Some(MpvFormat::Int64)
        } else if code == MPV_FORMAT_DOUBLE {
            Some(MpvFormat::Double)
        } else if code == MPV_FORMAT_NODE {
            Some(MpvFormat::Node)
        } else {
            None
        }
    }

    /// The engine's code of the format.
    pub fn code(self) -> (c: u32)
        ensures
            c == self.spec_code(),
    {
        match self {
            MpvFormat::String => MPV_FORMAT_STRING,
            MpvFormat::Flag => MPV_FORMAT_FLAG,
            MpvFormat::Int64 => MPV_FORMAT_INT64,
            MpvFormat::Double => MPV_FORMAT_DOUBLE,
            MpvFormat::Node => MPV_FORMAT_NODE,
        }
    }

    /// Reads an engine code back into a format.
    pub fn from_code(code: u32) -> (f: Option<MpvFormat>)
        ensures
            f == Self::spec_from_code(code),
    {
        if code == MPV_FORMAT_STRING {
            Some(MpvFormat::String)
        } else if code == MPV_FORMAT_FLAG {
            Some(MpvFormat::Flag)
        } else if code == MPV_FORMAT_INT64 {
            Some(MpvFormat::Int64)
        } else if code == MPV_FORMAT_DOUBLE {
            Some(MpvFormat::Double)
        } else if code == MPV_FORMAT_NODE {
            Some(MpvFormat::Node)
        } else {
            None
        }
    }

    /// Every format is read back from its own code.
    pub proof fn code_is_read_back(f: MpvFormat)
        ensures
            Self::spec_from_code(f.spec_code()) == Some(f),
    {
    }
}

/// A dynamic value of the engine. A double is held by the 64 bits of its
/// IEEE 754 encoding; one that is read from the engine is finite, since a
/// double that is not finite is read as null. A keyed list keeps the order
/// in which its keys were first inserted.
#[derive(Debug, PartialEq, Eq)]
pub enum MpvNode {
    Null,
    String(String),
    Flag(bool),
    Int64(i64),
    Double(u64),
    NodeArray(Vec<MpvNode>),
    NodeMap(Vec<MapEntry>),
    ByteArray(Vec<u8>),
}

/// One entry of a keyed list.
#[derive(Debug, PartialEq, Eq)]
pub struct MapEntry {
    pub key: String,
    pub value: MpvNode,
}

/// The mathematical value of an `MpvNode`.
pub enum NodeModel {
    Null,
    Text(Seq<char>),
    Flag(bool),
    Int64(int),
    Double(u64),
    Array(Seq<NodeModel>),
    Dict(Seq<(Seq<char>, NodeModel)>),
    Bytes(Seq<u8>),
}

/// A property's value in one of the five formats.
#[derive(Debug, PartialEq, Eq)]
pub enum PropertyValue {
    String(String),
    Flag(bool),
    Int64(i64),
    Double(u64),
    Node(MpvNode),
}

impl MpvNode {
    /// The mathematical value of the node.
    pub open spec fn model(self) -> NodeModel
        decreases self,
    {
        match self {
            MpvNode::Null => NodeModel::Null,
            MpvNode::String(s) => NodeModel::Text(s@),
            MpvNode::Flag(b) => NodeModel::Flag(b),
            MpvNode::Int64(i) => NodeModel::Int64(i as int),
            MpvNode::Double(bits) => NodeModel::Double(bits),
            MpvNode::NodeArray(v) => NodeModel::Array(
                Seq::new(
                    v@.len(),
                    |i: int|
                        if 0 <= i < v@.len() {
                            v@[i].model()
                        } else {
                            NodeModel::Null
                        },
                ),
            ),
            MpvNode::NodeMap(v) => NodeModel::Dict(
                Seq::new(
                    v@.len(),
                    |i: int|
                        if 0 <= i < v@.len() {
                            (v@[i].key@, v@[i].value.model())
                        } else {
                            (Seq::empty(), NodeModel::Null)
                        },
                ),
            ),
            MpvNode::ByteArray(b) => NodeModel::Bytes(b@),
        }
    }
}

impl View for MpvNode {
    type V = NodeModel;

    open spec fn view(&self) -> NodeModel {
        self.model()
    }
}

/// No key occurs twice among the entries.
pub open spec fn keys_distinct(entries: Seq<(Seq<char>, NodeModel)>) -> bool {
    forall|i: int, j: int|
        0 <= i < j < entries.len() ==> (#[trigger] entries[i]).0 != (#[trigger] entries[j]).0
}

/// Every keyed list in the value, at any depth, has distinct keys.
pub open spec fn well_keyed(m: NodeModel) -> bool
    decreases m,
{
    match m {
        NodeModel::Array(items) => forall|i: int|
            0 <= i < items.len() ==> well_keyed(#[trigger] items[i]),
        NodeModel::Dict(entries) => keys_distinct(entries) && forall|i: int|
            0 <= i < entries.len() ==> well_keyed((#[trigger] entries[i]).1),
        _ => true,
    }
}

/// The bits encode a finite double: the exponent is not all ones, which is
/// what infinities and NaN have.
pub open spec fn is_finite_bits(bits: u64) -> bool {
    (bits >> 52) & 0x7ff != 0x7ff
}

/// Tells whether the bits encode a finite double.
pub fn double_is_finite(bits: u64) -> (res: bool)
    ensures
        res == is_finite_bits(bits),
{
    (bits >> 52) & 0x7ff != 0x7ff
}

/// Every double in the value, at any depth, is finite.
pub open spec fn finite_doubles(m: NodeModel) -> bool
    decreases m,
{
    match m {
        NodeModel::Double(bits) => is_finite_bits(bits),
        NodeModel::Array(items) => forall|i: int|
            0 <= i < items.len() ==> finite_doubles(#[trigger] items[i]),
        NodeModel::Dict(entries) => forall|i: int|
            0 <= i < entries.len() ==> finite_doubles((#[trigger] entries[i]).1),
        _ => true,
    }
}

/// The value is one that the engine's layout gives back as it is: no keyed
/// list in it holds a key twice and every double in it is finite.
pub open spec fn is_plain_value(m: NodeModel) -> bool {
    well_keyed(m) && finite_doubles(m)
}

/// The mathematical value of a `PropertyValue`.
pub enum PropertyModel {
    Text(Seq<char>),
    Flag(bool),
    Int64(int),
    Double(u64),
    Node(NodeModel),
}

/// The mathematical value of a property value.
pub open spec fn property_model(value: PropertyValue) -> PropertyModel {
    match value {
        PropertyValue::String(s) => PropertyModel::Text(s@),
        PropertyValue::Flag(b) => PropertyModel::Flag(b),
        PropertyValue::Int64(i) => PropertyModel::Int64(i as int),
        PropertyValue::Double(bits) => PropertyModel::Double(bits),
        PropertyValue::Node(node) => PropertyModel::Node(node.model()),
    }
}

} // verus!
