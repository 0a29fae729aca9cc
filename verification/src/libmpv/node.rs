//! The bridge between the engine's native value tree and `MpvNode`.

use vstd::prelude::*;
use crate::libmpv::error::Error;
use crate::libmpv::models::{
    double_is_finite, finite_doubles, is_finite_bits, is_plain_value, keys_distinct, well_keyed,
    MapEntry, MpvNode, NodeModel, MPV_FORMAT_BYTE_ARRAY,
    MPV_FORMAT_DOUBLE, MPV_FORMAT_FLAG, MPV_FORMAT_INT64, MPV_FORMAT_NODE,
    MPV_FORMAT_NODE_ARRAY, MPV_FORMAT_NODE_MAP, MPV_FORMAT_NONE, MPV_FORMAT_OSD_STRING,
    MPV_FORMAT_STRING,
};
use crate::libmpv::text::{decimal_text, join2, unsigned_text};

verus! {

/// One element of a native list: its key, which a plain list leaves empty,
/// and its value.
#[derive(Debug, PartialEq, Eq)]
pub struct RawEntry {
    pub key: String,
    pub value: RawNode,
}

/// A value as the engine lays it out: a format code and one member for each
/// kind of payload. Only the member that the code selects is meaningful.
#[derive(Debug, PartialEq, Eq)]
pub struct RawNode {
    pub format: u32,
    pub string: String,
    pub flag: i32,
    pub int64: i64,
    pub double_bits: u64,
    pub list: Vec<RawEntry>,
    pub bytes: Vec<u8>,
}

/// The outcome of decoding a native value: its model, or the format code
/// that could not be decoded.
pub type Decoded = Result<NodeModel, u32>;

/// The first `n` outcomes gathered in order: the values, or the first
/// failure among them.
pub open spec fn collected(results: Seq<Decoded>, n: nat) -> Result<Seq<NodeModel>, u32>
    decreases n,
{
    if n == 0 {
        Ok(Seq::empty())
    } else {
        match collected(results, (n - 1) as nat) {
            Err(c) => Err(c),
            Ok(items) => match results[n - 1] {
                Ok(m) => Ok(items.push(m)),
                Err(c) => Err(c),
            },
        }
    }
}

/// The index of the first entry at or after `from` that has the key, or the
/// number of entries if there is none.
pub open spec fn key_index(entries: Seq<(Seq<char>, NodeModel)>, key: Seq<char>, from: int) -> int
    decreases entries.len() - from,
{
    if from < 0 || from >= entries.len() {
        entries.len() as int
    } else if entries[from].0 == key {
        from
    } else {
        key_index(entries, key, from + 1)
    }
}

/// Insertion into a keyed list that keeps insertion order: a new key goes to
/// the end; a key that is present keeps its place and takes the new value.
pub open spec fn dict_insert(
    entries: Seq<(Seq<char>, NodeModel)>,
    key: Seq<char>,
    value: NodeModel,
) -> Seq<(Seq<char>, NodeModel)> {
    let at = key_index(entries, key, 0);
    if at < entries.len() {
        entries.update(at, (key, value))
    } else {
        entries.push((key, value))
    }
}

/// The first `n` keyed outcomes inserted in order into an empty keyed list,
/// or the first failure among them.
pub open spec fn dict_collected(keys: Seq<Seq<char>>, results: Seq<Decoded>, n: nat) -> Result<
    Seq<(Seq<char>, NodeModel)>,
    u32,
>
    decreases n,
{
    if n == 0 {
        Ok(Seq::empty())
    } else {
        match dict_collected(keys, results, (n - 1) as nat) {
            Err(c) => Err(c),
            Ok(entries) => match results[n - 1] {
                Ok(m) => Ok(dict_insert(entries, keys[n - 1], m)),
                Err(c) => Err(c),
            },
        }
    }
}

/// What a double of the engine is read as: itself where it is finite, null
/// where it is an infinity or not a number.
pub open spec fn double_model(bits: u64) -> NodeModel {
    if is_finite_bits(bits) {
        NodeModel::Double(bits)
    } else {
        NodeModel::Null
    }
}

/// The text of the failure for a format code that a native value cannot have.
pub open spec fn unsupported_node_text(code: u32) -> Seq<char> {
    "Unsupported mpv_node format code: "@ + decimal_text(code as int)
}

/// The text of the failure for a format code that a property payload cannot
/// have.
pub open spec fn unsupported_property_text(code: u32) -> Seq<char> {
    "Unsupported mpv_event_property format code: "@ + decimal_text(code as int)
}

impl RawNode {
    /// What each element of the list decodes to.
    pub open spec fn child_results(self) -> Seq<Decoded>
        decreases self, 0nat,
    {
        Seq::new(
            self.list@.len(),
            |i: int|
                if 0 <= i < self.list@.len() {
                    self.list@[i].value.decoded()
                } else {
                    Err(0u32)
                },
        )
    }

    /// The keys of the list's elements.
    pub open spec fn child_keys(self) -> Seq<Seq<char>> {
        Seq::new(self.list@.len(), |i: int| self.list@[i].key@)
    }

    /// What the native value decodes to: by its format code, the matching
    /// member, a double that is not finite being null; a list element by
    /// element, in order; a keyed list by inserting its elements in order. A code that is none of these fails
    /// with that code, as does a list with such a value in it, at any depth.
    pub open spec fn decoded(self) -> Decoded
        decreases self, 1nat,
    {
        if self.format == MPV_FORMAT_NONE {
            Ok(NodeModel::Null)
        } else if self.format == MPV_FORMAT_STRING {
            Ok(NodeModel::Text(self.string@))
        } else if self.format == MPV_FORMAT_FLAG {
            Ok(NodeModel::Flag(self.flag != 0))
        } else if self.format == MPV_FORMAT_INT64 {
            Ok(NodeModel::Int64(self.int64 as int))
        } else if self.format == MPV_FORMAT_DOUBLE {
            Ok(double_model(self.double_bits))
        } else if self.format == MPV_FORMAT_NODE_ARRAY {
            match collected(self.child_results(), self.list@.len()) {
                Ok(items) => Ok(NodeModel::Array(items)),
                Err(c) => Err(c),
            }
        } else if self.format == MPV_FORMAT_NODE_MAP {
            match dict_collected(self.child_keys(), self.child_results(), self.list@.len()) {
                Ok(entries) => Ok(NodeModel::Dict(entries)),
                Err(c) => Err(c),
            }
        } else if self.format == MPV_FORMAT_BYTE_ARRAY {
            Ok(NodeModel::Bytes(self.bytes@))
        } else {
            Err(self.format)
        }
    }

    /// What a property payload of the given format decodes to, `self` being
    /// what lies behind the payload: for a scalar format the matching
    /// member, for the node format the native value itself.
    pub open spec fn decoded_as(self, format: u32) -> Decoded {
        if format == MPV_FORMAT_NONE {
            Ok(NodeModel::Null)
        } else if format == MPV_FORMAT_STRING || format == MPV_FORMAT_OSD_STRING {
            Ok(NodeModel::Text(self.string@))
        } else if format == MPV_FORMAT_FLAG {
            Ok(NodeModel::Flag(self.flag != 0))
        } else if format == MPV_FORMAT_INT64 {
            Ok(NodeModel::Int64(self.int64 as int))
        } else if format == MPV_FORMAT_DOUBLE {
            Ok(double_model(self.double_bits))
        } else if format == MPV_FORMAT_NODE {
            self.decoded()
        } else {
            Err(format)
        }
    }

    /// A native value of the given format with every member empty.
    pub fn blank(format: u32) -> (res: RawNode)
        ensures
            res.format == format,
            res.string@ == Seq::<char>::empty(),
            res.flag == 0,
            res.int64 == 0,
            res.double_bits == 0,
            res.list@ == Seq::<RawEntry>::empty(),
            res.bytes@ == Seq::<u8>::empty(),
    {
        RawNode {
            format,
            string: String::new(),
            flag: 0,
            int64: 0,
            double_bits: 0,
            list: Vec::new(),
            bytes: Vec::new(),
        }
    }
}

/// Once gathering has failed, it fails the same way however many more
/// outcomes are gathered.
pub proof fn lemma_collected_failure_stays(results: Seq<Decoded>, k: nat, n: nat)
    requires
        k <= n,
        collected(results, k) is Err,
    ensures
        collected(results, n) == collected(results, k),
    decreases n,
{
    if k < n {
        lemma_collected_failure_stays(results, k, (n - 1) as nat);
    }
}

/// Once keyed gathering has failed, it fails the same way however many more
/// outcomes are gathered.
pub proof fn lemma_dict_collected_failure_stays(
    keys: Seq<Seq<char>>,
    results: Seq<Decoded>,
    k: nat,
    n: nat,
)
    requires
        k <= n,
        dict_collected(keys, results, k) is Err,
    ensures
        dict_collected(keys, results, n) == dict_collected(keys, results, k),
    decreases n,
{
    if k < n {
        lemma_dict_collected_failure_stays(keys, results, k, (n - 1) as nat);
    }
}

/// Where no entry from `from` up to `to` has the key, the search from `from`
/// finds what the search from `to` finds.
pub proof fn lemma_key_index_skip(
    entries: Seq<(Seq<char>, NodeModel)>,
    key: Seq<char>,
    from: int,
    to: int,
)
    requires
        0 <= from <= to <= entries.len(),
        forall|k: int| from <= k < to ==> (#[trigger] entries[k]).0 != key,
    ensures
        key_index(entries, key, from) == key_index(entries, key, to),
    decreases to - from,
{
    if from < to {
        lemma_key_index_skip(entries, key, from + 1, to);
    }
}

/// Outcomes that all succeed are gathered into their values.
pub proof fn lemma_collected_all(results: Seq<Decoded>, items: Seq<NodeModel>, n: nat)
    requires
        n <= items.len(),
        n <= results.len(),
        forall|k: int| 0 <= k < n ==> #[trigger] results[k] == Ok::<NodeModel, u32>(items[k]),
    ensures
        collected(results, n) == Ok::<Seq<NodeModel>, u32>(items.subrange(0, n as int)),
    decreases n,
{
    if n > 0 {
        lemma_collected_all(results, items, (n - 1) as nat);
        assert(items.subrange(0, n - 1).push(items[n - 1]) =~= items.subrange(0, n as int));
    } else {
        assert(items.subrange(0, 0) =~= Seq::<NodeModel>::empty());
    }
}

/// Keyed outcomes that all succeed, under keys that are all different, are
/// gathered into the entries in their order.
pub proof fn lemma_dict_collected_all(
    keys: Seq<Seq<char>>,
    results: Seq<Decoded>,
    entries: Seq<(Seq<char>, NodeModel)>,
    n: nat,
)
    requires
        n <= entries.len(),
        n <= results.len(),
        n <= keys.len(),
        keys_distinct(entries),
        forall|k: int|
            0 <= k < n ==> #[trigger] results[k] == Ok::<NodeModel, u32>(entries[k].1)
                && keys[k] == entries[k].0,
    ensures
        dict_collected(keys, results, n) == Ok::<Seq<(Seq<char>, NodeModel)>, u32>(
            entries.subrange(0, n as int),
        ),
    decreases n,
{
    if n > 0 {
        lemma_dict_collected_all(keys, results, entries, (n - 1) as nat);
        let before = entries.subrange(0, n - 1);
        let key = keys[n - 1];
        assert(results[n - 1] == Ok::<NodeModel, u32>(entries[n - 1].1));
        assert forall|k: int| 0 <= k < before.len() implies (#[trigger] before[k]).0 != key by {
            assert(before[k] == entries[k]);
            assert(entries[k].0 != entries[n - 1].0);
        }
        lemma_key_index_skip(before, key, 0, before.len() as int);
        assert(before.push((key, entries[n - 1].1)) =~= entries.subrange(0, n as int));
    } else {
        assert(entries.subrange(0, 0) =~= Seq::<(Seq<char>, NodeModel)>::empty());
    }
}

/// The engine's format code for a value of this kind.
pub open spec fn format_of(m: NodeModel) -> u32 {
    match m {
        NodeModel::Null => MPV_FORMAT_NONE,
        NodeModel::Text(_) => MPV_FORMAT_STRING,
        NodeModel::Flag(_) => MPV_FORMAT_FLAG,
        NodeModel::Int64(_) => MPV_FORMAT_INT64,
        NodeModel::Double(_) => MPV_FORMAT_DOUBLE,
        NodeModel::Array(_) => MPV_FORMAT_NODE_ARRAY,
        NodeModel::Dict(_) => MPV_FORMAT_NODE_MAP,
        NodeModel::Bytes(_) => MPV_FORMAT_BYTE_ARRAY,
    }
}

/// The models of a list of values, in order.
pub open spec fn models_of(v: Seq<MpvNode>) -> Seq<NodeModel> {
    Seq::new(v.len(), |i: int| v[i].model())
}

/// The models of a keyed list's entries, in order.
pub open spec fn entries_of(v: Seq<MapEntry>) -> Seq<(Seq<char>, NodeModel)> {
    Seq::new(v.len(), |i: int| (v[i].key@, v[i].value.model()))
}

/// The search for a key ends within the entries, at an entry that has the
/// key if it ends before the last, and passes no entry that has the key.
pub proof fn lemma_key_index_finds(
    entries: Seq<(Seq<char>, NodeModel)>,
    key: Seq<char>,
    from: int,
)
    requires
        0 <= from <= entries.len(),
    ensures
        from <= key_index(entries, key, from) <= entries.len(),
        key_index(entries, key, from) < entries.len() ==> entries[key_index(
            entries,
            key,
            from,
        )].0 == key,
        forall|k: int|
            from <= k < key_index(entries, key, from) ==> (#[trigger] entries[k]).0 != key,
    decreases entries.len() - from,
{
    if from < entries.len() && entries[from].0 != key {
        lemma_key_index_finds(entries, key, from + 1);
    }
}

/// Insertion keeps the keys of a keyed list distinct.
pub proof fn lemma_insert_keeps_distinct(
    entries: Seq<(Seq<char>, NodeModel)>,
    key: Seq<char>,
    value: NodeModel,
)
    requires
        keys_distinct(entries),
    ensures
        keys_distinct(dict_insert(entries, key, value)),
{
    lemma_key_index_finds(entries, key, 0);
    let at = key_index(entries, key, 0);
    let after = dict_insert(entries, key, value);
    assert forall|i: int, j: int| 0 <= i < j < after.len() implies (#[trigger] after[i]).0 != (
    #[trigger] after[j]).0 by {
        if at < entries.len() {
            assert(after[i].0 == entries[i].0);
            assert(after[j].0 == entries[j].0);
        } else {
            if j == entries.len() {
                assert(after[i] == entries[i]);
            } else {
                assert(after[i] == entries[i] && after[j] == entries[j]);
            }
        }
    }
}

/// Calls `insert` of indexmap's `IndexMap` on the map of the entries and
/// hands the map's entries back in its order. indexmap documents that a key
/// that is present keeps its place in the order and takes the new value,
/// and that a new key goes last. The entries must not hold a key twice,
/// since a map holds a key once. Believed, not proved.
#[verifier::external_body]
pub(crate) fn ordered_insert(entries: Vec<MapEntry>, key: String, value: MpvNode) -> (res: Vec<
    MapEntry,
>)
    requires
        keys_distinct(entries_of(entries@)),
    ensures
        entries_of(res@) == dict_insert(entries_of(entries@), key@, value.model()),
{
    let mut map: indexmap::IndexMap<String, MpvNode> =
        entries.into_iter().map(|e| (e.key, e.value)).collect();
    map.insert(key, value);
    map.into_iter().map(|(key, value)| MapEntry { key, value }).collect()
}

/// Reads a double of the engine: itself where it is finite, null where it is
/// an infinity or not a number.
pub fn read_double(bits: u64) -> (res: MpvNode)
    ensures
        res.model() == double_model(bits),
{
    if double_is_finite(bits) {
        MpvNode::Double(bits)
    } else {
        MpvNode::Null
    }
}

impl MpvNode {
    /// Copies a native value into an owned one, by its format code.
    pub fn from_node(node: &RawNode) -> (res: Result<MpvNode, Error>)
        ensures
            match node.decoded() {
                Ok(m) => res is Ok && res->Ok_0.model() == m,
                Err(code) => res matches Err(Error::NodeConversion(msg)) && msg@
                    == unsupported_node_text(code),
            },
        decreases node,
    {
        let format = node.format;
        if format == MPV_FORMAT_NONE {
            Ok(MpvNode::Null)
        } else if format == MPV_FORMAT_STRING {
            Ok(MpvNode::String(node.string.clone()))
        } else if format == MPV_FORMAT_FLAG {
            Ok(MpvNode::Flag(node.flag != 0))
        } else if format == MPV_FORMAT_INT64 {
            Ok(MpvNode::Int64(node.int64))
        } else if format == MPV_FORMAT_DOUBLE {
            Ok(read_double(node.double_bits))
        } else if format == MPV_FORMAT_NODE_ARRAY {
            let ghost results = node.child_results();
            let n = node.list.len();
            let mut out: Vec<MpvNode> = Vec::new();
            let mut i: usize = 0;
            proof {
                assert(models_of(out@) =~= Seq::<NodeModel>::empty());
            }
            while i < n
                invariant
                    node.format == MPV_FORMAT_NODE_ARRAY,
                    n == node.list@.len(),
                    i <= n,
                    results == node.child_results(),
                    collected(results, i as nat) == Ok::<Seq<NodeModel>, u32>(models_of(out@)),
                decreases n - i,
            {
                proof {
                    assert(decreases_to!(node.list => node.list[i as int]));
                    assert(results[i as int] == node.list@[i as int].value.decoded());
                    assert(node.child_keys()[i as int] == node.list@[i as int].key@);
                }
                match MpvNode::from_node(&node.list[i].value) {
                    Ok(c) => {
                        proof {
                            assert(models_of(out@.push(c)) =~= models_of(out@).push(c.model()));
                        }
                        out.push(c);
                    },
                    Err(e) => {
                        proof {
                            lemma_collected_failure_stays(results, (i + 1) as nat, n as nat);
                        }
                        return Err(e);
                    },
                }
                i += 1;
            }
            proof {
                assert(MpvNode::NodeArray(out).model() == NodeModel::Array(models_of(out@))) by {
                    assert(MpvNode::NodeArray(out).model()->Array_0 =~= models_of(out@));
                }
            }
            Ok(MpvNode::NodeArray(out))
        } else if format == MPV_FORMAT_NODE_MAP {
            let ghost results = node.child_results();
            let ghost keys = node.child_keys();
            let n = node.list.len();
            let mut out: Vec<MapEntry> = Vec::new();
            let mut i: usize = 0;
            proof {
                assert(entries_of(out@) =~= Seq::<(Seq<char>, NodeModel)>::empty());
            }
            while i < n
                invariant
                    node.format == MPV_FORMAT_NODE_MAP,
                    keys_distinct(entries_of(out@)),
                    n == node.list@.len(),
                    i <= n,
                    results == node.child_results(),
                    keys == node.child_keys(),
                    dict_collected(keys, results, i as nat) == Ok::<
                        Seq<(Seq<char>, NodeModel)>,
                        u32,
                    >(entries_of(out@)),
                decreases n - i,
            {
                proof {
                    assert(decreases_to!(node.list => node.list[i as int]));
                    assert(results[i as int] == node.list@[i as int].value.decoded());
                    assert(node.child_keys()[i as int] == node.list@[i as int].key@);
                }
                let key = node.list[i].key.clone();
                match MpvNode::from_node(&node.list[i].value) {
                    Ok(c) => {
                        proof {
                            lemma_insert_keeps_distinct(entries_of(out@), key@, c.model());
                        }
                        out = ordered_insert(out, key, c);
                    },
                    Err(e) => {
                        proof {
                            lemma_dict_collected_failure_stays(
                                keys,
                                results,
                                (i + 1) as nat,
                                n as nat,
                            );
                        }
                        return Err(e);
                    },
                }
                i += 1;
            }
            proof {
                assert(MpvNode::NodeMap(out).model() == NodeModel::Dict(entries_of(out@))) by {
                    assert(MpvNode::NodeMap(out).model()->Dict_0 =~= entries_of(out@));
                }
            }
            Ok(MpvNode::NodeMap(out))
        } else if format == MPV_FORMAT_BYTE_ARRAY {
            Ok(MpvNode::ByteArray(copy_bytes(&node.bytes)))
        } else {
            let code = unsigned_text(format as u64);
            Err(Error::NodeConversion(join2("Unsupported mpv_node format code: ", code.as_str())))
        }
    }

    /// Copies the payload of a property event into an owned value, by the
    /// format that the event declares. `data` is what lies behind the
    /// payload.
    pub fn from_property(format: u32, data: &RawNode) -> (res: Result<MpvNode, Error>)
        ensures
            match data.decoded_as(format) {
                Ok(m) => res is Ok && res->Ok_0.model() == m,
                Err(code) => if format == MPV_FORMAT_NODE {
                    res matches Err(Error::NodeConversion(msg)) && msg@ == unsupported_node_text(
                        code,
                    )
                } else {
                    res matches Err(Error::PropertyConversion(msg)) && msg@
                        == unsupported_property_text(code)
                },
            },
    {
        if format == MPV_FORMAT_NONE {
            Ok(MpvNode::Null)
        } else if format == MPV_FORMAT_STRING || format == MPV_FORMAT_OSD_STRING {
            Ok(MpvNode::String(data.string.clone()))
        } else if format == MPV_FORMAT_FLAG {
            Ok(MpvNode::Flag(data.flag != 0))
        } else if format == MPV_FORMAT_INT64 {
            Ok(MpvNode::Int64(data.int64))
        } else if format == MPV_FORMAT_DOUBLE {
            Ok(read_double(data.double_bits))
        } else if format == MPV_FORMAT_NODE {
            MpvNode::from_node(data)
        } else {
            let code = unsigned_text(format as u64);
            Err(
                Error::PropertyConversion(
                    join2("Unsupported mpv_event_property format code: ", code.as_str()),
                ),
            )
        }
    }
}

/// A copy of the bytes.
pub fn copy_bytes(bytes: &Vec<u8>) -> (res: Vec<u8>)
    ensures
        res@ == bytes@,
{
    let mut out: Vec<u8> = Vec::new();
    let mut i: usize = 0;
    while i < bytes.len()
        invariant
            i <= bytes.len(),
            out@ == bytes@.subrange(0, i as int),
        decreases bytes.len() - i,
    {
        out.push(bytes[i]);
        proof {
            assert(out@ =~= bytes@.subrange(0, i + 1));
        }
        i += 1;
    }
    proof {
        assert(out@ =~= bytes@);
    }
    out
}

impl MpvNode {
    /// Lays the value out as the engine does, under the format code of its
    /// kind. Decoding the result gives the value back, provided that no
    /// keyed list in it holds a key twice and every double in it is finite;
    /// a double that is not finite comes back as null.
    pub fn to_raw(&self) -> (res: RawNode)
        ensures
            res.format == format_of(self.model()),
            is_plain_value(self.model()) ==> res.decoded() == Ok::<NodeModel, u32>(
                self.model(),
            ),
            self.model() matches NodeModel::Double(bits) && !is_finite_bits(bits)
                ==> res.decoded() == Ok::<NodeModel, u32>(NodeModel::Null),
        decreases self,
    {
        match self {
            MpvNode::Null => RawNode::blank(MPV_FORMAT_NONE),
            MpvNode::String(s) => {
                let mut raw = RawNode::blank(MPV_FORMAT_STRING);
                raw.string = s.clone();
                raw
            },
            MpvNode::Flag(b) => {
                let mut raw = RawNode::blank(MPV_FORMAT_FLAG);
                raw.flag = if *b {
                    1
                } else {
                    0
                };
                raw
            },
            MpvNode::Int64(i) => {
                let mut raw = RawNode::blank(MPV_FORMAT_INT64);
                raw.int64 = *i;
                raw
            },
            MpvNode::Double(bits) => {
                let mut raw = RawNode::blank(MPV_FORMAT_DOUBLE);
                raw.double_bits = *bits;
                raw
            },
            MpvNode::NodeArray(v) => {
                let mut list: Vec<RawEntry> = Vec::new();
                let mut i: usize = 0;
                while i < v.len()
                    invariant
                        *self is NodeArray,
                        self->NodeArray_0 == *v,
                        i <= v.len(),
                        list@.len() == i,
                        forall|k: int|
                            0 <= k < i && is_plain_value(v@[k].model()) ==> (
                            #[trigger] list@[k]).value.decoded() == Ok::<NodeModel, u32>(
                                v@[k].model(),
                            ),
                    decreases v.len() - i,
                {
                    proof {
                        assert(decreases_to!(*v => v[i as int]));
                    }
                    let value = v[i].to_raw();
                    list.push(RawEntry { key: String::new(), value });
                    i += 1;
                }
                let mut raw = RawNode::blank(MPV_FORMAT_NODE_ARRAY);
                raw.list = list;
                proof {
                    let items = models_of(v@);
                    assert(self.model()->Array_0 =~= items);
                    if is_plain_value(self.model()) {
                        assert forall|k: int| 0 <= k < v@.len() implies #[trigger] raw
                            .child_results()[k] == Ok::<NodeModel, u32>(items[k]) by {
                            assert(well_keyed(self.model()->Array_0[k]));
                            assert(finite_doubles(self.model()->Array_0[k]));
                            assert(raw.list@[k].value.decoded() == Ok::<NodeModel, u32>(
                                v@[k].model(),
                            ));
                        }
                        lemma_collected_all(raw.child_results(), items, v@.len());
                        assert(items.subrange(0, v@.len() as int) =~= items);
                    }
                }
                raw
            },
            MpvNode::NodeMap(v) => {
                let mut list: Vec<RawEntry> = Vec::new();
                let mut i: usize = 0;
                while i < v.len()
                    invariant
                        *self is NodeMap,
                        self->NodeMap_0 == *v,
                        i <= v.len(),
                        list@.len() == i,
                        forall|k: int|
                            0 <= k < i ==> (#[trigger] list@[k]).key@ == v@[k].key@,
                        forall|k: int|
                            0 <= k < i && is_plain_value(v@[k].value.model()) ==> (
                            #[trigger] list@[k]).value.decoded() == Ok::<NodeModel, u32>(
                                v@[k].value.model(),
                            ),
                    decreases v.len() - i,
                {
                    proof {
                        assert(decreases_to!(*v => v[i as int]));
                    }
                    let value = v[i].value.to_raw();
                    list.push(RawEntry { key: v[i].key.clone(), value });
                    i += 1;
                }
                let mut raw = RawNode::blank(MPV_FORMAT_NODE_MAP);
                raw.list = list;
                proof {
                    let entries = entries_of(v@);
                    assert(self.model()->Dict_0 =~= entries);
                    if is_plain_value(self.model()) {
                        assert forall|k: int| 0 <= k < v@.len() implies #[trigger] raw
                            .child_results()[k] == Ok::<NodeModel, u32>(entries[k].1)
                            && raw.child_keys()[k] == entries[k].0 by {
                            assert(well_keyed((self.model()->Dict_0[k]).1));
                            assert(finite_doubles((self.model()->Dict_0[k]).1));
                            assert(raw.list@[k].value.decoded() == Ok::<NodeModel, u32>(
                                v@[k].value.model(),
                            ));
                            assert(raw.list@[k].key@ == v@[k].key@);
                        }
                        lemma_dict_collected_all(
                            raw.child_keys(),
                            raw.child_results(),
                            entries,
                            v@.len(),
                        );
                        assert(entries.subrange(0, v@.len() as int) =~= entries);
                    }
                }
                raw
            },
            MpvNode::ByteArray(bytes) => {
                let mut raw = RawNode::blank(MPV_FORMAT_BYTE_ARRAY);
                raw.bytes = copy_bytes(bytes);
                raw
            },
        }
    }
}

/// A copy of the texts, in order.
pub fn copy_text_list(texts: &Vec<String>) -> (res: Vec<String>)
    ensures
        res@.len() == texts@.len(),
        forall|i: int| 0 <= i < texts@.len() ==> (#[trigger] res@[i])@ == texts@[i]@,
{
    let mut out: Vec<String> = Vec::new();
    let mut i: usize = 0;
    while i < texts.len()
        invariant
            i <= texts.len(),
            out@.len() == i,
            forall|k: int| 0 <= k < i ==> (#[trigger] out@[k])@ == texts@[k]@,
        decreases texts.len() - i,
    {
        out.push(texts[i].clone());
        i += 1;
    }
    out
}

} // verus!
