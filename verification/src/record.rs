//! Triple records: the exchange form of statements, as plain values.
//!
//! A statement crosses the library's boundary as a [`TripleRecord`]: three node
//! entries, each either a single [`NodeRecord`] or a list of entries that stands
//! for a collection. The models in this module are what contracts speak of.

use vstd::prelude::*;

verus! {

/// One node in exchange form.
#[derive(Clone, Debug, PartialEq, Eq)]
pub struct NodeRecord {
    /// The lexical value: an IRI, a blank node label or a literal's text.
    pub value: String,
    /// The kind of node: `"uri"`, `"bnode"` or `"literal"`.
    pub typ: String,
    /// The language tag of a literal, if it has one.
    pub lang: Option<String>,
    /// The datatype IRI of a literal, if it has one.
    pub datatype: Option<String>,
}

/// A node entry of a record: one node, or a list of entries.
#[derive(Debug, PartialEq, Eq)]
pub enum NodeEntry {
    Single(NodeRecord),
    List(Vec<NodeEntry>),
}

/// A statement in exchange form.
#[derive(Debug, PartialEq, Eq)]
pub struct TripleRecord {
    pub subject: NodeEntry,
    pub predicate: NodeEntry,
    pub object: NodeEntry,
}

/// Mathematical model of a [`NodeRecord`].
pub struct NodeModel {
    pub value: Seq<char>,
    pub typ: Seq<char>,
    pub lang: Option<Seq<char>>,
    pub datatype: Option<Seq<char>>,
}

/// Mathematical model of a [`NodeEntry`].
pub enum EntryModel {
    Single(NodeModel),
    List(Seq<EntryModel>),
}

/// Mathematical model of a [`TripleRecord`].
pub struct TripleModel {
    pub subject: EntryModel,
    pub predicate: EntryModel,
    pub object: EntryModel,
}

/// The characters of an optional string.
pub open spec fn text_of(s: Option<String>) -> Option<Seq<char>> {
    match s {
        Some(t) => Some(t@),
        None => None,
    }
}

impl View for NodeRecord {
    type V = NodeModel;

    open spec fn view(&self) -> NodeModel {
        NodeModel {
            value: self.value@,
            typ: self.typ@,
            lang: text_of(self.lang),
            datatype: text_of(self.datatype),
        }
    }
}

impl View for NodeEntry {
    type V = EntryModel;

    open spec fn view(&self) -> EntryModel
        decreases self,
    {
        match self {
            NodeEntry::Single(node) => EntryModel::Single(node@),
            NodeEntry::List(items) => EntryModel::List(
                Seq::new(
                    items@.len(),
                    |i: int|
                        if 0 <= i < items@.len() {
                            items@[i]@
                        } else {
                            EntryModel::List(Seq::empty())
                        },
                ),
            ),
        }
    }
}

impl View for TripleRecord {
    type V = TripleModel;

    open spec fn view(&self) -> TripleModel {
        TripleModel { subject: self.subject@, predicate: self.predicate@, object: self.object@ }
    }
}

/// The models of a sequence of records, in order.
pub open spec fn models_of(records: Seq<TripleRecord>) -> Seq<TripleModel> {
    Seq::new(records.len(), |i: int| records[i]@)
}

impl NodeModel {
    /// Whether the node is of a kind that the engine knows.
    pub open spec fn known_type(self) -> bool {
        self.typ == "uri"@ || self.typ == "bnode"@ || self.typ == "literal"@
    }

    /// Whether the node is of a known kind and carries no datatype that its
    /// value might fail to meet.
    pub open spec fn is_plain(self) -> bool {
        self.typ == "uri"@ || self.typ == "bnode"@ || (self.typ == "literal"@
            && self.datatype is None)
    }
}

impl EntryModel {
    /// Whether the entry is one node rather than a list.
    pub open spec fn is_flat(self) -> bool {
        self is Single
    }

    /// Whether every node of the entry is plain.
    pub open spec fn is_plain(self) -> bool
        decreases self,
    {
        match self {
            EntryModel::Single(node) => node.is_plain(),
            EntryModel::List(items) => forall|i: int|
                0 <= i < items.len() ==> (#[trigger] items[i]).is_plain(),
        }
    }

    /// Whether some node of the entry is of a kind that the engine does not
    /// know.
    pub open spec fn has_unknown_type(self) -> bool
        decreases self,
    {
        match self {
            EntryModel::Single(node) => !node.known_type(),
            EntryModel::List(items) => exists|i: int|
                0 <= i < items.len() && (#[trigger] items[i]).has_unknown_type(),
        }
    }
}

impl TripleModel {
    /// Whether none of the three entries is a list.
    pub open spec fn is_flat(self) -> bool {
        self.subject.is_flat() && self.predicate.is_flat() && self.object.is_flat()
    }

    /// Whether every node of the record is plain.
    pub open spec fn is_plain(self) -> bool {
        self.subject.is_plain() && self.predicate.is_plain() && self.object.is_plain()
    }

    /// Whether some node of the record is of a kind that the engine does not
    /// know.
    pub open spec fn has_unknown_type(self) -> bool {
        self.subject.has_unknown_type() || self.predicate.has_unknown_type()
            || self.object.has_unknown_type()
    }
}

impl NodeEntry {
    /// Whether the entry is one node rather than a list.
    pub fn is_flat(&self) -> (flat: bool)
        ensures
            flat == self@.is_flat(),
    {
        match self {
            NodeEntry::Single(_) => true,
            NodeEntry::List(_) => false,
        }
    }
}

impl TripleRecord {
    /// Whether none of the three entries is a list.
    pub fn is_flat(&self) -> (flat: bool)
        ensures
            flat == self@.is_flat(),
    {
        self.subject.is_flat() && self.predicate.is_flat() && self.object.is_flat()
    }
}

} // verus!
