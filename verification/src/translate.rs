//! Translation between the library's records and the engine's exchange form.

use crate::engine::{
    engine_list, engine_single, engine_triple, entry_model, entry_models, node_parts,
    triple_model, triple_models, triple_parts, EngineParts,
};
use crate::record::{models_of, EntryModel, NodeEntry, TripleRecord};
use tortank::turtle::turtle_doc::{RdfJsonNodeResult, RdfJsonTriple};
use vstd::prelude::*;

verus! {

/// The engine's form of a node entry.
pub fn entry_to_engine(entry: &NodeEntry) -> (out: RdfJsonNodeResult)
    ensures
        entry_model(&out) == entry@,
    decreases entry,
{
    match entry {
        NodeEntry::Single(node) => engine_single(node),
        NodeEntry::List(items) => {
            let mut converted: Vec<RdfJsonNodeResult> = Vec::new();
            let mut i: usize = 0;
            while i < items.len()
                invariant
                    i <= items.len(),
                    converted.len() == i,
                    *entry == NodeEntry::List(*items),
                    forall|j: int| 0 <= j < i ==> entry_model(&#[trigger] converted[j]) == items[j]@,
                decreases items.len() - i,
            {
                proof {
                    vstd::std_specs::vec::axiom_vec_index_decreases(*items, i as int);
                    assert(decreases_to!(*entry => entry->List_0));
                }
                converted.push(entry_to_engine(&items[i]));
                i += 1;
            }
            assert(entry_models(converted@) =~= entry@->List_0);
            engine_list(converted)
        },
    }
}

/// The engine's form of a record.
pub fn record_to_engine(record: &TripleRecord) -> (out: RdfJsonTriple)
    ensures
        triple_model(&out) == record@,
{
    engine_triple(
        entry_to_engine(&record.subject),
        entry_to_engine(&record.predicate),
        entry_to_engine(&record.object),
    )
}

/// The engine's form of a sequence of records, in order.
pub fn records_to_engine(records: &Vec<TripleRecord>) -> (out: Vec<RdfJsonTriple>)
    ensures
        triple_models(out@) == models_of(records@),
{
    let mut out: Vec<RdfJsonTriple> = Vec::new();
    let mut i: usize = 0;
    while i < records.len()
        invariant
            i <= records.len(),
            out.len() == i,
            forall|j: int| 0 <= j < i ==> triple_model(&#[trigger] out[j]) == records[j]@,
        decreases records.len() - i,
    {
        out.push(record_to_engine(&records[i]));
        i += 1;
    }
    assert(triple_models(out@) =~= models_of(records@));
    out
}

/// The node entry that an engine entry holds.
pub fn entry_from_engine(entry: &RdfJsonNodeResult) -> (out: NodeEntry)
    ensures
        out@ == entry_model(entry),
    decreases entry_model(entry),
{
    match node_parts(entry) {
        EngineParts::Single(node) => NodeEntry::Single(node),
        EngineParts::List(items) => {
            let mut converted: Vec<NodeEntry> = Vec::new();
            let mut i: usize = 0;
            while i < items.len()
                invariant
                    i <= items.len(),
                    converted.len() == i,
                    entry_model(entry) == EntryModel::List(entry_models(items@)),
                    forall|j: int| 0 <= j < i ==> (#[trigger] converted[j])@ == entry_model(&items[j]),
                decreases items.len() - i,
            {
                proof {
                    vstd::seq::axiom_seq_index_decreases(entry_models(items@), i as int);
                    assert(decreases_to!(entry_model(entry) => entry_model(entry)->List_0));
                    assert(entry_models(items@)[i as int] == entry_model(&items[i as int]));
                }
                converted.push(entry_from_engine(&items[i]));
                i += 1;
            }
            let out = NodeEntry::List(converted);
            assert(out@->List_0 =~= entry_models(items@));
            out
        },
    }
}

/// The record that an engine triple holds.
pub fn record_from_engine(triple: &RdfJsonTriple) -> (out: TripleRecord)
    ensures
        out@ == triple_model(triple),
{
    let (subject, predicate, object) = triple_parts(triple);
    TripleRecord {
        subject: entry_from_engine(subject),
        predicate: entry_from_engine(predicate),
        object: entry_from_engine(object),
    }
}

/// The records that a sequence of engine triples holds, in order.
pub fn records_from_engine(triples: &Vec<RdfJsonTriple>) -> (out: Vec<TripleRecord>)
    ensures
        models_of(out@) == triple_models(triples@),
{
    let mut out: Vec<TripleRecord> = Vec::new();
    let mut i: usize = 0;
    while i < triples.len()
        invariant
            i <= triples.len(),
            out.len() == i,
            forall|j: int| 0 <= j < i ==> (#[trigger] out[j])@ == triple_model(&triples[j]),
        decreases triples.len() - i,
    {
        out.push(record_from_engine(&triples[i]));
        i += 1;
    }
    assert(models_of(out@) =~= triple_models(triples@));
    out
}

} // verus!
