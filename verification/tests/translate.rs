use node_tortank::translate::{
    entry_from_engine, entry_to_engine, record_from_engine, record_to_engine,
    records_from_engine, records_to_engine,
};
use node_tortank::{NodeEntry, NodeRecord, TripleRecord};
use tortank::turtle::turtle_doc::{RdfJsonNode, RdfJsonNodeResult, RdfJsonTriple};

fn literal(value: &str, lang: Option<&str>, datatype: Option<&str>) -> NodeRecord {
    NodeRecord {
        value: value.to_string(),
        typ: "literal".to_string(),
        lang: lang.map(|s| s.to_string()),
        datatype: datatype.map(|s| s.to_string()),
    }
}

fn engine_literal(value: &str, lang: Option<&str>, datatype: Option<&str>) -> RdfJsonNodeResult {
    RdfJsonNodeResult::SingleNode(RdfJsonNode {
        typ: "literal".to_string(),
        datatype: datatype.map(|s| s.to_string()),
        lang: lang.map(|s| s.to_string()),
        value: value.to_string(),
    })
}

#[test]
fn a_node_keeps_its_four_fields() {
    let node = NodeEntry::Single(literal("chat", Some("fr"), Some("http://a/dt")));
    assert_eq!(entry_to_engine(&node), engine_literal("chat", Some("fr"), Some("http://a/dt")));
    assert_eq!(entry_from_engine(&engine_literal("chat", Some("fr"), Some("http://a/dt"))), node);
    let bare = NodeEntry::Single(NodeRecord {
        value: "b0".to_string(),
        typ: "bnode".to_string(),
        lang: None,
        datatype: None,
    });
    assert_eq!(
        entry_to_engine(&bare),
        RdfJsonNodeResult::SingleNode(RdfJsonNode {
            typ: "bnode".to_string(),
            datatype: None,
            lang: None,
            value: "b0".to_string(),
        })
    );
}

#[test]
fn a_list_keeps_its_items_and_their_order() {
    let list = NodeEntry::List(vec![
        NodeEntry::Single(literal("a", None, None)),
        NodeEntry::List(vec![NodeEntry::Single(literal("b", None, None)), NodeEntry::List(vec![])]),
        NodeEntry::Single(literal("c", None, None)),
    ]);
    let engine = RdfJsonNodeResult::ListNodes(vec![
        engine_literal("a", None, None),
        RdfJsonNodeResult::ListNodes(vec![
            engine_literal("b", None, None),
            RdfJsonNodeResult::ListNodes(vec![]),
        ]),
        engine_literal("c", None, None),
    ]);
    assert_eq!(entry_to_engine(&list), engine);
    assert_eq!(entry_from_engine(&engine), list);
}

#[test]
fn a_record_keeps_its_three_entries_apart() {
    let record = TripleRecord {
        subject: NodeEntry::Single(literal("s", None, None)),
        predicate: NodeEntry::Single(literal("p", None, None)),
        object: NodeEntry::Single(literal("o", None, None)),
    };
    let engine = RdfJsonTriple {
        subject: engine_literal("s", None, None),
        predicate: engine_literal("p", None, None),
        object: engine_literal("o", None, None),
    };
    assert_eq!(record_to_engine(&record), engine);
    assert_eq!(record_from_engine(&engine), record);
}

#[test]
fn records_are_translated_in_order() {
    let make = |s: &str| TripleRecord {
        subject: NodeEntry::Single(literal(s, None, None)),
        predicate: NodeEntry::Single(literal("p", None, None)),
        object: NodeEntry::Single(literal("o", None, None)),
    };
    let records = vec![make("1"), make("2"), make("3")];
    let engine = records_to_engine(&records);
    assert_eq!(engine.len(), 3);
    assert_eq!(engine[1].subject, engine_literal("2", None, None));
    assert_eq!(records_from_engine(&engine), records);
    assert_eq!(records_to_engine(&Vec::new()), Vec::new());
}
