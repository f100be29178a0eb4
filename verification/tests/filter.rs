use node_tortank::{
    filter, statements, Descriptor, Error, ErrorKind, InlineData, NodeEntry, NodeRecord, Options,
    OutputConfig, Pattern, Response, TripleRecord, UnaryRequest,
};
use tortank::turtle::turtle_doc::TurtleDoc;

type Unmapped = fn(&TripleRecord) -> Result<Option<()>, ()>;

fn unused(_doc: &TurtleDoc<'_>, _path: &str, _chunk: usize, _structured: bool) -> Result<(), String> {
    Ok(())
}

fn node(value: &str) -> NodeEntry {
    NodeEntry::Single(NodeRecord {
        value: value.to_string(),
        typ: "uri".to_string(),
        lang: None,
        datatype: None,
    })
}

fn text(value: &str, datatype: Option<&str>) -> NodeEntry {
    NodeEntry::Single(NodeRecord {
        value: value.to_string(),
        typ: "literal".to_string(),
        lang: None,
        datatype: datatype.map(|s| s.to_string()),
    })
}

const DOC: &str = "@prefix ex: <http://example.org/> .\n\
ex:a ex:knows ex:b .\n\
ex:b ex:knows ex:c .\n\
ex:a ex:name \"Ann\" .\n\
ex:c ex:name \"Cy\" .\n\
ex:a ex:age 30 .";

fn a_knows_b() -> TripleRecord {
    TripleRecord {
        subject: node("http://example.org/a"),
        predicate: node("http://example.org/knows"),
        object: node("http://example.org/b"),
    }
}

fn b_knows_c() -> TripleRecord {
    TripleRecord {
        subject: node("http://example.org/b"),
        predicate: node("http://example.org/knows"),
        object: node("http://example.org/c"),
    }
}

fn a_name() -> TripleRecord {
    TripleRecord {
        subject: node("http://example.org/a"),
        predicate: node("http://example.org/name"),
        object: text("Ann", Some("http://www.w3.org/2001/XMLSchema#string")),
    }
}

fn c_name() -> TripleRecord {
    TripleRecord {
        subject: node("http://example.org/c"),
        predicate: node("http://example.org/name"),
        object: text("Cy", Some("http://www.w3.org/2001/XMLSchema#string")),
    }
}

fn a_age() -> TripleRecord {
    TripleRecord {
        subject: node("http://example.org/a"),
        predicate: node("http://example.org/age"),
        object: text("30", Some("http://www.w3.org/2001/XMLSchema#integer")),
    }
}

fn query(subject: Option<&str>, predicate: Option<&str>, object: Option<&str>) -> Result<Response<(), ()>, Error> {
    let request = UnaryRequest {
        primary: Descriptor { file: None, data: Some(InlineData::Text(DOC.to_string())) },
        pattern: Pattern {
            subject: subject.map(|s| s.to_string()),
            predicate: predicate.map(|s| s.to_string()),
            object: object.map(|s| s.to_string()),
        },
        options: Options { well_known_prefix: None, extra_prefixes: Vec::new() },
        output: OutputConfig { output_type: None, output_file_path: None, buf_size: None },
    };
    let mut diagnostics = Vec::new();
    statements::<(), (), Unmapped, _>(&request, None, unused, &mut diagnostics)
}

#[test]
fn an_unbound_pattern_selects_every_statement_in_order() {
    assert_eq!(
        query(None, None, None),
        Ok(Response::Records(vec![a_knows_b(), b_knows_c(), a_name(), c_name(), a_age()]))
    );
}

#[test]
fn a_bound_subject_selects_the_statements_of_that_subject() {
    assert_eq!(
        query(Some("ex:a"), None, None),
        Ok(Response::Records(vec![a_knows_b(), a_name(), a_age()]))
    );
    assert_eq!(
        query(Some("<http://example.org/b>"), None, None),
        Ok(Response::Records(vec![b_knows_c()]))
    );
}

#[test]
fn a_bound_predicate_selects_by_predicate() {
    assert_eq!(
        query(None, Some("ex:name"), None),
        Ok(Response::Records(vec![a_name(), c_name()]))
    );
}

#[test]
fn a_bound_object_selects_by_object() {
    assert_eq!(query(None, None, Some("ex:c")), Ok(Response::Records(vec![b_knows_c()])));
    assert_eq!(query(None, None, Some("30")), Ok(Response::Records(vec![a_age()])));
}

#[test]
fn bound_components_select_together() {
    assert_eq!(
        query(Some("ex:a"), Some("ex:knows"), None),
        Ok(Response::Records(vec![a_knows_b()]))
    );
    assert_eq!(query(Some("ex:a"), Some("ex:knows"), Some("ex:c")), Ok(Response::Records(vec![])));
}

#[test]
fn a_subject_that_no_statement_has_selects_nothing() {
    assert_eq!(query(Some("ex:nobody"), None, None), Ok(Response::Records(vec![])));
}

#[test]
fn a_pattern_with_an_unknown_prefix_is_not_resolved() {
    assert_eq!(
        query(Some("other:a"), None, None),
        Err(Error { kind: ErrorKind::PatternResolution, message: "prefix other unknown".to_string() })
    );
}

#[test]
fn a_literal_is_no_subject() {
    match query(Some("\"Ann\""), None, None) {
        Err(e) => assert_eq!(e.kind, ErrorKind::PatternResolution),
        other => panic!("expected an error, got {:?}", other),
    }
}

#[test]
fn a_failed_load_is_displayed() {
    let request = UnaryRequest {
        primary: Descriptor { file: None, data: None },
        pattern: Pattern { subject: None, predicate: None, object: None },
        options: Options { well_known_prefix: None, extra_prefixes: Vec::new() },
        output: OutputConfig { output_type: None, output_file_path: None, buf_size: None },
    };
    let mut diagnostics = Vec::new();
    assert_eq!(
        statements::<(), (), Unmapped, _>(&request, None, unused, &mut diagnostics),
        Err(Error {
            kind: ErrorKind::MissingInput,
            message: "error: missing path ('primaryPath') or data (primaryData)".to_string(),
        })
    );
}

#[test]
fn a_failed_translation_is_surfaced_as_it_is() {
    let bad = TripleRecord {
        subject: NodeEntry::Single(NodeRecord {
            value: "x".to_string(),
            typ: "thing".to_string(),
            lang: None,
            datatype: None,
        }),
        predicate: node("http://a/p"),
        object: node("http://a/o"),
    };
    let request = UnaryRequest {
        primary: Descriptor { file: None, data: Some(InlineData::Record(bad)) },
        pattern: Pattern { subject: None, predicate: None, object: None },
        options: Options { well_known_prefix: None, extra_prefixes: Vec::new() },
        output: OutputConfig { output_type: None, output_file_path: None, buf_size: None },
    };
    let mut diagnostics = Vec::new();
    assert_eq!(
        statements::<(), (), Unmapped, _>(&request, None, unused, &mut diagnostics),
        Err(Error { kind: ErrorKind::Translation, message: "type thing unknown".to_string() })
    );
}

#[test]
fn filter_is_statements_under_another_name() {
    let request = UnaryRequest {
        primary: Descriptor { file: None, data: Some(InlineData::Text(DOC.to_string())) },
        pattern: Pattern { subject: None, predicate: Some("ex:knows".to_string()), object: None },
        options: Options { well_known_prefix: None, extra_prefixes: Vec::new() },
        output: OutputConfig { output_type: None, output_file_path: None, buf_size: None },
    };
    let mut diagnostics = Vec::new();
    let by_filter = filter::<(), (), Unmapped, _>(&request, None, unused, &mut diagnostics);
    let by_statements = statements::<(), (), Unmapped, _>(&request, None, unused, &mut diagnostics);
    assert_eq!(by_filter, Ok(Response::Records(vec![a_knows_b(), b_knows_c()])));
    assert_eq!(by_filter, by_statements);
}

#[test]
fn a_subject_selects_its_two_statements_in_order() {
    let text = "<http://ex/a> <http://ex/p> <http://ex/o1> . <http://ex/b> <http://ex/p> <http://ex/o2> . <http://ex/a> <http://ex/q> <http://ex/o3> .";
    let request = UnaryRequest {
        primary: Descriptor { file: None, data: Some(InlineData::Text(text.to_string())) },
        pattern: Pattern { subject: Some("<http://ex/a>".to_string()), predicate: None, object: None },
        options: Options { well_known_prefix: None, extra_prefixes: Vec::new() },
        output: OutputConfig { output_type: None, output_file_path: None, buf_size: None },
    };
    let mut diagnostics = Vec::new();
    let got = statements::<(), (), Unmapped, _>(&request, None, unused, &mut diagnostics);
    let triple = |s: &str, p: &str, o: &str| TripleRecord {
        subject: node(s),
        predicate: node(p),
        object: node(o),
    };
    assert_eq!(
        got,
        Ok(Response::Records(vec![
            triple("http://ex/a", "http://ex/p", "http://ex/o1"),
            triple("http://ex/a", "http://ex/q", "http://ex/o3"),
        ]))
    );
}

#[test]
fn the_first_component_that_does_not_resolve_gives_the_message() {
    assert_eq!(
        query(Some("one:a"), Some("two:b"), Some("three:c")),
        Err(Error { kind: ErrorKind::PatternResolution, message: "prefix one unknown".to_string() })
    );
    assert_eq!(
        query(Some("ex:a"), Some("two:b"), Some("three:c")),
        Err(Error { kind: ErrorKind::PatternResolution, message: "prefix two unknown".to_string() })
    );
    assert_eq!(
        query(Some("ex:a"), Some("ex:knows"), Some("three:c")),
        Err(Error { kind: ErrorKind::PatternResolution, message: "prefix three unknown".to_string() })
    );
}

#[test]
fn a_text_resolves_as_a_subject_and_as_a_predicate_each_in_its_own_way() {
    let as_subject = query(Some("_:b"), None, None);
    let as_predicate = query(None, Some("_:b"), None);
    match (as_subject, as_predicate) {
        (Err(s), Err(p)) => {
            assert_eq!(s.kind, ErrorKind::PatternResolution);
            assert_eq!(p.kind, ErrorKind::PatternResolution);
            assert_ne!(s.message, p.message);
        }
        other => panic!("expected two errors, got {:?}", other),
    }
}
