use node_tortank::{
    difference, intersection, merge, BinaryRequest, Descriptor, Error, ErrorKind, InlineData,
    NodeEntry, NodeRecord, Options, OutputConfig, Response, TripleRecord,
};
use tortank::turtle::turtle_doc::TurtleDoc;

type NoMapper = fn(&TripleRecord) -> Result<Option<()>, ()>;

fn no_writer(_doc: &TurtleDoc<'_>, _path: &str, _chunk: usize, _structured: bool) -> Result<(), String> {
    Ok(())
}

fn inline(text: &str) -> Descriptor {
    Descriptor { file: None, data: Some(InlineData::Text(text.to_string())) }
}

fn nothing() -> Descriptor {
    Descriptor { file: None, data: None }
}

fn options() -> Options {
    Options { well_known_prefix: None, extra_prefixes: Vec::new() }
}

fn output(output_type: Option<&str>) -> OutputConfig {
    OutputConfig {
        output_type: output_type.map(|s| s.to_string()),
        output_file_path: None,
        buf_size: None,
    }
}

fn request(lhs: Descriptor, rhs: Descriptor, output_type: Option<&str>) -> BinaryRequest {
    BinaryRequest { lhs, rhs, options: options(), output: output(output_type) }
}

fn uri(value: &str) -> NodeEntry {
    NodeEntry::Single(NodeRecord {
        value: value.to_string(),
        typ: "uri".to_string(),
        lang: None,
        datatype: None,
    })
}

fn triple(s: &str, p: &str, o: &str) -> TripleRecord {
    TripleRecord { subject: uri(s), predicate: uri(p), object: uri(o) }
}

fn run(
    op: fn(&BinaryRequest, Option<&NoMapper>, fn(&TurtleDoc<'_>, &str, usize, bool) -> Result<(), String>, &mut Vec<String>) -> Result<Response<(), ()>, Error>,
    req: &BinaryRequest,
) -> Result<Response<(), ()>, Error> {
    let mut diagnostics = Vec::new();
    op(req, None, no_writer, &mut diagnostics)
}

fn records(res: Result<Response<(), ()>, Error>) -> Vec<TripleRecord> {
    match res {
        Ok(Response::Records(records)) => records,
        other => panic!("expected records, got {:?}", other),
    }
}

const PREFIX: &str = "@prefix ex: <http://example.org/> .\n";

#[test]
fn merge_of_two_statements_yields_two_records() {
    let lhs = format!("{}ex:s ex:p ex:o .", PREFIX);
    let rhs = format!("{}ex:s ex:p ex:o2 .", PREFIX);
    let req = request(inline(&lhs), inline(&rhs), Some("structured"));
    let got = records(run(merge, &req));
    assert_eq!(
        got,
        vec![
            triple("http://example.org/s", "http://example.org/p", "http://example.org/o"),
            triple("http://example.org/s", "http://example.org/p", "http://example.org/o2"),
        ]
    );
}

#[test]
fn merge_defaults_to_structured_output() {
    let lhs = "<http://a/s> <http://a/p> <http://a/o> .";
    let rhs = "<http://a/s> <http://a/p> <http://a/o2> .";
    let req = request(inline(lhs), inline(rhs), None);
    assert_eq!(records(run(merge, &req)).len(), 2);
}

#[test]
fn merge_leaves_out_repeats_and_keeps_order() {
    let lhs = "<http://a/s1> <http://a/p> <http://a/o> .\n<http://a/s2> <http://a/p> <http://a/o> .";
    let rhs = "<http://a/s2> <http://a/p> <http://a/o> .\n<http://a/s3> <http://a/p> <http://a/o> .";
    let req = request(inline(lhs), inline(rhs), None);
    assert_eq!(
        records(run(merge, &req)),
        vec![
            triple("http://a/s1", "http://a/p", "http://a/o"),
            triple("http://a/s2", "http://a/p", "http://a/o"),
            triple("http://a/s3", "http://a/p", "http://a/o"),
        ]
    );
}

#[test]
fn merge_as_text_joins_lines() {
    let lhs = "<http://a/s1> <http://a/p> <http://a/o> .";
    let rhs = "<http://a/s2> <http://a/p> <http://a/o> .";
    let req = request(inline(lhs), inline(rhs), Some("textual"));
    assert_eq!(
        run(merge, &req),
        Ok(Response::Text(
            "<http://a/s1> <http://a/p> <http://a/o>.\n<http://a/s2> <http://a/p> <http://a/o>."
                .to_string()
        ))
    );
}

#[test]
fn difference_keeps_what_the_right_operand_lacks() {
    let lhs = "<http://a/s1> <http://a/p> <http://a/o> .\n<http://a/s2> <http://a/p> <http://a/o> .\n<http://a/s3> <http://a/p> <http://a/o> .";
    let rhs = "<http://a/s2> <http://a/p> <http://a/o> .";
    let req = request(inline(lhs), inline(rhs), None);
    assert_eq!(
        records(run(difference, &req)),
        vec![
            triple("http://a/s1", "http://a/p", "http://a/o"),
            triple("http://a/s3", "http://a/p", "http://a/o"),
        ]
    );
}

#[test]
fn intersection_keeps_what_both_operands_hold() {
    let lhs = "<http://a/s1> <http://a/p> <http://a/o> .\n<http://a/s2> <http://a/p> <http://a/o> .\n<http://a/s3> <http://a/p> <http://a/o> .";
    let rhs = "<http://a/s3> <http://a/p> <http://a/o> .\n<http://a/s2> <http://a/p> <http://a/o> .";
    let req = request(inline(lhs), inline(rhs), None);
    assert_eq!(
        records(run(intersection, &req)),
        vec![
            triple("http://a/s2", "http://a/p", "http://a/o"),
            triple("http://a/s3", "http://a/p", "http://a/o"),
        ]
    );
}

#[test]
fn difference_with_itself_is_empty() {
    let doc = "<http://a/s1> <http://a/p> <http://a/o> .\n<http://a/s2> <http://a/p> \"x\" .";
    let req = request(inline(doc), inline(doc), None);
    assert_eq!(records(run(difference, &req)), Vec::new());
}

#[test]
fn difference_with_itself_as_text_has_an_empty_body() {
    let doc = format!("{}ex:s ex:p ex:o .", PREFIX);
    let req = request(inline(&doc), inline(&doc), Some("textual"));
    assert_eq!(run(difference, &req), Ok(Response::Text(String::new())));
}

#[test]
fn intersection_with_itself_is_the_document() {
    let doc = "<http://a/s1> <http://a/p> <http://a/o> .\n<http://a/s2> <http://a/p> \"x\" .";
    let req = request(inline(doc), inline(doc), Some("textual"));
    let both = run(intersection, &req);
    let alone = run(merge, &request(inline(doc), inline(""), Some("textual")));
    assert_eq!(both, alone);
    assert_eq!(
        both,
        Ok(Response::Text(
            "<http://a/s1> <http://a/p> <http://a/o>.\n<http://a/s2> <http://a/p> \"\"\"x\"\"\"^^<http://www.w3.org/2001/XMLSchema#string>.".to_string()
        ))
    );
}

#[test]
fn disjoint_documents_have_an_empty_intersection() {
    let lhs = "<http://a/s1> <http://a/p> <http://a/o> .";
    let rhs = "<http://a/s2> <http://a/p> <http://a/o> .";
    let req = request(inline(lhs), inline(rhs), None);
    assert_eq!(records(run(intersection, &req)), Vec::new());
    assert_eq!(
        records(run(difference, &req)),
        vec![triple("http://a/s1", "http://a/p", "http://a/o")]
    );
}

#[test]
fn a_number_that_is_no_number_equals_nothing() {
    let doc = "<http://a/s> <http://a/p> \"NaN\"^^<http://www.w3.org/2001/XMLSchema#double> .";
    let req = request(inline(doc), inline(doc), None);
    assert_eq!(records(run(difference, &req)).len(), 1);
    assert_eq!(records(run(intersection, &req)).len(), 0);
    assert_eq!(records(run(merge, &req)).len(), 1);
}

#[test]
fn missing_left_operand_names_both_fields() {
    let rhs = "<http://a/s> <http://a/p> <http://a/o> .";
    let req = request(nothing(), inline(rhs), None);
    assert_eq!(
        run(merge, &req),
        Err(Error {
            kind: ErrorKind::MissingInput,
            message: "missing path ('lhsPath') or data (lhsData)".to_string(),
        })
    );
}

#[test]
fn missing_right_operand_names_both_fields() {
    let lhs = "<http://a/s> <http://a/p> <http://a/o> .";
    let req = request(inline(lhs), nothing(), None);
    assert_eq!(
        run(difference, &req),
        Err(Error {
            kind: ErrorKind::MissingInput,
            message: "missing path ('rhsPath') or data (rhsData)".to_string(),
        })
    );
}

#[test]
fn two_missing_operands_give_both_messages() {
    let req = request(nothing(), nothing(), None);
    let expected = Err(Error {
        kind: ErrorKind::Combined,
        message: "error:\n-missing path ('lhsPath') or data (lhsData)\n-missing path ('rhsPath') or data (rhsData)".to_string(),
    });
    assert_eq!(run(merge, &req), expected);
    assert_eq!(run(difference, &req), expected);
    assert_eq!(run(intersection, &req), expected);
}

#[test]
fn unknown_output_type_names_the_value() {
    let doc = "<http://a/s> <http://a/p> <http://a/o> .";
    let req = request(inline(doc), inline(doc), Some("xml"));
    let got = run(merge, &req);
    match got {
        Err(e) => {
            assert_eq!(e.kind, ErrorKind::InvalidConfiguration);
            assert_eq!(
                e.message,
                "invalid output type 'xml': expected 'structured' or 'textual'"
            );
            assert!(e.message.contains("xml"));
        }
        other => panic!("expected a configuration error, got {:?}", other),
    }
}

#[test]
fn a_failed_load_stands_before_the_output_type() {
    let req = request(nothing(), inline("<http://a/s> <http://a/p> <http://a/o> ."), Some("xml"));
    match run(merge, &req) {
        Err(e) => assert_eq!(e.kind, ErrorKind::MissingInput),
        other => panic!("expected an error, got {:?}", other),
    }
}

#[test]
fn records_and_text_operands_mix() {
    let lhs = Descriptor {
        file: None,
        data: Some(InlineData::Records(vec![
            triple("http://a/s1", "http://a/p", "http://a/o"),
            triple("http://a/s2", "http://a/p", "http://a/o"),
        ])),
    };
    let rhs = "<http://a/s2> <http://a/p> <http://a/o> .";
    let req = request(lhs, inline(rhs), None);
    assert_eq!(
        records(run(difference, &req)),
        vec![triple("http://a/s1", "http://a/p", "http://a/o")]
    );
}

#[test]
fn a_single_record_is_an_operand() {
    let lhs = Descriptor {
        file: None,
        data: Some(InlineData::Record(triple("http://a/s1", "http://a/p", "http://a/o"))),
    };
    let rhs = Descriptor {
        file: None,
        data: Some(InlineData::Record(triple("http://a/s2", "http://a/p", "http://a/o"))),
    };
    let req = request(lhs, rhs, Some("textual"));
    assert_eq!(
        run(merge, &req),
        Ok(Response::Text(
            "<http://a/s1> <http://a/p> <http://a/o>.\n<http://a/s2> <http://a/p> <http://a/o>."
                .to_string()
        ))
    );
}

#[test]
fn a_record_of_unknown_type_is_a_translation_error() {
    let bad = TripleRecord {
        subject: NodeEntry::Single(NodeRecord {
            value: "x".to_string(),
            typ: "thing".to_string(),
            lang: None,
            datatype: None,
        }),
        predicate: uri("http://a/p"),
        object: uri("http://a/o"),
    };
    let lhs = Descriptor { file: None, data: Some(InlineData::Record(bad)) };
    let req = request(lhs, inline("<http://a/s> <http://a/p> <http://a/o> ."), None);
    assert_eq!(
        run(merge, &req),
        Err(Error { kind: ErrorKind::Translation, message: "type thing unknown".to_string() })
    );
}

#[test]
fn two_untranslatable_operands_give_both_messages() {
    let bad = |typ: &str| TripleRecord {
        subject: NodeEntry::Single(NodeRecord {
            value: "x".to_string(),
            typ: typ.to_string(),
            lang: None,
            datatype: None,
        }),
        predicate: uri("http://a/p"),
        object: uri("http://a/o"),
    };
    let lhs = Descriptor { file: None, data: Some(InlineData::Record(bad("one"))) };
    let rhs = Descriptor { file: None, data: Some(InlineData::Record(bad("two"))) };
    let req = request(lhs, rhs, None);
    assert_eq!(
        run(intersection, &req),
        Err(Error {
            kind: ErrorKind::Combined,
            message: "error:\n-type one unknown\n-type two unknown".to_string(),
        })
    );
}

#[test]
fn a_failed_translation_and_a_failed_load_give_both_messages() {
    let bad = TripleRecord {
        subject: NodeEntry::Single(NodeRecord {
            value: "x".to_string(),
            typ: "thing".to_string(),
            lang: None,
            datatype: None,
        }),
        predicate: uri("http://a/p"),
        object: uri("http://a/o"),
    };
    let lhs = Descriptor { file: None, data: Some(InlineData::Record(bad)) };
    let req = request(lhs, nothing(), None);
    let expected = Err(Error {
        kind: ErrorKind::Combined,
        message: "error:\n-type thing unknown\n-missing path ('rhsPath') or data (rhsData)"
            .to_string(),
    });
    assert_eq!(run(merge, &req), expected);
    assert_eq!(run(difference, &req), expected);
    assert_eq!(run(intersection, &req), expected);
}

#[test]
fn a_failed_load_and_a_failed_translation_give_both_messages() {
    let bad = TripleRecord {
        subject: uri("http://a/s"),
        predicate: uri("http://a/p"),
        object: NodeEntry::Single(NodeRecord {
            value: "x".to_string(),
            typ: "other".to_string(),
            lang: None,
            datatype: None,
        }),
    };
    let rhs = Descriptor { file: None, data: Some(InlineData::Records(vec![bad])) };
    let req = request(nothing(), rhs, None);
    assert_eq!(
        run(merge, &req),
        Err(Error {
            kind: ErrorKind::Combined,
            message: "error:\n-missing path ('lhsPath') or data (lhsData)\n-type other unknown"
                .to_string(),
        })
    );
}

#[test]
fn the_union_counts_a_shared_statement_once() {
    let lhs = "<http://a/s1> <http://a/p> <http://a/o> .\n<http://a/s2> <http://a/p> <http://a/o> .\n<http://a/s3> <http://a/p> <http://a/o> .";
    let rhs = "<http://a/s3> <http://a/p> <http://a/o> .\n<http://a/s4> <http://a/p> <http://a/o> .\n<http://a/s1> <http://a/p> <http://a/o> .";
    let union = records(run(merge, &request(inline(lhs), inline(rhs), None))).len();
    let shared = records(run(intersection, &request(inline(rhs), inline(lhs), None))).len();
    assert_eq!(shared, 2);
    assert_eq!(union, 3 + 3 - shared);
}
