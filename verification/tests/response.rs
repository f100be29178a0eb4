use node_tortank::response::{all_flat, chunk_size, map_records, parse_mode, retain_mapped};
use node_tortank::{
    make_response, merge, statements, BinaryRequest, Descriptor, Error, ErrorKind, InlineData,
    Mode, NodeEntry, NodeRecord, Options, OutputConfig, Pattern, Response, TripleRecord,
    UnaryRequest,
};
use std::cell::RefCell;
use tortank::turtle::turtle_doc::TurtleDoc;

type Absent = fn(&TripleRecord) -> Result<Option<String>, String>;

fn idle(_doc: &TurtleDoc<'_>, _path: &str, _chunk: usize, _structured: bool) -> Result<(), String> {
    Ok(())
}

fn resource(value: &str) -> NodeEntry {
    NodeEntry::Single(NodeRecord {
        value: value.to_string(),
        typ: "uri".to_string(),
        lang: None,
        datatype: None,
    })
}

fn about(s: &str) -> TripleRecord {
    TripleRecord {
        subject: resource(s),
        predicate: resource("http://a/p"),
        object: resource("http://a/o"),
    }
}

fn subject_of(record: &TripleRecord) -> String {
    match &record.subject {
        NodeEntry::Single(node) => node.value.clone(),
        NodeEntry::List(_) => String::new(),
    }
}

const THREE: &str = "<http://a/s1> <http://a/p> <http://a/o> .\n<http://a/s2> <http://a/p> <http://a/o> .\n<http://a/s3> <http://a/p> <http://a/o> .";

fn listing(output_type: Option<&str>, path: Option<&str>, buf_size: Option<i64>) -> UnaryRequest {
    UnaryRequest {
        primary: Descriptor { file: None, data: Some(InlineData::Text(THREE.to_string())) },
        pattern: Pattern { subject: None, predicate: None, object: None },
        options: Options { well_known_prefix: None, extra_prefixes: Vec::new() },
        output: OutputConfig {
            output_type: output_type.map(|s| s.to_string()),
            output_file_path: path.map(|s| s.to_string()),
            buf_size,
        },
    }
}

#[test]
fn output_types_are_structured_and_textual() {
    assert_eq!(parse_mode(&None), Ok(Mode::Structured));
    assert_eq!(parse_mode(&Some("structured".to_string())), Ok(Mode::Structured));
    assert_eq!(parse_mode(&Some("textual".to_string())), Ok(Mode::Textual));
    assert_eq!(
        parse_mode(&Some("xml".to_string())),
        Err(Error {
            kind: ErrorKind::InvalidConfiguration,
            message: "invalid output type 'xml': expected 'structured' or 'textual'".to_string(),
        })
    );
    assert_eq!(
        parse_mode(&Some("Textual".to_string())).map_err(|e| e.kind),
        Err(ErrorKind::InvalidConfiguration)
    );
    assert_eq!(
        parse_mode(&Some(String::new())).map_err(|e| e.message),
        Err("invalid output type '': expected 'structured' or 'textual'".to_string())
    );
}

#[test]
fn the_chunk_is_the_hint_without_its_sign() {
    assert_eq!(chunk_size(Some(10), 3), 10);
    assert_eq!(chunk_size(Some(-10), 3), 10);
    assert_eq!(chunk_size(Some(1), 0), 1);
    assert_eq!(chunk_size(Some(i64::MAX), 3), i64::MAX as usize);
    assert_eq!(chunk_size(Some(i64::MIN), 3), 1usize << 63);
}

#[test]
fn without_a_hint_the_chunk_is_the_whole_document() {
    assert_eq!(chunk_size(None, 3), 3);
    assert_eq!(chunk_size(Some(0), 3), 3);
    assert_eq!(chunk_size(None, 0), 1);
    assert_eq!(chunk_size(Some(0), 0), 1);
}

#[test]
fn a_mapper_that_drops_every_record_leaves_nothing() {
    let records = vec![about("http://a/s1"), about("http://a/s2")];
    let out: Result<Vec<String>, String> = map_records(&records, &|_record: &TripleRecord| Ok(None));
    assert_eq!(out, Ok(Vec::new()));
}

#[test]
fn a_mapper_replaces_what_it_keeps_in_order() {
    let records = vec![about("http://a/s1"), about("http://a/s2"), about("http://a/s3")];
    let out: Result<Vec<String>, String> = map_records(&records, &|record: &TripleRecord| {
        let s = subject_of(record);
        if s.ends_with("2") {
            Ok(None)
        } else {
            Ok(Some(s.to_uppercase()))
        }
    });
    assert_eq!(out, Ok(vec!["HTTP://A/S1".to_string(), "HTTP://A/S3".to_string()]));
}

#[test]
fn a_mapper_is_called_once_on_each_record_in_order() {
    let seen = RefCell::new(Vec::new());
    let records = vec![about("http://a/s1"), about("http://a/s2"), about("http://a/s3")];
    let out: Result<Vec<()>, String> = map_records(&records, &|record: &TripleRecord| {
        seen.borrow_mut().push(subject_of(record));
        Ok(Some(()))
    });
    assert_eq!(out.map(|kept| kept.len()), Ok(3));
    assert_eq!(
        seen.into_inner(),
        vec!["http://a/s1".to_string(), "http://a/s2".to_string(), "http://a/s3".to_string()]
    );
}

#[test]
fn what_was_not_dropped_is_retained_in_order() {
    assert_eq!(retain_mapped(vec![Some(1), None, Some(3), None, None, Some(6)]), vec![1, 3, 6]);
    assert_eq!(retain_mapped(vec![None::<u8>, None]), Vec::<u8>::new());
    assert_eq!(retain_mapped(Vec::<Option<u8>>::new()), Vec::<u8>::new());
    assert_eq!(retain_mapped(vec![Some("a"), Some("b")]), vec!["a", "b"]);
}

#[test]
fn without_a_mapper_there_is_one_record_per_statement() {
    let mut diagnostics = Vec::new();
    let got = statements::<String, String, Absent, _>(&listing(None, None, None), None, idle, &mut diagnostics);
    assert_eq!(
        got,
        Ok(Response::Records(vec![about("http://a/s1"), about("http://a/s2"), about("http://a/s3")]))
    );
}

#[test]
fn with_a_mapper_the_kept_records_are_replaced() {
    let mut diagnostics = Vec::new();
    let mapper = |record: &TripleRecord| -> Result<Option<String>, String> {
        let s = subject_of(record);
        if s.ends_with("1") {
            Ok(None)
        } else {
            Ok(Some(s))
        }
    };
    let got = statements(&listing(None, None, None), Some(&mapper), idle, &mut diagnostics);
    assert_eq!(
        got,
        Ok(Response::Mapped(vec!["http://a/s2".to_string(), "http://a/s3".to_string()]))
    );
}

#[test]
fn a_mapper_that_drops_all_gives_an_empty_sequence() {
    let mut diagnostics = Vec::new();
    let mapper = |_record: &TripleRecord| -> Result<Option<String>, String> { Ok(None) };
    let got = statements(&listing(None, None, None), Some(&mapper), idle, &mut diagnostics);
    assert_eq!(got, Ok(Response::Mapped(Vec::new())));
}

#[test]
fn a_mapper_is_not_asked_for_a_text() {
    let mut diagnostics = Vec::new();
    let mapper =
        |_record: &TripleRecord| -> Result<Option<String>, String> { panic!("the mapper was called") };
    let got = statements(&listing(Some("textual"), None, None), Some(&mapper), idle, &mut diagnostics);
    assert_eq!(
        got,
        Ok(Response::Text(
            "<http://a/s1> <http://a/p> <http://a/o>.\n<http://a/s2> <http://a/p> <http://a/o>.\n<http://a/s3> <http://a/p> <http://a/o>."
                .to_string()
        ))
    );
}

#[test]
fn with_a_path_the_writer_gets_the_document() {
    let seen = RefCell::new(Vec::new());
    let mut diagnostics = Vec::new();
    let writer = |doc: &TurtleDoc<'_>, path: &str, chunk: usize, structured: bool| {
        seen.borrow_mut().push((doc.len(), path.to_string(), chunk, structured));
        Ok(())
    };
    let got = statements::<String, String, Absent, _>(
        &listing(None, Some("/tmp/out.json"), Some(-2)),
        None,
        writer,
        &mut diagnostics,
    );
    assert_eq!(got, Ok(Response::Written));
    assert_eq!(seen.into_inner(), vec![(3, "/tmp/out.json".to_string(), 2, true)]);
}

#[test]
fn a_text_is_written_in_one_chunk_by_default() {
    let seen = RefCell::new(Vec::new());
    let mut diagnostics = Vec::new();
    let writer = |doc: &TurtleDoc<'_>, path: &str, chunk: usize, structured: bool| {
        seen.borrow_mut().push((doc.to_string(), path.to_string(), chunk, structured));
        Ok(())
    };
    let got = statements::<String, String, Absent, _>(
        &listing(Some("textual"), Some("out.ttl"), None),
        None,
        writer,
        &mut diagnostics,
    );
    assert_eq!(got, Ok(Response::Written));
    assert_eq!(
        seen.into_inner(),
        vec![(
            "<http://a/s1> <http://a/p> <http://a/o>.\n<http://a/s2> <http://a/p> <http://a/o>.\n<http://a/s3> <http://a/p> <http://a/o>."
                .to_string(),
            "out.ttl".to_string(),
            3,
            false
        )]
    );
}

#[test]
fn an_empty_document_is_written_with_a_chunk_of_one() {
    let seen = RefCell::new(Vec::new());
    let mut diagnostics = Vec::new();
    let request = BinaryRequest {
        lhs: Descriptor { file: None, data: Some(InlineData::Text(String::new())) },
        rhs: Descriptor { file: None, data: Some(InlineData::Text(String::new())) },
        options: Options { well_known_prefix: None, extra_prefixes: Vec::new() },
        output: OutputConfig {
            output_type: None,
            output_file_path: Some("out.json".to_string()),
            buf_size: None,
        },
    };
    let writer = |doc: &TurtleDoc<'_>, _path: &str, chunk: usize, _structured: bool| {
        seen.borrow_mut().push((doc.len(), chunk));
        Ok(())
    };
    let got = merge::<String, String, Absent, _>(&request, None, writer, &mut diagnostics);
    assert_eq!(got, Ok(Response::Written));
    assert_eq!(seen.into_inner(), vec![(0, 1)]);
}

#[test]
fn a_failed_write_is_an_io_error() {
    let mut diagnostics = Vec::new();
    let writer = |_doc: &TurtleDoc<'_>, _path: &str, _chunk: usize, _structured: bool| {
        Err("error: Permission denied (os error 13)".to_string())
    };
    let got = statements::<String, String, Absent, _>(
        &listing(None, Some("/out.json"), None),
        None,
        writer,
        &mut diagnostics,
    );
    assert_eq!(
        got,
        Err(Error {
            kind: ErrorKind::Io,
            message: "error: Permission denied (os error 13)".to_string(),
        })
    );
}

#[test]
fn an_unknown_output_type_is_refused_before_writing() {
    let mut diagnostics = Vec::new();
    let writer = |_doc: &TurtleDoc<'_>, _path: &str, _chunk: usize, _structured: bool| -> Result<(), String> {
        panic!("the writer was called")
    };
    let got = statements::<String, String, Absent, _>(
        &listing(Some("n3"), Some("/out.json"), None),
        None,
        writer,
        &mut diagnostics,
    );
    assert_eq!(
        got,
        Err(Error {
            kind: ErrorKind::InvalidConfiguration,
            message: "invalid output type 'n3': expected 'structured' or 'textual'".to_string(),
        })
    );
}

fn with_a_list() -> TripleRecord {
    TripleRecord {
        subject: resource("http://a/s"),
        predicate: resource("http://a/p"),
        object: NodeEntry::List(vec![
            resource("http://a/o1"),
            NodeEntry::List(vec![resource("http://a/o2"), resource("http://a/o3")]),
        ]),
    }
}

#[test]
fn records_tell_lists_from_single_nodes() {
    assert!(all_flat(&vec![about("http://a/s1"), about("http://a/s2")]));
    assert!(all_flat(&Vec::new()));
    assert!(!all_flat(&vec![about("http://a/s1"), with_a_list()]));
    assert!(about("http://a/s1").is_flat());
    assert!(!with_a_list().is_flat());
    assert!(!NodeEntry::List(Vec::new()).is_flat());
}

#[test]
fn a_list_comes_back_as_it_went_in() {
    let request = UnaryRequest {
        primary: Descriptor { file: None, data: Some(InlineData::Record(with_a_list())) },
        pattern: Pattern { subject: None, predicate: None, object: None },
        options: Options { well_known_prefix: None, extra_prefixes: Vec::new() },
        output: OutputConfig { output_type: None, output_file_path: None, buf_size: None },
    };
    let mut diagnostics = Vec::new();
    let got = statements::<String, String, Absent, _>(&request, None, idle, &mut diagnostics);
    assert_eq!(got, Ok(Response::Records(vec![with_a_list()])));
}

#[test]
fn a_list_cannot_be_written_as_text() {
    let request = UnaryRequest {
        primary: Descriptor { file: None, data: Some(InlineData::Record(with_a_list())) },
        pattern: Pattern { subject: None, predicate: None, object: None },
        options: Options { well_known_prefix: None, extra_prefixes: Vec::new() },
        output: OutputConfig {
            output_type: Some("textual".to_string()),
            output_file_path: None,
            buf_size: None,
        },
    };
    let mut diagnostics = Vec::new();
    let got = statements::<String, String, Absent, _>(&request, None, idle, &mut diagnostics);
    assert_eq!(
        got,
        Err(Error {
            kind: ErrorKind::Translation,
            message: "a statement with a list node cannot be written as text".to_string(),
        })
    );
}

#[test]
fn a_list_is_not_handed_to_the_writer_as_text() {
    let request = UnaryRequest {
        primary: Descriptor { file: None, data: Some(InlineData::Record(with_a_list())) },
        pattern: Pattern { subject: None, predicate: None, object: None },
        options: Options { well_known_prefix: None, extra_prefixes: Vec::new() },
        output: OutputConfig {
            output_type: Some("textual".to_string()),
            output_file_path: Some("out.ttl".to_string()),
            buf_size: None,
        },
    };
    let mut diagnostics = Vec::new();
    let writer = |_doc: &TurtleDoc<'_>, _path: &str, _chunk: usize, _structured: bool| -> Result<(), String> {
        panic!("the writer was called")
    };
    let got = statements::<String, String, Absent, _>(&request, None, writer, &mut diagnostics);
    match got {
        Err(e) => assert_eq!(e.kind, ErrorKind::Translation),
        other => panic!("expected an error, got {:?}", other),
    }
}

#[test]
fn a_document_is_projected_as_it_stands() {
    let doc = TurtleDoc::try_from(("<http://a/s1> <http://a/p> <http://a/o> .", None)).unwrap();
    let config = OutputConfig { output_type: None, output_file_path: None, buf_size: None };
    let got = make_response::<String, String, Absent, _>(&doc, &config, None, idle);
    assert_eq!(got, Ok(Response::Records(vec![about("http://a/s1")])));
}

#[test]
fn repeated_records_are_handed_back_once() {
    let request = UnaryRequest {
        primary: Descriptor {
            file: None,
            data: Some(InlineData::Records(vec![
                about("http://a/s1"),
                about("http://a/s2"),
                about("http://a/s1"),
            ])),
        },
        pattern: Pattern { subject: None, predicate: None, object: None },
        options: Options { well_known_prefix: None, extra_prefixes: Vec::new() },
        output: OutputConfig { output_type: None, output_file_path: None, buf_size: None },
    };
    let mut diagnostics = Vec::new();
    let got = statements::<String, String, Absent, _>(&request, None, idle, &mut diagnostics);
    assert_eq!(got, Ok(Response::Records(vec![about("http://a/s1"), about("http://a/s2")])));
}

#[test]
fn repeated_records_are_written_once_as_text() {
    let request = UnaryRequest {
        primary: Descriptor {
            file: None,
            data: Some(InlineData::Records(vec![
                about("http://a/s1"),
                about("http://a/s1"),
                about("http://a/s2"),
            ])),
        },
        pattern: Pattern { subject: None, predicate: None, object: None },
        options: Options { well_known_prefix: None, extra_prefixes: Vec::new() },
        output: OutputConfig {
            output_type: Some("textual".to_string()),
            output_file_path: None,
            buf_size: None,
        },
    };
    let mut diagnostics = Vec::new();
    let got = statements::<String, String, Absent, _>(&request, None, idle, &mut diagnostics);
    assert_eq!(
        got,
        Ok(Response::Text(
            "<http://a/s1> <http://a/p> <http://a/o>.\n<http://a/s2> <http://a/p> <http://a/o>."
                .to_string()
        ))
    );
}

#[test]
fn a_mapper_that_fails_is_not_called_again() {
    let seen = RefCell::new(Vec::new());
    let records = vec![about("http://a/s1"), about("http://a/s2"), about("http://a/s3")];
    let out: Result<Vec<String>, String> = map_records(&records, &|record: &TripleRecord| {
        let s = subject_of(record);
        seen.borrow_mut().push(s.clone());
        if s.ends_with("2") {
            Err(format!("refused {}", s))
        } else {
            Ok(Some(s))
        }
    });
    assert_eq!(out, Err("refused http://a/s2".to_string()));
    assert_eq!(seen.into_inner(), vec!["http://a/s1".to_string(), "http://a/s2".to_string()]);
}

#[test]
fn a_failure_of_the_mapper_interrupts_the_response() {
    let mut diagnostics = Vec::new();
    let mapper = |record: &TripleRecord| -> Result<Option<String>, String> {
        let s = subject_of(record);
        if s.ends_with("3") {
            Err("thrown".to_string())
        } else {
            Ok(Some(s))
        }
    };
    let got = statements(&listing(None, None, None), Some(&mapper), idle, &mut diagnostics);
    assert_eq!(got, Ok(Response::Interrupted("thrown".to_string())));
}
