//! The document loader: from an input descriptor to a loaded document.
//!
//! An operand is given as a file, already read by the caller, or as inline
//! data. A file takes precedence. What comes out is either a parsed document or
//! a deferred collection of triples that carries its prefix table along.

use crate::engine::{
    doc_base, doc_facts, doc_prefixes, extend_prefix, extension_of, parse_json, parse_turtle,
    parsed_as, parsed_json, path_extension, triple_models, turtle_failure,
};
use crate::error::{
    missing_input_model, unreadable_text, unsupported_text, Error, ErrorKind, ErrorModel,
};
use crate::model::{all_printable, canonical, Fact};
use crate::prefix::{
    applied_table, build_prefixes, malformed_text, pairs_of, refusal_warnings, request_table,
    texts_of, warnings_of, PrefixEntry,
};
use crate::record::text_of;
use crate::record::{models_of, TripleModel, TripleRecord};
use crate::translate::{record_to_engine, records_to_engine};
use tortank::turtle::turtle_doc::{RdfJsonTriple, TurtleDoc};
use vstd::prelude::*;
use vstd::string::StringExecFns;

verus! {

/// Inline data of an operand.
#[derive(Debug, PartialEq, Eq)]
pub enum InlineData {
    /// A text, in the textual syntax or in the structured exchange syntax.
    Text(String),
    /// A sequence of records.
    Records(Vec<TripleRecord>),
    /// One record.
    Record(TripleRecord),
    /// Records that the caller could not read, with the reason.
    Malformed(String),
    /// Data of a kind that cannot be loaded.
    Unsupported,
}

/// A file of an operand: its path, and what reading it gave.
#[derive(Debug, PartialEq, Eq)]
pub struct FileSource {
    pub path: String,
    /// The text of the file, or the message of the failure to read it.
    pub content: Result<String, String>,
}

/// The input descriptor of one operand.
#[derive(Debug, PartialEq, Eq)]
pub struct Descriptor {
    pub file: Option<FileSource>,
    pub data: Option<InlineData>,
}

/// What a request says of prefixes.
#[derive(Clone, Debug, PartialEq, Eq)]
pub struct Options {
    /// The namespace under which blank nodes are named, if any.
    pub well_known_prefix: Option<String>,
    /// The caller's prefix map, entry by entry.
    pub extra_prefixes: Vec<PrefixEntry>,
}

/// How the text of a file is parsed.
#[derive(Clone, Copy, Debug, PartialEq, Eq)]
pub enum Route {
    /// As a collection of triples in the structured exchange syntax.
    Structured,
    /// As a document in the textual syntax.
    Textual,
}

/// A loaded operand.
pub enum DocType<'a> {
    /// A parsed document, its prefix table applied.
    TurtleDoc(TurtleDoc<'a>),
    /// A deferred collection of triples with the prefix table to apply.
    RdfJsonTriple((Vec<RdfJsonTriple>, Vec<(String, String)>)),
}

/// Mathematical model of a loaded operand.
pub enum LoadModel {
    /// The statements, the prefix table and the base of a parsed document.
    Doc(Seq<Fact>, Map<Seq<char>, Seq<char>>, Seq<char>),
    /// The records of a deferred collection and the prefix table to apply.
    Deferred(Seq<TripleModel>, Seq<(Seq<char>, Seq<char>)>),
}

impl<'a> DocType<'a> {
    pub open spec fn model(&self) -> LoadModel {
        match self {
            DocType::TurtleDoc(doc) => LoadModel::Doc(
                doc_facts(doc),
                doc_prefixes(doc),
                doc_base(doc),
            ),
            DocType::RdfJsonTriple(pair) => LoadModel::Deferred(
                triple_models(pair.0@),
                pairs_of(pair.1@),
            ),
        }
    }
}

/// The model of what a load gave.
pub open spec fn load_model(outcome: Result<DocType<'_>, Error>) -> Result<LoadModel, ErrorModel> {
    match outcome {
        Ok(loaded) => Ok(loaded.model()),
        Err(error) => Err(error@),
    }
}

/// The route of a file with the given extension: the extension `json` is
/// reserved for the structured exchange syntax.
pub open spec fn route_of(extension: Option<Seq<char>>) -> Route {
    if extension == Some("json"@) {
        Route::Structured
    } else {
        Route::Textual
    }
}

/// What loading a text in the structured exchange syntax gives.
pub open spec fn structured_load(text: Seq<char>, table: Seq<(Seq<char>, Seq<char>)>) -> Result<
    LoadModel,
    ErrorModel,
> {
    match parsed_json(text) {
        Ok(records) => Ok(LoadModel::Deferred(records, table)),
        Err(message) => Err(ErrorModel { kind: ErrorKind::Parse, message }),
    }
}

/// Whether the engine can parse the text into a document with these
/// statements and this base whose table, with each accepted pair of `table`
/// entered, is `prefixes`.
pub open spec fn parsed_with(
    text: Seq<char>,
    well_known_prefix: Option<Seq<char>>,
    table: Seq<(Seq<char>, Seq<char>)>,
    facts: Seq<Fact>,
    prefixes: Map<Seq<char>, Seq<char>>,
    base: Seq<char>,
) -> bool {
    exists|own: Map<Seq<char>, Seq<char>>|
        #![trigger parsed_as(text, well_known_prefix, facts, own, base)]
        parsed_as(text, well_known_prefix, facts, own, base) && prefixes == applied_table(
            own,
            base,
            table,
        )
}

/// Whether `outcome` is a document that the engine can parse the text into,
/// with the prefix table applied: the statements and the base are the parsed
/// document's, canonical and printable, and the table is the parsed document's
/// own with each accepted pair of `table` entered.
pub open spec fn parsed_load(
    text: Seq<char>,
    well_known_prefix: Option<Seq<char>>,
    table: Seq<(Seq<char>, Seq<char>)>,
    outcome: Result<LoadModel, ErrorModel>,
) -> bool {
    match outcome {
        Ok(LoadModel::Doc(facts, prefixes, base)) => {
            &&& all_printable(facts)
            &&& canonical(facts)
            &&& parsed_with(text, well_known_prefix, table, facts, prefixes, base)
        },
        _ => false,
    }
}

/// Whether `outcome` is what loading a text in the textual syntax gives: a
/// parse error with the engine's message where the engine refuses the text, a
/// parsed document otherwise.
pub open spec fn textual_load(
    text: Seq<char>,
    well_known_prefix: Option<Seq<char>>,
    table: Seq<(Seq<char>, Seq<char>)>,
    outcome: Result<LoadModel, ErrorModel>,
) -> bool {
    match turtle_failure(text, well_known_prefix) {
        Some(message) => outcome == Err::<LoadModel, ErrorModel>(
            ErrorModel { kind: ErrorKind::Parse, message },
        ),
        None => parsed_load(text, well_known_prefix, table, outcome),
    }
}

/// What loading an inline text gives once the textual parse has failed with
/// `message`: the structured parse of the same text, or both messages.
pub open spec fn fallback_load(
    text: Seq<char>,
    table: Seq<(Seq<char>, Seq<char>)>,
    message: Seq<char>,
) -> Result<LoadModel, ErrorModel> {
    match parsed_json(text) {
        Ok(records) => Ok(LoadModel::Deferred(records, table)),
        Err(second) => Err(
            ErrorModel { kind: ErrorKind::Parse, message: unreadable_text(message, second) },
        ),
    }
}

/// Whether `outcome` is what loading an inline text gives: a parsed document
/// where the engine accepts the text in the textual syntax, and otherwise the
/// structured parse of the same text or an error with both messages.
pub open spec fn inline_text_load(
    text: Seq<char>,
    well_known_prefix: Option<Seq<char>>,
    table: Seq<(Seq<char>, Seq<char>)>,
    outcome: Result<LoadModel, ErrorModel>,
) -> bool {
    match turtle_failure(text, well_known_prefix) {
        Some(message) => outcome == fallback_load(text, table, message),
        None => parsed_load(text, well_known_prefix, table, outcome),
    }
}

/// Whether `outcome` is what loading `descriptor` gives.
///
/// A file takes precedence over inline data. A file that could not be read is
/// an I/O error. Records are deferred as they are. Without a file and without
/// data the load fails and names both fields.
pub open spec fn loads(
    descriptor: Descriptor,
    options: Options,
    key_path: Seq<char>,
    key_data: Seq<char>,
    outcome: Result<LoadModel, ErrorModel>,
) -> bool {
    let prefix = text_of(options.well_known_prefix);
    let table = request_table(prefix, options.extra_prefixes@);
    match descriptor.file {
        Some(file) => match file.content {
            Err(message) => outcome == Err::<LoadModel, ErrorModel>(
                ErrorModel { kind: ErrorKind::Io, message: message@ },
            ),
            Ok(text) => match route_of(extension_of(file.path@)) {
                Route::Structured => outcome == structured_load(text@, table),
                Route::Textual => textual_load(text@, prefix, table, outcome),
            },
        },
        None => match descriptor.data {
            Some(InlineData::Text(text)) => inline_text_load(text@, prefix, table, outcome),
            Some(InlineData::Records(records)) => outcome == Ok::<LoadModel, ErrorModel>(
                LoadModel::Deferred(models_of(records@), table),
            ),
            Some(InlineData::Record(record)) => outcome == Ok::<LoadModel, ErrorModel>(
                LoadModel::Deferred(seq![record@], table),
            ),
            Some(InlineData::Malformed(reason)) => outcome == Err::<LoadModel, ErrorModel>(
                ErrorModel { kind: ErrorKind::Translation, message: reason@ },
            ),
            Some(InlineData::Unsupported) => outcome == Err::<LoadModel, ErrorModel>(
                ErrorModel { kind: ErrorKind::Translation, message: unsupported_text() },
            ),
            None => outcome == Err::<LoadModel, ErrorModel>(missing_input_model(key_path, key_data)),
        },
    }
}

/// The warnings that a load leaves: one for each malformed prefix entry and,
/// where a document was parsed, one for each pair of the request's table that
/// the engine refused.
pub open spec fn load_notes(options: Options, outcome: Result<LoadModel, ErrorModel>) -> Seq<
    Seq<char>,
> {
    let entries = options.extra_prefixes@;
    if outcome matches Ok(LoadModel::Doc(_, _, _)) {
        warnings_of(entries) + refusal_warnings(
            request_table(text_of(options.well_known_prefix), entries),
        )
    } else {
        warnings_of(entries)
    }
}

/// The route for a file extension.
pub fn route_for_extension(extension: Option<&str>) -> (route: Route)
    ensures
        route == route_of(
            match extension {
                Some(e) => Some(e@),
                None => None,
            },
        ),
{
    match extension {
        Some(e) => {
            if String::from_str(e) == String::from_str("json") {
                Route::Structured
            } else {
                Route::Textual
            }
        },
        None => Route::Textual,
    }
}

/// The route for the file at `path`, by its extension.
pub fn route_of_path(path: &str) -> (route: Route)
    ensures
        route == route_of(extension_of(path@)),
{
    match path_extension(path) {
        Some(e) => route_for_extension(Some(e.as_str())),
        None => route_for_extension(None),
    }
}

/// Applies a prefix table to a document, pair by pair. A pair that the engine
/// refuses is skipped and leaves a warning that names it.
pub fn attach_prefixes<'a>(
    doc: TurtleDoc<'a>,
    table: &Vec<(String, String)>,
    diagnostics: &mut Vec<String>,
) -> (out: TurtleDoc<'a>)
    ensures
        doc_facts(&out) == doc_facts(&doc),
        doc_base(&out) == doc_base(&doc),
        doc_prefixes(&out) == applied_table(doc_prefixes(&doc), doc_base(&doc), pairs_of(table@)),
        texts_of(final(diagnostics)@) == texts_of(old(diagnostics)@) + refusal_warnings(
            pairs_of(table@),
        ),
{
    let ghost own = doc_prefixes(&doc);
    let ghost base = doc_base(&doc);
    let ghost facts = doc_facts(&doc);
    let ghost pairs = pairs_of(table@);
    let ghost lines = texts_of(diagnostics@);
    let mut out = doc;
    let mut i: usize = 0;
    proof {
        assert(pairs.take(0) =~= Seq::<(Seq<char>, Seq<char>)>::empty());
        assert(lines + refusal_warnings(pairs.take(0)) =~= lines);
    }
    while i < table.len()
        invariant
            i <= table.len(),
            pairs == pairs_of(table@),
            doc_facts(&out) == facts,
            doc_base(&out) == base,
            doc_prefixes(&out) == applied_table(own, base, pairs.take(i as int)),
            texts_of(diagnostics@) == lines + refusal_warnings(pairs.take(i as int)),
        decreases table.len() - i,
    {
        let ghost pair = pairs[i as int];
        let ghost noted = texts_of(diagnostics@);
        proof {
            assert(pairs.take(i + 1).drop_last() =~= pairs.take(i as int));
            assert(pairs.take(i + 1).last() == pair);
        }
        match extend_prefix(&mut out, table[i].0.as_str(), table[i].1.as_str()) {
            Ok(_) => {},
            Err(e) => {
                let error = Error::from_engine(ErrorKind::Parse, e);
                let mut line = String::from_str("warning! value for ");
                line.append(table[i].0.as_str());
                line.append(" is incorrect. ");
                line.append(error.message.as_str());
                diagnostics.push(line);
                assert(texts_of(diagnostics@) =~= noted.push(
                    malformed_text(pair.0, error.message@),
                ));
            },
        }
        i += 1;
    }
    proof {
        assert(pairs.take(table.len() as int) =~= pairs);
    }
    out
}

/// Loads a text in the structured exchange syntax.
fn load_structured<'a>(text: &str, table: Vec<(String, String)>) -> (res: Result<
    DocType<'a>,
    Error,
>)
    ensures
        load_model(res) == structured_load(text@, pairs_of(table@)),
{
    match parse_json(text) {
        Ok(triples) => Ok(DocType::RdfJsonTriple((triples, table))),
        Err(e) => Err(Error::from_engine(ErrorKind::Parse, e)),
    }
}

/// Makes a loaded operand of a parsed document: the document as the engine
/// parsed it, with the prefix table applied.
pub fn load_parsed<'a>(
    doc: TurtleDoc<'a>,
    table: &Vec<(String, String)>,
    diagnostics: &mut Vec<String>,
) -> (res: Result<DocType<'a>, Error>)
    ensures
        res matches Ok(DocType::TurtleDoc(out)) && doc_facts(&out) == doc_facts(&doc) && doc_base(
            &out,
        ) == doc_base(&doc) && doc_prefixes(&out) == applied_table(
            doc_prefixes(&doc),
            doc_base(&doc),
            pairs_of(table@),
        ),
        texts_of(final(diagnostics)@) == texts_of(old(diagnostics)@) + refusal_warnings(
            pairs_of(table@),
        ),
{
    Ok(DocType::TurtleDoc(attach_prefixes(doc, table, diagnostics)))
}

/// Loads a text in the textual syntax and applies the prefix table.
fn load_textual<'a>(
    text: &'a str,
    well_known_prefix: Option<String>,
    table: &Vec<(String, String)>,
    diagnostics: &mut Vec<String>,
) -> (res: Result<DocType<'a>, Error>)
    ensures
        textual_load(text@, text_of(well_known_prefix), pairs_of(table@), load_model(res)),
        texts_of(final(diagnostics)@) == texts_of(old(diagnostics)@) + (if res is Ok {
            refusal_warnings(pairs_of(table@))
        } else {
            Seq::empty()
        }),
{
    let ghost prefix = text_of(well_known_prefix);
    match parse_turtle(text, well_known_prefix) {
        Ok(doc) => {
            let ghost own = doc_prefixes(&doc);
            let ghost facts = doc_facts(&doc);
            let ghost base = doc_base(&doc);
            let res = load_parsed(doc, table, diagnostics);
            proof {
                assert(parsed_as(text@, prefix, facts, own, base));
                assert(load_model(res) == Ok::<LoadModel, ErrorModel>(
                    LoadModel::Doc(facts, applied_table(own, base, pairs_of(table@)), base),
                ));
                assert(parsed_with(
                    text@,
                    prefix,
                    pairs_of(table@),
                    facts,
                    applied_table(own, base, pairs_of(table@)),
                    base,
                ));
            }
            res
        },
        Err(e) => {
            assert(texts_of(diagnostics@) + Seq::<Seq<char>>::empty() =~= texts_of(diagnostics@));
            Err(Error::from_engine(ErrorKind::Parse, e))
        },
    }
}

/// Loads an inline text: as a document in the textual syntax or else, from
/// the same text, as a collection of triples in the structured exchange
/// syntax. Where both fail, the error embeds both messages.
fn load_inline_text<'a>(
    text: &'a str,
    well_known_prefix: Option<String>,
    table: Vec<(String, String)>,
    diagnostics: &mut Vec<String>,
) -> (res: Result<DocType<'a>, Error>)
    ensures
        inline_text_load(text@, text_of(well_known_prefix), pairs_of(table@), load_model(res)),
        texts_of(final(diagnostics)@) == texts_of(old(diagnostics)@) + (if load_model(
            res,
        ) matches Ok(LoadModel::Doc(_, _, _)) {
            refusal_warnings(pairs_of(table@))
        } else {
            Seq::empty()
        }),
{
    let ghost prefix = text_of(well_known_prefix);
    let first = match parse_turtle(text, well_known_prefix) {
        Ok(doc) => {
            let ghost own = doc_prefixes(&doc);
            let ghost facts = doc_facts(&doc);
            let ghost base = doc_base(&doc);
            let res = load_parsed(doc, &table, diagnostics);
            proof {
                assert(parsed_as(text@, prefix, facts, own, base));
                assert(load_model(res) == Ok::<LoadModel, ErrorModel>(
                    LoadModel::Doc(facts, applied_table(own, base, pairs_of(table@)), base),
                ));
                assert(parsed_with(
                    text@,
                    prefix,
                    pairs_of(table@),
                    facts,
                    applied_table(own, base, pairs_of(table@)),
                    base,
                ));
            }
            return res;
        },
        Err(e) => Error::from_engine(ErrorKind::Parse, e),
    };
    proof {
        assert(texts_of(diagnostics@) + Seq::<Seq<char>>::empty() =~= texts_of(diagnostics@));
    }
    match parse_json(text) {
        Ok(triples) => Ok(DocType::RdfJsonTriple((triples, table))),
        Err(e) => {
            let second = Error::from_engine(ErrorKind::Parse, e);
            Err(Error::unreadable(first.message.as_str(), second.message.as_str()))
        },
    }
}

/// Resolves the input descriptor of one operand.
///
/// `key_path` and `key_data` are the names under which the caller's request
/// holds the operand's file and data; the missing-input error names them.
pub fn make_doc<'a>(
    descriptor: &'a Descriptor,
    options: &Options,
    key_path: &str,
    key_data: &str,
    diagnostics: &mut Vec<String>,
) -> (res: Result<DocType<'a>, Error>)
    ensures
        loads(*descriptor, *options, key_path@, key_data@, load_model(res)),
        texts_of(final(diagnostics)@) == texts_of(old(diagnostics)@) + load_notes(
            *options,
            load_model(res),
        ),
{
    let ghost start = texts_of(diagnostics@);
    let ghost warnings = warnings_of(options.extra_prefixes@);
    let table = build_prefixes(&options.extra_prefixes, diagnostics);
    proof {
        let refusals = refusal_warnings(pairs_of(table@));
        assert(start + warnings + Seq::<Seq<char>>::empty() =~= start + warnings);
        assert(start + warnings + refusals =~= start + (warnings + refusals));
    }
    match &descriptor.file {
        Some(file) => match &file.content {
            Err(message) => Err(Error::new(ErrorKind::Io, message.clone())),
            Ok(text) => match route_of_path(file.path.as_str()) {
                Route::Structured => load_structured(text.as_str(), table),
                Route::Textual => load_textual(
                    text.as_str(),
                    options.well_known_prefix.clone(),
                    &table,
                    diagnostics,
                ),
            },
        },
        None => match &descriptor.data {
            Some(InlineData::Text(text)) => load_inline_text(
                text.as_str(),
                options.well_known_prefix.clone(),
                table,
                diagnostics,
            ),
            Some(InlineData::Records(records)) => Ok(
                DocType::RdfJsonTriple((records_to_engine(records), table)),
            ),
            Some(InlineData::Record(record)) => {
                let mut triples: Vec<RdfJsonTriple> = Vec::new();
                triples.push(record_to_engine(record));
                assert(triple_models(triples@) =~= seq![record@]);
                Ok(DocType::RdfJsonTriple((triples, table)))
            },
            Some(InlineData::Malformed(reason)) => Err(
                Error::new(ErrorKind::Translation, reason.clone()),
            ),
            Some(InlineData::Unsupported) => Err(
                Error::of_text(ErrorKind::Translation, "not implemented yet."),
            ),
            None => Err(Error::missing_input(key_path, key_data)),
        },
    }
}

} // verus!
