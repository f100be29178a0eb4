//! The graph engine, as this library relies on it.
//!
//! Parsing, statement equality, the set operations and serialization are the
//! work of the `tortank` crate. Everything in this module is believed, not
//! proved: each item says in its comment what it claims of the engine.

use crate::model::{
    all_printable, canonical, matching, merged, structured, textual, within, without, Fact, Term,
};
use crate::record::{EntryModel, NodeRecord, TripleModel};
use tortank::turtle::turtle_doc::{
    RdfJsonNode, RdfJsonNodeResult, RdfJsonTriple, Statement, TurtleDoc, TurtleDocError,
};
use vstd::prelude::*;

verus! {

/// `tortank`'s document: statements in order, with a prefix table.
#[verifier::external_type_specification]
#[verifier::external_body]
pub struct ExTurtleDoc<'a>(TurtleDoc<'a>);

/// `tortank`'s statement.
#[verifier::external_type_specification]
#[verifier::external_body]
pub struct ExStatement<'a>(Statement<'a>);

/// `tortank`'s error: a message.
#[verifier::external_type_specification]
#[verifier::external_body]
pub struct ExTurtleDocError(TurtleDocError);

/// `tortank`'s exchange form of a statement.
#[verifier::external_type_specification]
#[verifier::external_body]
pub struct ExRdfJsonTriple(RdfJsonTriple);

/// `tortank`'s exchange form of a node entry.
#[verifier::external_type_specification]
#[verifier::external_body]
pub struct ExRdfJsonNodeResult(RdfJsonNodeResult);

/// The statements that a document holds, in the engine's order.
pub uninterp spec fn doc_facts(doc: &TurtleDoc<'_>) -> Seq<Fact>;

/// The prefix table that a document carries: namespace by short name.
pub uninterp spec fn doc_prefixes(doc: &TurtleDoc<'_>) -> Map<Seq<char>, Seq<char>>;

/// What stands for a statement of the engine.
pub uninterp spec fn statement_fact(statement: &Statement<'_>) -> Fact;

/// The message that an engine error carries.
pub uninterp spec fn error_text(error: &TurtleDocError) -> Seq<char>;

/// The entry that an engine node entry holds.
pub uninterp spec fn entry_model(entry: &RdfJsonNodeResult) -> EntryModel;

/// The record that an engine triple holds.
pub uninterp spec fn triple_model(triple: &RdfJsonTriple) -> TripleModel;

/// What the engine reads from a text in the structured exchange syntax: the
/// records, or the message of its failure.
pub uninterp spec fn parsed_json(text: Seq<char>) -> Result<Seq<TripleModel>, Seq<char>>;

/// What the engine translates one record into: a statement, or the message
/// with which it refuses the record.
pub uninterp spec fn record_statement(record: TripleModel) -> Result<Fact, Seq<char>>;

/// What the engine translates a sequence of records into: one statement per
/// record, or the message of the first record that it refuses.
pub open spec fn statements_of(records: Seq<TripleModel>) -> Result<Seq<Fact>, Seq<char>>
    decreases records.len(),
{
    if records.len() == 0 {
        Ok(Seq::empty())
    } else {
        match statements_of(records.drop_last()) {
            Err(message) => Err(message),
            Ok(facts) => match record_statement(records.last()) {
                Ok(fact) => Ok(facts.push(fact)),
                Err(message) => Err(message),
            },
        }
    }
}

/// The extension that the standard library finds in a path: it reads the text
/// of the path and nothing else.
pub uninterp spec fn extension_of(path: Seq<char>) -> Option<Seq<char>>;

/// The message with which the engine refuses a text in the textual syntax, if
/// it refuses it. Chance and the time zone enter a parsed node, never the
/// refusal.
pub uninterp spec fn turtle_failure(
    text: Seq<char>,
    well_known_prefix: Option<Seq<char>>,
) -> Option<Seq<char>>;

/// The message with which the engine refuses a namespace, if it refuses it:
/// the engine takes a namespace only where it reads it as an IRI.
pub uninterp spec fn namespace_refusal(namespace: Seq<char>) -> Option<Seq<char>>;

/// Whether the engine can parse a text, with a well-known prefix, into a
/// document with these statements, this prefix table and this base. Which of
/// the documents that it can parse a text into comes out is left to the engine:
/// it names blank nodes at random and reads dates in the machine's time zone.
pub uninterp spec fn parsed_as(
    text: Seq<char>,
    well_known_prefix: Option<Seq<char>>,
    facts: Seq<Fact>,
    prefixes: Map<Seq<char>, Seq<char>>,
    base: Seq<char>,
) -> bool;

/// Whether a text can resolve into a node as the object of a pattern, against
/// the prefix table and the base of a document. A date without a zone is read
/// in the machine's time zone, so a text may resolve into more than one node.
pub uninterp spec fn object_term(doc: &TurtleDoc<'_>, text: Seq<char>, term: Term) -> bool;

/// Whether the engine finds a namespace to be a relative IRI.
pub uninterp spec fn namespace_is_relative(namespace: Seq<char>) -> bool;

/// The base IRI of a document; empty where it has none.
pub uninterp spec fn doc_base(doc: &TurtleDoc<'_>) -> Seq<char>;

/// The node that a text resolves into as the subject of a pattern, against the
/// prefix table and the base of a document, or the message of the failure.
pub uninterp spec fn subject_term(doc: &TurtleDoc<'_>, text: Seq<char>) -> Result<Term, Seq<char>>;

/// The node that a text resolves into as the predicate of a pattern, against
/// the prefix table and the base of a document, or the message of the failure.
pub uninterp spec fn predicate_term(doc: &TurtleDoc<'_>, text: Seq<char>) -> Result<
    Term,
    Seq<char>,
>;

/// The message with which a text fails to resolve as the object of a pattern,
/// if it fails. The node itself is not named: a date without a zone is read in
/// the machine's time zone.
pub uninterp spec fn object_failure(doc: &TurtleDoc<'_>, text: Seq<char>) -> Option<Seq<char>>;

/// The namespace as the engine enters it into a document with the given base:
/// a relative namespace stands behind the base.
pub open spec fn entered_namespace(base: Seq<char>, namespace: Seq<char>) -> Seq<char> {
    if namespace_is_relative(namespace) {
        base + namespace
    } else {
        namespace
    }
}

/// The first failure among the components of a pattern, in the order subject,
/// predicate, object; an absent component does not fail.
pub open spec fn first_failure(
    subject: Option<Result<Term, Seq<char>>>,
    predicate: Option<Result<Term, Seq<char>>>,
    object: Option<Option<Seq<char>>>,
) -> Option<Seq<char>> {
    match (subject, predicate, object) {
        (Some(Err(message)), _, _) => Some(message),
        (_, Some(Err(message)), _) => Some(message),
        (_, _, Some(Some(message))) => Some(message),
        _ => None,
    }
}

/// The node of a component that resolved; none for an absent component.
pub open spec fn term_of(component: Option<Result<Term, Seq<char>>>) -> Option<Term> {
    match component {
        Some(Ok(term)) => Some(term),
        _ => None,
    }
}

/// The facts of a sequence of statements, in order.
pub open spec fn facts_of(statements: Seq<Statement<'_>>) -> Seq<Fact> {
    Seq::new(statements.len(), |i: int| statement_fact(&statements[i]))
}

/// The facts of a sequence of borrowed statements, in order.
pub open spec fn facts_of_refs(statements: Seq<&Statement<'_>>) -> Seq<Fact> {
    Seq::new(statements.len(), |i: int| statement_fact(statements[i]))
}

/// The records of a sequence of engine triples, in order.
pub open spec fn triple_models(triples: Seq<RdfJsonTriple>) -> Seq<TripleModel> {
    Seq::new(triples.len(), |i: int| triple_model(&triples[i]))
}

/// The entries of a sequence of engine node entries, in order.
pub open spec fn entry_models(entries: Seq<RdfJsonNodeResult>) -> Seq<EntryModel> {
    Seq::new(entries.len(), |i: int| entry_model(&entries[i]))
}

/// What [`node_parts`] finds in an engine node entry.
pub enum EngineParts<'a> {
    Single(NodeRecord),
    List(&'a Vec<RdfJsonNodeResult>),
}

/// Calls `TurtleDoc::try_from` on a text and a well-known prefix.
///
/// The parser names blank nodes at random and reads dates in the machine's time
/// zone, so nothing is claimed of which statements come out. Claimed: whether
/// and with which message the parser fails depends on the text alone, since a
/// date that it cannot read stays a plain literal; no two statements of a
/// parsed document are equal, since the parser adds a statement only where the
/// document holds none equal to it; and no statement holds a list node, since
/// the parser writes one statement per object of an object list, and a
/// collection as a chain of statements.
#[verifier::external_body]
pub(crate) fn parse_turtle<'a>(text: &'a str, well_known_prefix: Option<String>) -> (res: Result<
    TurtleDoc<'a>,
    TurtleDocError,
>)
    ensures
        match turtle_failure(text@, crate::record::text_of(well_known_prefix)) {
            Some(message) => res matches Err(e) && error_text(&e) == message,
            None => {
                &&& res matches Ok(doc)
                &&& parsed_as(
                    text@,
                    crate::record::text_of(well_known_prefix),
                    doc_facts(&doc),
                    doc_prefixes(&doc),
                    doc_base(&doc),
                )
                &&& all_printable(doc_facts(&doc))
                &&& canonical(doc_facts(&doc))
            },
        },
{
    TurtleDoc::try_from((text, well_known_prefix))
}

/// Calls `TurtleDoc::default`: a document without statements, without
/// prefixes and without a base.
#[verifier::external_body]
pub(crate) fn empty_doc() -> (doc: TurtleDoc<'static>)
    ensures
        doc_facts(&doc) == Seq::<Fact>::empty(),
        (doc_prefixes(&doc) == Map::<Seq<char>, Seq<char>>::empty()),
        doc_base(&doc) == Seq::<char>::empty(),
{
    TurtleDoc::default()
}

/// Calls `RdfJsonTriple::from_json`, which reads a sequence of records from a
/// text. Claimed: the result depends on the text alone.
#[verifier::external_body]
pub(crate) fn parse_json(text: &str) -> (res: Result<Vec<RdfJsonTriple>, TurtleDocError>)
    ensures
        match parsed_json(text@) {
            Ok(records) => res matches Ok(triples) && triple_models(triples@) == records,
            Err(message) => res matches Err(e) && error_text(&e) == message,
        },
{
    RdfJsonTriple::from_json(text)
}

/// Calls `Statement::from_rdf_json_triples`, which translates records into
/// statements one by one and stops at the first that it refuses.
///
/// Claimed: what a record is translated into depends on the record alone. A
/// statement holds a list node exactly where its record holds a list. A plain
/// record, whose nodes are of type `uri` or `bnode`, or of type `literal`
/// without a datatype, is never refused and gives a statement that equals
/// itself; a record with a node of any other type than these three always is
/// refused.
#[verifier::external_body]
pub(crate) fn statements_from_triples<'a>(triples: &'a Vec<RdfJsonTriple>) -> (res: Result<
    Vec<Statement<'a>>,
    TurtleDocError,
>)
    ensures
        match res {
            Ok(statements) => {
                &&& statements.len() == triples.len()
                &&& forall|i: int|
                    0 <= i < triples.len() ==> {
                        let record = #[trigger] triple_model(&triples[i]);
                        let fact = statement_fact(&statements[i]);
                        &&& record_statement(record) == Ok::<Fact, Seq<char>>(fact)
                        &&& fact.printable == record.is_flat()
                        &&& fact.record.is_flat() == record.is_flat()
                        &&& record.is_plain() ==> fact.comparable()
                        &&& !record.has_unknown_type()
                    }
            },
            Err(e) => exists|k: int|
                0 <= k < triples.len() && {
                    let refused = #[trigger] triple_model(&triples[k]);
                    &&& record_statement(refused) == Err::<Fact, Seq<char>>(error_text(&e))
                    &&& !refused.is_plain()
                    &&& forall|i: int|
                        0 <= i < k ==> record_statement(#[trigger] triple_model(&triples[i])) is Ok
                },
        },
{
    Statement::from_rdf_json_triples(triples)
}

/// Calls `TurtleDoc::try_from` on owned statements, which makes an empty
/// document and appends the statements. Claimed: it always succeeds, since an
/// empty document holds nothing that could be refused; the document holds
/// these statements in order, repeats included, with an empty prefix table and
/// no base.
#[verifier::external_body]
pub(crate) fn doc_from_statements<'a>(statements: Vec<Statement<'a>>) -> (res: Result<
    TurtleDoc<'a>,
    TurtleDocError,
>)
    ensures
        match res {
            Ok(doc) => {
                &&& doc_facts(&doc).len() == statements.len()
                &&& forall|i: int|
                    0 <= i < statements.len() ==> #[trigger] doc_facts(&doc)[i] == statement_fact(
                        &statements[i],
                    )
                &&& doc_prefixes(&doc) == Map::<Seq<char>, Seq<char>>::empty()
                &&& doc_base(&doc) == Seq::<char>::empty()
            },
            Err(_) => false,
        },
{
    TurtleDoc::try_from(statements)
}

/// Calls `TurtleDoc::try_from` on borrowed statements, which makes an empty
/// document and appends a copy of each statement. Claimed: it always succeeds,
/// and the document holds the copies in order, with an empty prefix table and
/// no base.
#[verifier::external_body]
pub(crate) fn doc_from_selection<'a>(statements: Vec<&'a Statement<'a>>) -> (res: Result<
    TurtleDoc<'a>,
    TurtleDocError,
>)
    ensures
        match res {
            Ok(doc) => {
                &&& doc_facts(&doc).len() == statements.len()
                &&& forall|i: int|
                    0 <= i < statements.len() ==> #[trigger] doc_facts(&doc)[i] == statement_fact(
                        statements[i],
                    )
                &&& doc_prefixes(&doc) == Map::<Seq<char>, Seq<char>>::empty()
                &&& doc_base(&doc) == Seq::<char>::empty()
            },
            Err(_) => false,
        },
{
    TurtleDoc::try_from(statements)
}

/// Calls `TurtleDoc::add_prefixes` with a table of one pair.
///
/// Claimed: the statements and the base stay as they are. The engine refuses
/// the pair for its namespace alone; then the document's table is unchanged.
/// Otherwise the name is bound to the namespace, a relative namespace behind
/// the document's base, over what the name was bound to before, and every
/// other name keeps its namespace.
#[verifier::external_body]
pub(crate) fn extend_prefix(doc: &mut TurtleDoc<'_>, name: &str, namespace: &str) -> (res: Result<
    (),
    TurtleDocError,
>)
    ensures
        doc_facts(final(doc)) == doc_facts(old(doc)),
        doc_base(final(doc)) == doc_base(old(doc)),
        match namespace_refusal(namespace@) {
            Some(message) => {
                &&& res matches Err(e) && error_text(&e) == message
                &&& doc_prefixes(final(doc)) == doc_prefixes(old(doc))
            },
            None => {
                &&& res is Ok
                &&& doc_prefixes(final(doc)) == doc_prefixes(old(doc)).insert(
                    name@,
                    if namespace_is_relative(namespace@) {
                        doc_base(old(doc)) + namespace@
                    } else {
                        namespace@
                    },
                )
            },
        },
{
    doc.add_prefixes(std::collections::BTreeMap::from([(name.to_string(), namespace.to_string())]))
}

/// Calls `TurtleDoc`'s `+`. Claimed: the result holds the statements of `lhs`,
/// then those of `rhs`, each kept unless it equals one kept before; the base
/// is that of `lhs`. Its table binds the names that either table binds, each
/// to the namespace that one of the two binds it to: which of the two, where
/// both bind a name, is not claimed.
#[verifier::external_body]
pub(crate) fn join_docs<'a>(lhs: TurtleDoc<'a>, rhs: TurtleDoc<'a>) -> (res: TurtleDoc<'a>)
    ensures
        doc_facts(&res) == merged(doc_facts(&lhs), doc_facts(&rhs)),
        doc_base(&res) == doc_base(&lhs),
        doc_prefixes(&res).dom() == doc_prefixes(&lhs).dom().union(doc_prefixes(&rhs).dom()),
        forall|name: Seq<char>| #[trigger]
            doc_prefixes(&res).dom().contains(name) ==> {
                ||| doc_prefixes(&lhs).contains_pair(name, doc_prefixes(&res)[name])
                ||| doc_prefixes(&rhs).contains_pair(name, doc_prefixes(&res)[name])
            },
{
    lhs + rhs
}

/// Calls `TurtleDoc::difference`, which filters the statements of `lhs` and
/// makes a document of what is left. Claimed: it always succeeds, and the
/// result holds, in order, the statements of `lhs` that equal none of `rhs`.
#[verifier::external_body]
pub(crate) fn doc_difference<'a>(lhs: &'a TurtleDoc<'_>, rhs: &TurtleDoc<'_>) -> (res: Result<
    TurtleDoc<'a>,
    TurtleDocError,
>)
    ensures
        match res {
            Ok(doc) => doc_facts(&doc) == without(doc_facts(lhs), doc_facts(rhs)),
            Err(_) => false,
        },
{
    lhs.difference(rhs)
}

/// Calls `TurtleDoc::intersection`, which filters the statements of `lhs` and
/// makes a document of what is left. Claimed: it always succeeds, and the
/// result holds, in order, the statements of `lhs` that equal some statement
/// of `rhs`.
#[verifier::external_body]
pub(crate) fn doc_intersection<'a>(lhs: &'a TurtleDoc<'_>, rhs: &TurtleDoc<'_>) -> (res: Result<
    TurtleDoc<'a>,
    TurtleDocError,
>)
    ensures
        match res {
            Ok(doc) => doc_facts(&doc) == within(doc_facts(lhs), doc_facts(rhs)),
            Err(_) => false,
        },
{
    lhs.intersection(rhs)
}

/// Calls `TurtleDoc::parse_and_list_statements`, which resolves each bound
/// component of the pattern into a node, subject first, and keeps the
/// statements that match.
///
/// Claimed: a subject and a predicate resolve from the document and the text
/// alone, and so does the failure of an object. The call fails with the
/// message of the first component that does not resolve, and only then. On
/// success the result is, in order, the statements that match the nodes of the
/// subject and the predicate and a node that the object resolves into.
#[verifier::external_body]
pub(crate) fn select_statements<'a>(
    doc: &'a TurtleDoc<'_>,
    subject: Option<String>,
    predicate: Option<String>,
    object: Option<String>,
) -> (res: Result<Vec<&'a Statement<'a>>, TurtleDocError>)
    ensures
        ({
            let s = match subject {
                Some(text) => Some(subject_term(doc, text@)),
                None => None,
            };
            let p = match predicate {
                Some(text) => Some(predicate_term(doc, text@)),
                None => None,
            };
            let failed = match object {
                Some(text) => Some(object_failure(doc, text@)),
                None => None,
            };
            match first_failure(s, p, failed) {
                Some(message) => res matches Err(e) && error_text(&e) == message,
                None => res matches Ok(statements) && exists|o: Option<Term>|
                    {
                        &&& match object {
                            Some(text) => o matches Some(term) && object_term(doc, text@, term),
                            None => o is None,
                        }
                        &&& facts_of_refs(statements@) == #[trigger] matching(
                            doc_facts(doc),
                            term_of(s),
                            term_of(p),
                            o,
                        )
                    },
            }
        }),
{
    doc.parse_and_list_statements(subject, predicate, object)
}

/// Calls `to_string` on a document. Claimed: the text is the statements' lines
/// joined by line feeds. The engine panics on a list node, so every statement
/// must be printable.
#[verifier::external_body]
pub(crate) fn doc_to_text(doc: &TurtleDoc<'_>) -> (text: String)
    requires
        all_printable(doc_facts(doc)),
    ensures
        text@ == textual(doc_facts(doc)),
{
    doc.to_string()
}

/// Calls `Vec::<RdfJsonTriple>::from` on a document. Claimed: there is one
/// record per statement, in order, a record left out where it occurred before.
#[verifier::external_body]
pub(crate) fn doc_to_triples(doc: &TurtleDoc<'_>) -> (triples: Vec<RdfJsonTriple>)
    ensures
        triple_models(triples@) == structured(doc_facts(doc)),
{
    Vec::<RdfJsonTriple>::from(doc)
}

/// Calls `TurtleDoc::len`: the number of statements.
#[verifier::external_body]
pub(crate) fn doc_len(doc: &TurtleDoc<'_>) -> (n: usize)
    ensures
        n == doc_facts(doc).len(),
{
    doc.len()
}

/// Takes the message out of an engine error.
#[verifier::external_body]
pub(crate) fn error_message(error: TurtleDocError) -> (message: String)
    ensures
        message@ == error_text(&error),
{
    error.message
}

/// Builds the engine's node entry for one node record, field by field.
#[verifier::external_body]
pub(crate) fn engine_single(node: &NodeRecord) -> (entry: RdfJsonNodeResult)
    ensures
        entry_model(&entry) == EntryModel::Single(node@),
{
    RdfJsonNodeResult::SingleNode(
        RdfJsonNode {
            typ: node.typ.clone(),
            datatype: node.datatype.clone(),
            lang: node.lang.clone(),
            value: node.value.clone(),
        },
    )
}

/// Builds the engine's node entry for a list of entries.
#[verifier::external_body]
pub(crate) fn engine_list(items: Vec<RdfJsonNodeResult>) -> (entry: RdfJsonNodeResult)
    ensures
        entry_model(&entry) == EntryModel::List(entry_models(items@)),
{
    RdfJsonNodeResult::ListNodes(items)
}

/// Builds the engine's triple from its three entries.
#[verifier::external_body]
pub(crate) fn engine_triple(
    subject: RdfJsonNodeResult,
    predicate: RdfJsonNodeResult,
    object: RdfJsonNodeResult,
) -> (triple: RdfJsonTriple)
    ensures
        triple_model(&triple) == (TripleModel {
            subject: entry_model(&subject),
            predicate: entry_model(&predicate),
            object: entry_model(&object),
        }),
{
    RdfJsonTriple { subject, predicate, object }
}

/// Hands out the three entries of an engine triple.
#[verifier::external_body]
pub(crate) fn triple_parts<'a>(triple: &'a RdfJsonTriple) -> (parts: (
    &'a RdfJsonNodeResult,
    &'a RdfJsonNodeResult,
    &'a RdfJsonNodeResult,
))
    ensures
        triple_model(triple) == (TripleModel {
            subject: entry_model(parts.0),
            predicate: entry_model(parts.1),
            object: entry_model(parts.2),
        }),
{
    (&triple.subject, &triple.predicate, &triple.object)
}

/// Hands out what an engine node entry holds: a copy of the node's fields, or
/// the list's items.
#[verifier::external_body]
pub(crate) fn node_parts<'a>(entry: &'a RdfJsonNodeResult) -> (parts: EngineParts<'a>)
    ensures
        match parts {
            EngineParts::Single(node) => entry_model(entry) == EntryModel::Single(node@),
            EngineParts::List(items) => entry_model(entry) == EntryModel::List(
                entry_models(items@),
            ),
        },
{
    match entry {
        RdfJsonNodeResult::SingleNode(node) => EngineParts::Single(
            NodeRecord {
                value: node.value.clone(),
                typ: node.typ.clone(),
                lang: node.lang.clone(),
                datatype: node.datatype.clone(),
            },
        ),
        RdfJsonNodeResult::ListNodes(items) => EngineParts::List(items),
    }
}

/// Calls `Path::extension` of the standard library on a path given as text:
/// what follows the last dot of the file name, if anything does.
#[verifier::external_body]
pub(crate) fn path_extension(path: &str) -> (extension: Option<String>)
    ensures
        crate::record::text_of(extension) == extension_of(path@),
{
    std::path::Path::new(path).extension().and_then(|e| e.to_str()).map(|e| e.to_string())
}

} // verus!
