//! The pattern filter: the statements of a document that match a pattern.

use crate::algebra::{lemma_parsed_is_regular, well_loaded};
use crate::engine::{
    doc_base, doc_facts, doc_from_selection, doc_prefixes, facts_of_refs, first_failure,
    object_failure, object_term, predicate_term, select_statements, subject_term, term_of,
};
use crate::error::{displayed_text, Error, ErrorKind, ErrorModel};
use crate::laws::{law_unbound_pattern, lemma_filter_regular};
use crate::loader::{
    load_model, load_notes, loads, make_doc, Descriptor, DocType, LoadModel, Options,
};
use crate::model::{all_regular, matches_pattern, matching, Fact, Term};
use crate::normalize::{normalize_notes, rdf_json_triple_to_doc, resolved, DocModel};
use crate::prefix::texts_of;
use crate::record::TripleRecord;
use crate::response::{
    make_response, mapper_accepts, responds, writer_accepts, OutputConfig, Response,
};
use tortank::turtle::turtle_doc::TurtleDoc;
use vstd::prelude::*;

verus! {

/// A pattern: each component is a node in the textual syntax, or absent to
/// match any node.
#[derive(Clone, Debug, PartialEq, Eq)]
pub struct Pattern {
    pub subject: Option<String>,
    pub predicate: Option<String>,
    pub object: Option<String>,
}

/// A request for the statements of a document.
#[derive(Debug, PartialEq, Eq)]
pub struct UnaryRequest {
    pub primary: Descriptor,
    pub pattern: Pattern,
    pub options: Options,
    pub output: OutputConfig,
}

impl Pattern {
    /// Whether no component is bound.
    pub open spec fn unbound(self) -> bool {
        self.subject is None && self.predicate is None && self.object is None
    }

    /// What the subject resolves into against a document, where it is bound.
    pub open spec fn subject_in(self, doc: &TurtleDoc<'_>) -> Option<Result<Term, Seq<char>>> {
        match self.subject {
            Some(text) => Some(subject_term(doc, text@)),
            None => None,
        }
    }

    /// What the predicate resolves into against a document, where it is bound.
    pub open spec fn predicate_in(self, doc: &TurtleDoc<'_>) -> Option<Result<Term, Seq<char>>> {
        match self.predicate {
            Some(text) => Some(predicate_term(doc, text@)),
            None => None,
        }
    }

    /// Whether and how the object fails to resolve against a document, where
    /// it is bound.
    pub open spec fn object_in(self, doc: &TurtleDoc<'_>) -> Option<Option<Seq<char>>> {
        match self.object {
            Some(text) => Some(object_failure(doc, text@)),
            None => None,
        }
    }

    /// The message of the first component that does not resolve against a
    /// document, if there is one.
    pub open spec fn failure_in(self, doc: &TurtleDoc<'_>) -> Option<Seq<char>> {
        first_failure(self.subject_in(doc), self.predicate_in(doc), self.object_in(doc))
    }

    /// Whether the object, where it is bound, can resolve into the node
    /// against a document.
    pub open spec fn object_as(self, doc: &TurtleDoc<'_>, node: Option<Term>) -> bool {
        match self.object {
            Some(text) => node matches Some(term) && object_term(doc, text@, term),
            None => node is None,
        }
    }

    /// Whether `selected` is what the pattern selects from a document whose
    /// components all resolve: in order, the statements that match the node
    /// of the subject, the node of the predicate and, where the object is
    /// bound, a node that it resolves into.
    pub open spec fn selects(self, doc: &TurtleDoc<'_>, selected: Seq<Fact>) -> bool {
        exists|o: Option<Term>|
            {
                &&& self.object_as(doc, o)
                &&& selected == #[trigger] matching(
                    doc_facts(doc),
                    term_of(self.subject_in(doc)),
                    term_of(self.predicate_in(doc)),
                    o,
                )
            }
    }
}

/// Selects the statements of a document that match a pattern, as a document
/// of their own, without prefixes.
///
/// The filter fails exactly where a bound component does not resolve against
/// the document, with the engine's message for the first that does not. A
/// pattern without a bound component gives every statement.
pub fn filter_statements<'a>(pattern: &Pattern, doc: &'a TurtleDoc<'_>) -> (res: Result<
    TurtleDoc<'a>,
    Error,
>)
    ensures
        match pattern.failure_in(doc) {
            Some(message) => res matches Err(e) && e@ == (ErrorModel {
                kind: ErrorKind::PatternResolution,
                message,
            }),
            None => {
                &&& res matches Ok(selected)
                &&& pattern.selects(doc, doc_facts(&selected))
                &&& doc_prefixes(&selected) == Map::<Seq<char>, Seq<char>>::empty()
            },
        },
        pattern.unbound() ==> (res matches Ok(selected) && doc_facts(&selected) == doc_facts(doc)),
        res matches Ok(selected) ==> (all_regular(doc_facts(doc)) ==> all_regular(
            doc_facts(&selected),
        )),
{
    let selected = match select_statements(
        doc,
        pattern.subject.clone(),
        pattern.predicate.clone(),
        pattern.object.clone(),
    ) {
        Ok(selected) => selected,
        Err(e) => {
            return Err(Error::from_engine(ErrorKind::PatternResolution, e));
        },
    };
    let ghost facts = facts_of_refs(selected@);
    proof {
        law_unbound_pattern(doc_facts(doc));
        let o = choose|o: Option<Term>|
            {
                &&& pattern.object_as(doc, o)
                &&& facts == #[trigger] matching(
                    doc_facts(doc),
                    term_of(pattern.subject_in(doc)),
                    term_of(pattern.predicate_in(doc)),
                    o,
                )
            };
        if all_regular(doc_facts(doc)) {
            lemma_filter_regular(
                doc_facts(doc),
                |f: Fact|
                    matches_pattern(
                        f,
                        term_of(pattern.subject_in(doc)),
                        term_of(pattern.predicate_in(doc)),
                        o,
                    ),
            );
        }
    }
    match doc_from_selection(selected) {
        Ok(out) => {
            assert(doc_facts(&out) =~= facts);
            Ok(out)
        },
        Err(e) => Err(Error::from_engine(ErrorKind::PatternResolution, e)),
    }
}

/// Whether `res` is what filtering a document by `pattern` and projecting
/// what was selected gives.
pub open spec fn filtered<
    T,
    E,
    M: Fn(&TripleRecord) -> Result<Option<T>, E>,
    W: FnOnce(&TurtleDoc<'_>, &str, usize, bool) -> Result<(), String>,
>(
    doc: &TurtleDoc<'_>,
    pattern: Pattern,
    config: OutputConfig,
    mapper: Option<&M>,
    writer: W,
    res: Result<Response<T, E>, Error>,
) -> bool {
    match pattern.failure_in(doc) {
        Some(message) => res matches Err(e) && e@ == (ErrorModel {
            kind: ErrorKind::PatternResolution,
            message,
        }),
        None => exists|selected: Seq<Fact>|
            #![trigger pattern.selects(doc, selected)]
            pattern.selects(doc, selected) && responds(selected, config, mapper, writer, res),
    }
}

/// Whether `res` is what selecting from a normalized document gives: the
/// pattern is resolved against a document with these statements and this
/// prefix table.
pub open spec fn selects_from<
    T,
    E,
    M: Fn(&TripleRecord) -> Result<Option<T>, E>,
    W: FnOnce(&TurtleDoc<'_>, &str, usize, bool) -> Result<(), String>,
>(
    model: DocModel,
    pattern: Pattern,
    config: OutputConfig,
    mapper: Option<&M>,
    writer: W,
    res: Result<Response<T, E>, Error>,
) -> bool {
    exists|doc: &TurtleDoc<'_>|
        #![trigger doc_facts(doc)]
        {
            &&& doc_facts(doc) == model.facts
            &&& doc_prefixes(doc) == model.prefixes
            &&& doc_base(doc) == model.base
            &&& filtered(doc, pattern, config, mapper, writer, res)
        }
}

/// Whether `res` is what selecting from a loaded operand gives.
///
/// A failure to load is surfaced with its message as the engine displays it; a
/// failure to normalize or to resolve the pattern, as it is.
pub open spec fn selects<
    T,
    E,
    M: Fn(&TripleRecord) -> Result<Option<T>, E>,
    W: FnOnce(&TurtleDoc<'_>, &str, usize, bool) -> Result<(), String>,
>(
    loaded: Result<LoadModel, ErrorModel>,
    pattern: Pattern,
    config: OutputConfig,
    mapper: Option<&M>,
    writer: W,
    res: Result<Response<T, E>, Error>,
) -> bool {
    match loaded {
        Err(error) => res matches Err(e) && e@ == (ErrorModel {
            kind: error.kind,
            message: displayed_text(error.message),
        }),
        Ok(model) => match resolved(model) {
            Err(error) => res matches Err(e) && e@ == error,
            Ok(normalized) => selects_from(normalized, pattern, config, mapper, writer, res),
        },
    }
}

/// Selects from a loaded operand and projects the result.
pub fn select<
    'a,
    T,
    E,
    M: Fn(&TripleRecord) -> Result<Option<T>, E>,
    W: FnOnce(&TurtleDoc<'_>, &str, usize, bool) -> Result<(), String>,
>(
    loaded: Result<DocType<'a>, Error>,
    pattern: &Pattern,
    config: &OutputConfig,
    mapper: Option<&M>,
    writer: W,
    diagnostics: &mut Vec<String>,
) -> (res: Result<Response<T, E>, Error>)
    requires
        well_loaded(loaded),
        mapper_accepts(mapper),
        writer_accepts(writer),
    ensures
        selects(load_model(loaded), *pattern, *config, mapper, writer, res),
        texts_of(final(diagnostics)@) == texts_of(old(diagnostics)@) + normalize_notes(
            load_model(loaded),
        ),
{
    let ghost model = load_model(loaded);
    proof {
        assert(texts_of(diagnostics@) + Seq::<Seq<char>>::empty() =~= texts_of(diagnostics@));
    }
    let loaded = match loaded {
        Ok(loaded) => loaded,
        Err(e) => {
            return Err(e.displayed());
        },
    };
    let (parsed, triples, prefixes) = match loaded {
        DocType::TurtleDoc(doc) => (Some(doc), Vec::new(), Vec::new()),
        DocType::RdfJsonTriple((triples, prefixes)) => (None, triples, prefixes),
    };
    let doc = match parsed {
        Some(doc) => doc,
        None => match rdf_json_triple_to_doc(&triples, &prefixes, diagnostics) {
            Ok(doc) => doc,
            Err(e) => {
                return Err(e);
            },
        },
    };
    let ghost normalized = DocModel {
        facts: doc_facts(&doc),
        prefixes: doc_prefixes(&doc),
        base: doc_base(&doc),
    };
    assert(model matches Ok(m) && resolved(m) == Ok::<DocModel, ErrorModel>(normalized));
    let res = match filter_statements(pattern, &doc) {
        Ok(selected) => {
            let res = make_response(&selected, config, mapper, writer);
            assert(pattern.selects(&doc, doc_facts(&selected)));
            res
        },
        Err(e) => Err(e),
    };
    assert(filtered(&doc, *pattern, *config, mapper, writer, res));
    assert(selects_from(normalized, *pattern, *config, mapper, writer, res));
    res
}

/// Whether `res` and the warnings left are what asking for the statements of
/// `request` gives.
pub open spec fn lists<
    T,
    E,
    M: Fn(&TripleRecord) -> Result<Option<T>, E>,
    W: FnOnce(&TurtleDoc<'_>, &str, usize, bool) -> Result<(), String>,
>(
    request: UnaryRequest,
    mapper: Option<&M>,
    writer: W,
    res: Result<Response<T, E>, Error>,
    before: Seq<Seq<char>>,
    after: Seq<Seq<char>>,
) -> bool {
    exists|loaded: Result<LoadModel, ErrorModel>|
        {
            &&& loads(request.primary, request.options, "primaryPath"@, "primaryData"@, loaded)
            &&& #[trigger] selects(loaded, request.pattern, request.output, mapper, writer, res)
            &&& after == before + load_notes(request.options, loaded)
                + normalize_notes(loaded)
        }
}

/// The statements of a document that match the request's pattern.
pub fn statements<
    T,
    E,
    M: Fn(&TripleRecord) -> Result<Option<T>, E>,
    W: FnOnce(&TurtleDoc<'_>, &str, usize, bool) -> Result<(), String>,
>(request: &UnaryRequest, mapper: Option<&M>, writer: W, diagnostics: &mut Vec<String>) -> (res:
    Result<Response<T, E>, Error>)
    requires
        mapper_accepts(mapper),
        writer_accepts(writer),
    ensures
        lists(
            *request,
            mapper,
            writer,
            res,
            texts_of(old(diagnostics)@),
            texts_of(final(diagnostics)@),
        ),
{
    let loaded = make_doc(
        &request.primary,
        &request.options,
        "primaryPath",
        "primaryData",
        diagnostics,
    );
    let ghost model = load_model(loaded);
    proof {
        lemma_parsed_is_regular(loaded);
    }
    let res = select(loaded, &request.pattern, &request.output, mapper, writer, diagnostics);
    assert(selects(model, request.pattern, request.output, mapper, writer, res));
    res
}

/// The statements of a document that match the request's pattern: the same
/// operation as [`statements`], under its other name.
pub fn filter<
    T,
    E,
    M: Fn(&TripleRecord) -> Result<Option<T>, E>,
    W: FnOnce(&TurtleDoc<'_>, &str, usize, bool) -> Result<(), String>,
>(request: &UnaryRequest, mapper: Option<&M>, writer: W, diagnostics: &mut Vec<String>) -> (res:
    Result<Response<T, E>, Error>)
    requires
        mapper_accepts(mapper),
        writer_accepts(writer),
    ensures
        lists(
            *request,
            mapper,
            writer,
            res,
            texts_of(old(diagnostics)@),
            texts_of(final(diagnostics)@),
        ),
{
    statements(request, mapper, writer, diagnostics)
}

} // verus!
