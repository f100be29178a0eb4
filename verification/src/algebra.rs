//! The set algebra dispatcher: merge, difference and intersection of two
//! operands, each loaded and normalized on its own.

use crate::engine::{doc_difference, doc_facts, doc_intersection, join_docs};
use crate::error::{combined_model, Error, ErrorModel};
use crate::laws::{lemma_filter_regular, lemma_merged_regular};
use crate::loader::{
    load_model, load_notes, loads, make_doc, Descriptor, DocType, LoadModel, Options,
};
use crate::model::{all_regular, holds, merged, within, without, Fact};
use crate::normalize::{normalize_notes, rdf_json_triple_to_doc, resolve};
use crate::prefix::texts_of;
use crate::record::TripleRecord;
use crate::response::{
    make_response, mapper_accepts, responds, writer_accepts, OutputConfig, Response,
};
use tortank::turtle::turtle_doc::{RdfJsonTriple, TurtleDoc};
use vstd::prelude::*;

verus! {

/// A request for a binary operation.
#[derive(Debug, PartialEq, Eq)]
pub struct BinaryRequest {
    pub lhs: Descriptor,
    pub rhs: Descriptor,
    pub options: Options,
    pub output: OutputConfig,
}

/// A binary operation on documents.
#[derive(Clone, Copy, Debug, PartialEq, Eq)]
pub enum Operation {
    Merge,
    Difference,
    Intersection,
}

/// The statements that an operation makes of two documents.
pub open spec fn applied(operation: Operation, a: Seq<Fact>, b: Seq<Fact>) -> Seq<Fact> {
    match operation {
        Operation::Merge => merged(a, b),
        Operation::Difference => without(a, b),
        Operation::Intersection => within(a, b),
    }
}

/// One failure out of two outcomes: the failure of the side that failed, both
/// messages where both sides failed, none where none did.
pub open spec fn joint_failure<A, B>(
    lhs: Result<A, ErrorModel>,
    rhs: Result<B, ErrorModel>,
) -> Option<ErrorModel> {
    match (lhs, rhs) {
        (Err(first), Err(second)) => Some(combined_model(first, second)),
        (Err(error), Ok(_)) => Some(error),
        (Ok(_), Err(error)) => Some(error),
        (Ok(_), Ok(_)) => None,
    }
}

/// The statements of both operands, or the failure of the operation.
///
/// Each operand is resolved on its own, through loading and normalizing, and
/// the failures of both are joined: an operand that did load is normalized
/// even where the other did not load.
pub open spec fn operands(
    lhs: Result<LoadModel, ErrorModel>,
    rhs: Result<LoadModel, ErrorModel>,
) -> Result<(Seq<Fact>, Seq<Fact>), ErrorModel> {
    match joint_failure(resolve(lhs), resolve(rhs)) {
        Some(error) => Err(error),
        None => Ok((resolve(lhs)->Ok_0.facts, resolve(rhs)->Ok_0.facts)),
    }
}

/// Whether `res` is what an operation on two loaded operands can give.
pub open spec fn combines<
    T,
    E,
    M: Fn(&TripleRecord) -> Result<Option<T>, E>,
    W: FnOnce(&TurtleDoc<'_>, &str, usize, bool) -> Result<(), String>,
>(
    operation: Operation,
    lhs: Result<LoadModel, ErrorModel>,
    rhs: Result<LoadModel, ErrorModel>,
    config: OutputConfig,
    mapper: Option<&M>,
    writer: W,
    res: Result<Response<T, E>, Error>,
) -> bool {
    match operands(lhs, rhs) {
        Err(error) => res matches Err(e) && e@ == error,
        Ok((a, b)) => responds(applied(operation, a, b), config, mapper, writer, res),
    }
}

/// Whether the statements of a loaded operand are regular.
pub open spec fn well_loaded(loaded: Result<DocType<'_>, Error>) -> bool {
    loaded matches Ok(DocType::TurtleDoc(doc)) ==> all_regular(doc_facts(&doc))
}

/// Applies an operation to two documents and projects the result.
pub fn apply<
    'a,
    T,
    E,
    M: Fn(&TripleRecord) -> Result<Option<T>, E>,
    W: FnOnce(&TurtleDoc<'_>, &str, usize, bool) -> Result<(), String>,
>(
    operation: Operation,
    lhs: TurtleDoc<'a>,
    rhs: TurtleDoc<'a>,
    config: &OutputConfig,
    mapper: Option<&M>,
    writer: W,
) -> (res: Result<Response<T, E>, Error>)
    requires
        all_regular(doc_facts(&lhs)),
        all_regular(doc_facts(&rhs)),
        mapper_accepts(mapper),
        writer_accepts(writer),
    ensures
        responds(applied(operation, doc_facts(&lhs), doc_facts(&rhs)), *config, mapper, writer, res),
{
    let ghost a = doc_facts(&lhs);
    let ghost b = doc_facts(&rhs);
    match operation {
        Operation::Merge => {
            proof {
                lemma_merged_regular(a, b);
            }
            let doc = join_docs(lhs, rhs);
            make_response(&doc, config, mapper, writer)
        },
        Operation::Difference => {
            proof {
                lemma_filter_regular(a, |f: Fact| !holds(b, f));
            }
            match doc_difference(&lhs, &rhs) {
                Ok(doc) => make_response(&doc, config, mapper, writer),
                Err(e) => Err(Error::from_engine(crate::error::ErrorKind::Parse, e).displayed()),
            }
        },
        Operation::Intersection => {
            proof {
                lemma_filter_regular(a, |f: Fact| holds(b, f));
            }
            match doc_intersection(&lhs, &rhs) {
                Ok(doc) => make_response(&doc, config, mapper, writer),
                Err(e) => Err(Error::from_engine(crate::error::ErrorKind::Parse, e).displayed()),
            }
        },
    }
}

/// Runs an operation on two loaded operands.
///
/// Each operand that loaded is normalized. Where one operand failed, at
/// either stage, its error is surfaced; where both did, both messages are.
/// Otherwise the operation is applied.
pub fn combine<
    'a,
    T,
    E,
    M: Fn(&TripleRecord) -> Result<Option<T>, E>,
    W: FnOnce(&TurtleDoc<'_>, &str, usize, bool) -> Result<(), String>,
>(
    operation: Operation,
    lhs: Result<DocType<'a>, Error>,
    rhs: Result<DocType<'a>, Error>,
    config: &OutputConfig,
    mapper: Option<&M>,
    writer: W,
    diagnostics: &mut Vec<String>,
) -> (res: Result<Response<T, E>, Error>)
    requires
        well_loaded(lhs),
        well_loaded(rhs),
        mapper_accepts(mapper),
        writer_accepts(writer),
    ensures
        combines(operation, load_model(lhs), load_model(rhs), *config, mapper, writer, res),
        texts_of(final(diagnostics)@) == texts_of(old(diagnostics)@) + normalize_notes(
            load_model(lhs),
        ) + normalize_notes(load_model(rhs)),
{
    let ghost before = texts_of(diagnostics@);
    let (left_doc, left_triples, left_prefixes) = match lhs {
        Ok(DocType::TurtleDoc(doc)) => (Ok(Some(doc)), Vec::new(), Vec::new()),
        Ok(DocType::RdfJsonTriple((triples, prefixes))) => (Ok(None), triples, prefixes),
        Err(e) => (Err(e), Vec::new(), Vec::new()),
    };
    let (right_doc, right_triples, right_prefixes) = match rhs {
        Ok(DocType::TurtleDoc(doc)) => (Ok(Some(doc)), Vec::new(), Vec::new()),
        Ok(DocType::RdfJsonTriple((triples, prefixes))) => (Ok(None), triples, prefixes),
        Err(e) => (Err(e), Vec::new(), Vec::new()),
    };
    let left = match left_doc {
        Ok(Some(doc)) => Ok(doc),
        Ok(None) => rdf_json_triple_to_doc(&left_triples, &left_prefixes, diagnostics),
        Err(e) => Err(e),
    };
    let ghost between = texts_of(diagnostics@);
    let right = match right_doc {
        Ok(Some(doc)) => Ok(doc),
        Ok(None) => rdf_json_triple_to_doc(&right_triples, &right_prefixes, diagnostics),
        Err(e) => Err(e),
    };
    proof {
        let empty = Seq::<Seq<char>>::empty();
        assert(before + empty =~= before);
        assert(between + empty =~= between);
        assert(between == before + normalize_notes(load_model(lhs)));
        assert(texts_of(diagnostics@) == between + normalize_notes(load_model(rhs)));
    }
    match (left, right) {
        (Ok(a), Ok(b)) => apply(operation, a, b, config, mapper, writer),
        (Ok(_), Err(e)) => Err(e),
        (Err(e), Ok(_)) => Err(e),
        (Err(first), Err(second)) => Err(Error::combined(&first, &second)),
    }
}

/// Whether `res` and the warnings left are what an operation on the operands
/// of `request` gives: each operand loads as `loads` allows, the operation is
/// run on what was loaded, and the warnings are those of loading the left
/// operand, of loading the right, and of normalizing each.
pub open spec fn answers<
    T,
    E,
    M: Fn(&TripleRecord) -> Result<Option<T>, E>,
    W: FnOnce(&TurtleDoc<'_>, &str, usize, bool) -> Result<(), String>,
>(
    operation: Operation,
    request: BinaryRequest,
    mapper: Option<&M>,
    writer: W,
    res: Result<Response<T, E>, Error>,
    before: Seq<Seq<char>>,
    after: Seq<Seq<char>>,
) -> bool {
    exists|lhs: Result<LoadModel, ErrorModel>, rhs: Result<LoadModel, ErrorModel>|
        {
            &&& loads(request.lhs, request.options, "lhsPath"@, "lhsData"@, lhs)
            &&& loads(request.rhs, request.options, "rhsPath"@, "rhsData"@, rhs)
            &&& #[trigger] combines(operation, lhs, rhs, request.output, mapper, writer, res)
            &&& after == before + load_notes(request.options, lhs) + load_notes(
                request.options,
                rhs,
            ) + normalize_notes(lhs) + normalize_notes(rhs)
        }
}

/// Loads both operands of a request and runs an operation on them.
fn operate<
    T,
    E,
    M: Fn(&TripleRecord) -> Result<Option<T>, E>,
    W: FnOnce(&TurtleDoc<'_>, &str, usize, bool) -> Result<(), String>,
>(
    operation: Operation,
    request: &BinaryRequest,
    mapper: Option<&M>,
    writer: W,
    diagnostics: &mut Vec<String>,
) -> (res: Result<Response<T, E>, Error>)
    requires
        mapper_accepts(mapper),
        writer_accepts(writer),
    ensures
        answers(
            operation,
            *request,
            mapper,
            writer,
            res,
            texts_of(old(diagnostics)@),
            texts_of(final(diagnostics)@),
        ),
{
    let ghost start = texts_of(diagnostics@);
    let lhs = make_doc(&request.lhs, &request.options, "lhsPath", "lhsData", diagnostics);
    let rhs = make_doc(&request.rhs, &request.options, "rhsPath", "rhsData", diagnostics);
    let ghost l = load_model(lhs);
    let ghost r = load_model(rhs);
    proof {
        lemma_parsed_is_regular(lhs);
        lemma_parsed_is_regular(rhs);
    }
    let res = combine(operation, lhs, rhs, &request.output, mapper, writer, diagnostics);
    assert(combines(operation, l, r, request.output, mapper, writer, res));
    res
}

/// A parsed document that `make_doc` hands out holds regular statements.
pub proof fn lemma_parsed_is_regular(loaded: Result<DocType<'_>, Error>)
    requires
        exists|descriptor: Descriptor, options: Options, path: Seq<char>, data: Seq<char>|
            #[trigger] loads(descriptor, options, path, data, load_model(loaded)),
    ensures
        well_loaded(loaded),
{
}

/// Merges two documents: the statements of the left operand, then those of the
/// right, without repeats.
///
/// The merged document binds every name that an operand binds. A name that
/// both bind stands for one of the two namespaces; the engine hands out no
/// table, so which one is left to its union. No response reads the table.
pub fn merge<
    T,
    E,
    M: Fn(&TripleRecord) -> Result<Option<T>, E>,
    W: FnOnce(&TurtleDoc<'_>, &str, usize, bool) -> Result<(), String>,
>(request: &BinaryRequest, mapper: Option<&M>, writer: W, diagnostics: &mut Vec<String>) -> (res:
    Result<Response<T, E>, Error>)
    requires
        mapper_accepts(mapper),
        writer_accepts(writer),
    ensures
        answers(
            Operation::Merge,
            *request,
            mapper,
            writer,
            res,
            texts_of(old(diagnostics)@),
            texts_of(final(diagnostics)@),
        ),
{
    operate(Operation::Merge, request, mapper, writer, diagnostics)
}

/// The statements of the left operand that the right operand does not hold.
pub fn difference<
    T,
    E,
    M: Fn(&TripleRecord) -> Result<Option<T>, E>,
    W: FnOnce(&TurtleDoc<'_>, &str, usize, bool) -> Result<(), String>,
>(request: &BinaryRequest, mapper: Option<&M>, writer: W, diagnostics: &mut Vec<String>) -> (res:
    Result<Response<T, E>, Error>)
    requires
        mapper_accepts(mapper),
        writer_accepts(writer),
    ensures
        answers(
            Operation::Difference,
            *request,
            mapper,
            writer,
            res,
            texts_of(old(diagnostics)@),
            texts_of(final(diagnostics)@),
        ),
{
    operate(Operation::Difference, request, mapper, writer, diagnostics)
}

/// The statements of the left operand that the right operand holds too.
pub fn intersection<
    T,
    E,
    M: Fn(&TripleRecord) -> Result<Option<T>, E>,
    W: FnOnce(&TurtleDoc<'_>, &str, usize, bool) -> Result<(), String>,
>(request: &BinaryRequest, mapper: Option<&M>, writer: W, diagnostics: &mut Vec<String>) -> (res:
    Result<Response<T, E>, Error>)
    requires
        mapper_accepts(mapper),
        writer_accepts(writer),
    ensures
        answers(
            Operation::Intersection,
            *request,
            mapper,
            writer,
            res,
            texts_of(old(diagnostics)@),
            texts_of(final(diagnostics)@),
        ),
{
    operate(Operation::Intersection, request, mapper, writer, diagnostics)
}

} // verus!
