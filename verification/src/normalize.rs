//! The format normalizer: from a deferred collection of triples to a document.

use crate::engine::{
    doc_base, doc_facts, doc_from_statements, doc_prefixes, empty_doc, error_text, facts_of,
    join_docs, record_statement, statement_fact, statements_from_triples, statements_of,
    triple_model, triple_models,
};
use crate::error::{Error, ErrorKind, ErrorModel};
use crate::laws::{lemma_absorbed, lemma_members_regular};
use crate::loader::{attach_prefixes, LoadModel};
use crate::model::{absorbed, all_comparable, all_regular, canonical, same_fact, Fact};
use crate::prefix::{applied_table, pairs_of, refusal_warnings, texts_of};
use crate::record::TripleModel;
use tortank::turtle::turtle_doc::{RdfJsonTriple, TurtleDoc};
use vstd::prelude::*;

verus! {

/// Mathematical model of a normalized document: its statements, its prefix
/// table and its base.
pub struct DocModel {
    pub facts: Seq<Fact>,
    pub prefixes: Map<Seq<char>, Seq<char>>,
    pub base: Seq<char>,
}

/// What translating records into a document gives: one statement per record,
/// without each statement that equals an earlier one, and the accepted pairs
/// of the table that the records carry; or a translation error with the
/// engine's message.
pub open spec fn translated(
    records: Seq<TripleModel>,
    table: Seq<(Seq<char>, Seq<char>)>,
) -> Result<DocModel, ErrorModel> {
    match statements_of(records) {
        Ok(facts) => Ok(
            DocModel {
                facts: absorbed(facts),
                prefixes: applied_table(Map::empty(), Seq::empty(), table),
                base: Seq::empty(),
            },
        ),
        Err(message) => Err(ErrorModel { kind: ErrorKind::Translation, message }),
    }
}

/// A loaded operand once it is normalized.
pub open spec fn resolved(loaded: LoadModel) -> Result<DocModel, ErrorModel> {
    match loaded {
        LoadModel::Doc(facts, prefixes, base) => Ok(DocModel { facts, prefixes, base }),
        LoadModel::Deferred(records, table) => translated(records, table),
    }
}

/// What resolving an operand gives: the failure to load it, or what
/// normalizing the loaded operand gives.
pub open spec fn resolve(outcome: Result<LoadModel, ErrorModel>) -> Result<DocModel, ErrorModel> {
    match outcome {
        Ok(loaded) => resolved(loaded),
        Err(error) => Err(error),
    }
}

/// The warnings that normalizing a loaded operand leaves: one for each pair
/// that the engine refused, where a deferred collection was translated.
pub open spec fn normalize_notes(outcome: Result<LoadModel, ErrorModel>) -> Seq<Seq<char>> {
    match outcome {
        Ok(LoadModel::Deferred(records, table)) => if statements_of(records) is Ok {
            refusal_warnings(table)
        } else {
            Seq::empty()
        },
        _ => Seq::empty(),
    }
}

/// Whether every node of every record is plain: of type `uri` or `bnode`, or
/// a `literal` without a datatype.
pub open spec fn all_plain(records: Seq<TripleModel>) -> bool {
    forall|i: int| 0 <= i < records.len() ==> (#[trigger] records[i]).is_plain()
}

/// Whether some node of some record is of a type that the engine does not
/// know.
pub open spec fn some_unknown(records: Seq<TripleModel>) -> bool {
    exists|i: int| 0 <= i < records.len() && (#[trigger] records[i]).has_unknown_type()
}

/// Records that translate one by one translate together, into the same
/// statements in order.
pub proof fn lemma_all_translate(records: Seq<TripleModel>, facts: Seq<Fact>)
    requires
        facts.len() == records.len(),
        forall|i: int|
            0 <= i < records.len() ==> record_statement(#[trigger] records[i]) == Ok::<
                Fact,
                Seq<char>,
            >(facts[i]),
    ensures
        statements_of(records) == Ok::<Seq<Fact>, Seq<char>>(facts),
    decreases records.len(),
{
    if records.len() > 0 {
        let rest = records.drop_last();
        assert forall|i: int| 0 <= i < rest.len() implies record_statement(#[trigger] rest[i])
            == Ok::<Fact, Seq<char>>(facts.drop_last()[i]) by {
            assert(rest[i] == records[i]);
        }
        lemma_all_translate(rest, facts.drop_last());
        assert(records.last() == records[records.len() - 1]);
        assert(facts.drop_last().push(facts[facts.len() - 1]) =~= facts);
    } else {
        assert(facts =~= Seq::<Fact>::empty());
    }
}

/// The first record that the engine refuses decides the translation of the
/// sequence.
pub proof fn lemma_first_refusal(records: Seq<TripleModel>, k: int, message: Seq<char>)
    requires
        0 <= k < records.len(),
        record_statement(records[k]) == Err::<Fact, Seq<char>>(message),
        forall|i: int| 0 <= i < k ==> record_statement(#[trigger] records[i]) is Ok,
    ensures
        statements_of(records) == Err::<Seq<Fact>, Seq<char>>(message),
    decreases records.len(),
{
    let rest = records.drop_last();
    if k == records.len() - 1 {
        let facts = Seq::new(rest.len(), |i: int| record_statement(rest[i])->Ok_0);
        assert forall|i: int| 0 <= i < rest.len() implies record_statement(#[trigger] rest[i])
            == Ok::<Fact, Seq<char>>(facts[i]) by {
            assert(rest[i] == records[i]);
        }
        lemma_all_translate(rest, facts);
        assert(records.last() == records[k]);
    } else {
        assert(rest[k] == records[k]);
        assert forall|i: int| 0 <= i < k implies record_statement(#[trigger] rest[i]) is Ok by {
            assert(rest[i] == records[i]);
        }
        lemma_first_refusal(rest, k, message);
    }
}

/// A record that translates into a statement that equals itself gives one
/// statement, however often it is repeated next to itself.
pub proof fn law_repeated_record_collapses(
    record: TripleModel,
    table: Seq<(Seq<char>, Seq<char>)>,
    fact: Fact,
)
    requires
        record_statement(record) == Ok::<Fact, Seq<char>>(fact),
        fact.comparable(),
    ensures
        translated(seq![record, record], table) matches Ok(model) && model.facts == seq![fact],
{
    let records = seq![record, record];
    let facts = seq![fact, fact];
    lemma_all_translate(records, facts);
    assert(facts.drop_last() =~= seq![fact]);
    assert(seq![fact].drop_last() =~= Seq::<Fact>::empty());
    assert(absorbed(seq![fact].drop_last()) =~= Seq::<Fact>::empty());
    assert(absorbed(seq![fact]) =~= seq![fact]);
    assert(same_fact(seq![fact][0], fact));
    assert(absorbed(facts) =~= seq![fact]);
}

/// Resolves a deferred collection of triples into a document and applies the
/// prefix table that it carries, pair by pair.
///
/// There is one statement per triple, in order; a statement that equals an
/// earlier one is left out, so that the document is canonical. A triple that
/// the engine cannot translate is a translation error: plain records always
/// translate, into statements that equal themselves, and a record with a node
/// of an unknown type never does.
pub fn rdf_json_triple_to_doc<'a>(
    triples: &'a Vec<RdfJsonTriple>,
    prefixes: &Vec<(String, String)>,
    diagnostics: &mut Vec<String>,
) -> (res: Result<TurtleDoc<'a>, Error>)
    ensures
        match translated(triple_models(triples@), pairs_of(prefixes@)) {
            Ok(model) => {
                &&& res matches Ok(doc)
                &&& doc_facts(&doc) == model.facts
                &&& doc_prefixes(&doc) == model.prefixes
                &&& doc_base(&doc) == model.base
                &&& canonical(model.facts)
                &&& model.facts.len() <= triples.len()
                &&& all_plain(triple_models(triples@)) ==> all_comparable(model.facts)
            },
            Err(error) => res matches Err(e) && e@ == error,
        },
        all_plain(triple_models(triples@)) ==> res is Ok,
        some_unknown(triple_models(triples@)) ==> res is Err,
        texts_of(final(diagnostics)@) == texts_of(old(diagnostics)@) + (if res is Ok {
            refusal_warnings(pairs_of(prefixes@))
        } else {
            Seq::empty()
        }),
{
    let ghost records = triple_models(triples@);
    proof {
        assert(texts_of(diagnostics@) + Seq::<Seq<char>>::empty() =~= texts_of(diagnostics@));
    }
    let statements = match statements_from_triples(triples) {
        Ok(statements) => statements,
        Err(e) => {
            proof {
                let k = choose|k: int|
                    0 <= k < triples.len() && {
                        let refused = #[trigger] triple_model(&triples[k]);
                        &&& record_statement(refused) == Err::<Fact, Seq<char>>(error_text(&e))
                        &&& !refused.is_plain()
                        &&& forall|i: int|
                            0 <= i < k ==> record_statement(
                                #[trigger] triple_model(&triples[i]),
                            ) is Ok
                    };
                assert(records[k] == triple_model(&triples[k]));
                assert forall|i: int| 0 <= i < k implies record_statement(
                    #[trigger] records[i],
                ) is Ok by {
                    assert(records[i] == triple_model(&triples[i]));
                }
                lemma_first_refusal(records, k, error_text(&e));
            }
            return Err(Error::from_engine(ErrorKind::Translation, e));
        },
    };
    let ghost facts = facts_of(statements@);
    proof {
        assert forall|i: int| 0 <= i < records.len() implies record_statement(
            #[trigger] records[i],
        ) == Ok::<Fact, Seq<char>>(facts[i]) by {
            assert(records[i] == triple_model(&triples[i]));
        }
        lemma_all_translate(records, facts);
        assert forall|i: int| 0 <= i < facts.len() implies (#[trigger] facts[i]).regular() by {
            assert(records[i] == triple_model(&triples[i]));
        }
        if some_unknown(records) {
            let i = choose|i: int|
                0 <= i < records.len() && (#[trigger] records[i]).has_unknown_type();
            assert(records[i] == triple_model(&triples[i]));
        }
        lemma_absorbed(facts);
        lemma_members_regular(facts, absorbed(facts));
        if all_plain(records) {
            assert forall|i: int| 0 <= i < absorbed(facts).len() implies (#[trigger] absorbed(
                facts,
            )[i]).comparable() by {
                let f = absorbed(facts)[i];
                assert(facts.contains(f));
                let j = choose|j: int| 0 <= j < facts.len() && facts[j] == f;
                assert(records[j].is_plain());
                assert(records[j] == triple_model(&triples[j]));
            }
        }
    }
    match doc_from_statements(statements) {
        Ok(doc) => {
            proof {
                assert(doc_facts(&doc) =~= facts);
                assert(Seq::<Fact>::empty() + facts =~= facts);
            }
            // The union with an empty document leaves out what is repeated.
            let doc = join_docs(empty_doc(), doc);
            assert(doc_prefixes(&doc) =~= Map::<Seq<char>, Seq<char>>::empty());
            Ok(attach_prefixes(doc, prefixes, diagnostics))
        },
        Err(e) => Err(Error::from_engine(ErrorKind::Translation, e)),
    }
}

} // verus!
