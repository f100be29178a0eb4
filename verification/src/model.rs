//! The mathematical model of statements and of the set algebra over them.
//!
//! The graph engine owns the statements of a document and decides when two of
//! them are equal. Contracts speak of a statement through a [`Fact`]: what can
//! be observed of it, namely which statements it equals, its exchange record and
//! its line of text.

use crate::record::TripleModel;
use vstd::prelude::*;

verus! {

/// What stands for one node of a statement.
///
/// The engine finds two nodes equal exactly when both are comparable and they
/// belong to one class. A node is not comparable when the engine does not even
/// find it equal to itself, as with a number literal that holds no number.
pub struct Term {
    pub class: int,
    pub comparable: bool,
}

/// What stands for one statement of a document.
pub struct Fact {
    pub subject: Term,
    pub predicate: Term,
    pub object: Term,
    /// The statement in exchange form.
    pub record: TripleModel,
    /// The statement as one line of text; meaningful only where `printable`.
    pub line: Seq<char>,
    /// Whether the statement can be written as text: none of its nodes is a list.
    pub printable: bool,
}

/// The engine's equality of nodes.
pub open spec fn same_term(a: Term, b: Term) -> bool {
    a.comparable && b.comparable && a.class == b.class
}

/// The engine's equality of statements: node by node.
pub open spec fn same_fact(a: Fact, b: Fact) -> bool {
    same_term(a.subject, b.subject) && same_term(a.predicate, b.predicate) && same_term(
        a.object,
        b.object,
    )
}

impl Fact {
    /// Whether the engine finds the statement equal to itself.
    pub open spec fn comparable(self) -> bool {
        self.subject.comparable && self.predicate.comparable && self.object.comparable
    }

    /// Whether the record and the text agree on the statement's shape: it can be
    /// written as text exactly when no entry of its record is a list.
    pub open spec fn regular(self) -> bool {
        self.printable == self.record.is_flat()
    }
}

/// Whether every statement of `facts` is comparable.
pub open spec fn all_comparable(facts: Seq<Fact>) -> bool {
    forall|i: int| 0 <= i < facts.len() ==> (#[trigger] facts[i]).comparable()
}

/// Whether every statement of `facts` is regular.
pub open spec fn all_regular(facts: Seq<Fact>) -> bool {
    forall|i: int| 0 <= i < facts.len() ==> (#[trigger] facts[i]).regular()
}

/// Whether every statement of `facts` can be written as text.
pub open spec fn all_printable(facts: Seq<Fact>) -> bool {
    forall|i: int| 0 <= i < facts.len() ==> (#[trigger] facts[i]).printable
}

/// Whether `facts` holds a statement that the engine finds equal to `fact`.
pub open spec fn holds(facts: Seq<Fact>, fact: Fact) -> bool {
    exists|k: int| 0 <= k < facts.len() && same_fact(#[trigger] facts[k], fact)
}

/// Whether no statement of `a` equals a statement of `b`.
pub open spec fn disjoint(a: Seq<Fact>, b: Seq<Fact>) -> bool {
    forall|i: int, j: int|
        0 <= i < a.len() && 0 <= j < b.len() ==> !same_fact(#[trigger] a[i], #[trigger] b[j])
}

/// Whether no two statements of `facts` are equal.
pub open spec fn duplicate_free(facts: Seq<Fact>) -> bool {
    forall|i: int, j: int|
        0 <= i < j < facts.len() ==> !same_fact(#[trigger] facts[i], #[trigger] facts[j])
}

/// Whether `facts` can be the statements of a canonical document: no two are
/// equal, and each is regular.
pub open spec fn canonical(facts: Seq<Fact>) -> bool {
    duplicate_free(facts) && all_regular(facts)
}

/// `facts` in order, without each statement that equals an earlier one.
pub open spec fn absorbed(facts: Seq<Fact>) -> Seq<Fact>
    decreases facts.len(),
{
    if facts.len() == 0 {
        Seq::empty()
    } else {
        let kept = absorbed(facts.drop_last());
        if holds(kept, facts.last()) {
            kept
        } else {
            kept.push(facts.last())
        }
    }
}

/// The union of two documents: the statements of `a`, then those of `b`, each
/// kept unless it equals one kept before it.
pub open spec fn merged(a: Seq<Fact>, b: Seq<Fact>) -> Seq<Fact> {
    absorbed(a + b)
}

/// The statements of `a` that equal no statement of `b`, in order.
pub open spec fn without(a: Seq<Fact>, b: Seq<Fact>) -> Seq<Fact> {
    a.filter(|f: Fact| !holds(b, f))
}

/// The statements of `a` that equal some statement of `b`, in order.
pub open spec fn within(a: Seq<Fact>, b: Seq<Fact>) -> Seq<Fact> {
    a.filter(|f: Fact| holds(b, f))
}

/// Whether `fact` matches a pattern whose bound components are given as nodes.
pub open spec fn matches_pattern(
    fact: Fact,
    subject: Option<Term>,
    predicate: Option<Term>,
    object: Option<Term>,
) -> bool {
    &&& subject matches Some(s) ==> same_term(fact.subject, s)
    &&& predicate matches Some(p) ==> same_term(fact.predicate, p)
    &&& object matches Some(o) ==> same_term(fact.object, o)
}

/// The statements of `facts` that match the pattern, in order.
pub open spec fn matching(
    facts: Seq<Fact>,
    subject: Option<Term>,
    predicate: Option<Term>,
    object: Option<Term>,
) -> Seq<Fact> {
    facts.filter(|f: Fact| matches_pattern(f, subject, predicate, object))
}

/// The exchange records of `facts`, in order.
pub open spec fn records_of(facts: Seq<Fact>) -> Seq<TripleModel> {
    Seq::new(facts.len(), |i: int| facts[i].record)
}

/// `records` in order, without each record that occurred before.
pub open spec fn distinct(records: Seq<TripleModel>) -> Seq<TripleModel>
    decreases records.len(),
{
    if records.len() == 0 {
        Seq::empty()
    } else {
        let kept = distinct(records.drop_last());
        if kept.contains(records.last()) {
            kept
        } else {
            kept.push(records.last())
        }
    }
}

/// The structured form of a document: one record per statement, repeats left out.
pub open spec fn structured(facts: Seq<Fact>) -> Seq<TripleModel> {
    distinct(records_of(facts))
}

/// The lines of `facts`, joined by line feeds.
pub open spec fn textual(facts: Seq<Fact>) -> Seq<char>
    decreases facts.len(),
{
    if facts.len() == 0 {
        Seq::empty()
    } else if facts.len() == 1 {
        facts[0].line
    } else {
        textual(facts.drop_last()) + seq!['\n'] + facts.last().line
    }
}

} // verus!
