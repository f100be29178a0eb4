//! What holds of the set algebra and of pattern matching, for all documents.

use crate::model::{
    absorbed, all_comparable, all_regular, canonical, disjoint, duplicate_free, holds,
    matches_pattern, matching, merged, same_fact, same_term, textual, within, without, Fact, Term,
};
use vstd::prelude::*;

verus! {

/// Filtering keeps a sequence as it is where every element passes, and keeps
/// nothing where none does.
pub proof fn lemma_filter_all_or_none<A>(s: Seq<A>, pred: spec_fn(A) -> bool)
    ensures
        (forall|i: int| 0 <= i < s.len() ==> pred(#[trigger] s[i])) ==> s.filter(pred) == s,
        (forall|i: int| 0 <= i < s.len() ==> !pred(#[trigger] s[i])) ==> s.filter(pred)
            == Seq::<A>::empty(),
    decreases s.len(),
{
    reveal(Seq::filter);
    if s.len() > 0 {
        let rest = s.drop_last();
        lemma_filter_all_or_none(rest, pred);
        if forall|i: int| 0 <= i < s.len() ==> pred(#[trigger] s[i]) {
            assert forall|i: int| 0 <= i < rest.len() implies pred(#[trigger] rest[i]) by {
                assert(rest[i] == s[i]);
            }
            assert(pred(s[s.len() - 1]));
            assert(rest.push(s.last()) =~= s);
        }
        if forall|i: int| 0 <= i < s.len() ==> !pred(#[trigger] s[i]) {
            assert forall|i: int| 0 <= i < rest.len() implies !pred(#[trigger] rest[i]) by {
                assert(rest[i] == s[i]);
            }
            assert(!pred(s[s.len() - 1]));
        }
    } else {
        assert(s =~= Seq::<A>::empty());
    }
}

/// What filtering keeps: exactly the elements that pass.
pub proof fn lemma_filter_members<A>(s: Seq<A>, pred: spec_fn(A) -> bool)
    ensures
        forall|x: A| s.filter(pred).contains(x) <==> s.contains(x) && pred(x),
        s.filter(pred).len() <= s.len(),
{
    s.lemma_filter_len(pred);
    assert forall|x: A| s.filter(pred).contains(x) <==> s.contains(x) && pred(x) by {
        if s.filter(pred).contains(x) {
            s.lemma_filter_contains_rev(pred, x);
            let i = choose|i: int| 0 <= i < s.filter(pred).len() && s.filter(pred)[i] == x;
            s.lemma_filter_pred(pred, i);
        }
        if s.contains(x) && pred(x) {
            let i = choose|i: int| 0 <= i < s.len() && s[i] == x;
            s.lemma_filter_contains(pred, i);
        }
    }
}

/// What `absorbed` keeps: statements of `facts` only, one for each statement of
/// `facts` that equals any, and no two that are equal.
pub proof fn lemma_absorbed(facts: Seq<Fact>)
    ensures
        absorbed(facts).len() <= facts.len(),
        forall|i: int|
            0 <= i < absorbed(facts).len() ==> facts.contains(#[trigger] absorbed(facts)[i]),
        forall|j: int|
            0 <= j < facts.len() ==> absorbed(facts).contains(#[trigger] facts[j]) || holds(
                absorbed(facts),
                facts[j],
            ),
        duplicate_free(absorbed(facts)),
    decreases facts.len(),
{
    if facts.len() > 0 {
        let rest = facts.drop_last();
        let last = facts.last();
        let kept = absorbed(rest);
        let out = absorbed(facts);
        lemma_absorbed(rest);
        assert forall|i: int| 0 <= i < out.len() implies facts.contains(#[trigger] out[i]) by {
            if i < kept.len() {
                assert(out[i] == kept[i]);
                assert(rest.contains(kept[i]));
                let j = choose|j: int| 0 <= j < rest.len() && rest[j] == kept[i];
                assert(facts[j] == out[i]);
            } else {
                assert(facts[facts.len() - 1] == out[i]);
            }
        }
        assert forall|j: int| 0 <= j < facts.len() implies out.contains(#[trigger] facts[j])
            || holds(out, facts[j]) by {
            if j < rest.len() {
                assert(facts[j] == rest[j]);
                if kept.contains(rest[j]) {
                    let k = choose|k: int| 0 <= k < kept.len() && kept[k] == rest[j];
                    assert(out[k] == facts[j]);
                } else {
                    assert(holds(kept, rest[j]));
                    let k = choose|k: int|
                        0 <= k < kept.len() && same_fact(#[trigger] kept[k], rest[j]);
                    assert(same_fact(out[k], facts[j]));
                }
            } else {
                if holds(kept, last) {
                    let k = choose|k: int| 0 <= k < kept.len() && same_fact(#[trigger] kept[k], last);
                    assert(same_fact(out[k], facts[j]));
                } else {
                    assert(out[kept.len() as int] == facts[j]);
                }
            }
        }
        assert forall|i: int, j: int| 0 <= i < j < out.len() implies !same_fact(
            #[trigger] out[i],
            #[trigger] out[j],
        ) by {
            if j < kept.len() {
                assert(out[i] == kept[i] && out[j] == kept[j]);
            } else {
                assert(out[j] == last);
                assert(out[i] == kept[i]);
                assert(!holds(kept, last));
            }
        }
    }
}

/// Statements taken from regular statements are regular.
pub proof fn lemma_members_regular(source: Seq<Fact>, taken: Seq<Fact>)
    requires
        all_regular(source),
        forall|i: int| 0 <= i < taken.len() ==> source.contains(#[trigger] taken[i]),
    ensures
        all_regular(taken),
{
    assert forall|i: int| 0 <= i < taken.len() implies (#[trigger] taken[i]).regular() by {
        let j = choose|j: int| 0 <= j < source.len() && source[j] == taken[i];
        assert(source[j].regular());
    }
}

/// The union of regular documents is regular.
pub proof fn lemma_merged_regular(a: Seq<Fact>, b: Seq<Fact>)
    requires
        all_regular(a),
        all_regular(b),
    ensures
        all_regular(merged(a, b)),
{
    lemma_absorbed(a + b);
    assert forall|i: int| 0 <= i < (a + b).len() implies (#[trigger] (a + b)[i]).regular() by {
        if i < a.len() {
            assert((a + b)[i] == a[i]);
        } else {
            assert((a + b)[i] == b[i - a.len()]);
        }
    }
    lemma_members_regular(a + b, merged(a, b));
}

/// What is kept of a regular document by a filter is regular.
pub proof fn lemma_filter_regular(a: Seq<Fact>, pred: spec_fn(Fact) -> bool)
    requires
        all_regular(a),
    ensures
        all_regular(a.filter(pred)),
{
    lemma_filter_members(a, pred);
    assert forall|i: int| 0 <= i < a.filter(pred).len() implies a.contains(
        #[trigger] a.filter(pred)[i],
    ) by {
        assert(a.filter(pred).contains(a.filter(pred)[i]));
    }
    lemma_members_regular(a, a.filter(pred));
}

/// What is kept by a filter of statements of which no two are equal holds no
/// two that are equal.
pub proof fn lemma_filter_duplicate_free(a: Seq<Fact>, pred: spec_fn(Fact) -> bool)
    requires
        duplicate_free(a),
    ensures
        duplicate_free(a.filter(pred)),
    decreases a.len(),
{
    reveal(Seq::filter);
    if a.len() > 0 {
        let rest = a.drop_last();
        let kept = rest.filter(pred);
        let out = a.filter(pred);
        assert forall|i: int, j: int| 0 <= i < j < rest.len() implies !same_fact(
            #[trigger] rest[i],
            #[trigger] rest[j],
        ) by {
            assert(rest[i] == a[i] && rest[j] == a[j]);
        }
        lemma_filter_duplicate_free(rest, pred);
        lemma_filter_members(rest, pred);
        assert forall|i: int, j: int| 0 <= i < j < out.len() implies !same_fact(
            #[trigger] out[i],
            #[trigger] out[j],
        ) by {
            if j < kept.len() {
                assert(out[i] == kept[i] && out[j] == kept[j]);
            } else {
                assert(out[j] == a[a.len() - 1]);
                assert(out[i] == kept[i]);
                assert(kept.contains(kept[i]));
                assert(rest.contains(kept[i]));
                let k = choose|k: int| 0 <= k < rest.len() && rest[k] == kept[i];
                assert(a[k] == out[i]);
            }
        }
    }
}

/// The operations keep documents canonical: the union of canonical documents,
/// their difference, their intersection and every selection from one of them
/// hold no two equal statements, and regular statements only.
pub proof fn law_canonical_is_kept(
    a: Seq<Fact>,
    b: Seq<Fact>,
    subject: Option<Term>,
    predicate: Option<Term>,
    object: Option<Term>,
)
    requires
        canonical(a),
        canonical(b),
    ensures
        canonical(merged(a, b)),
        canonical(without(a, b)),
        canonical(within(a, b)),
        canonical(matching(a, subject, predicate, object)),
{
    lemma_absorbed(a + b);
    lemma_merged_regular(a, b);
    lemma_filter_duplicate_free(a, |f: Fact| !holds(b, f));
    lemma_filter_regular(a, |f: Fact| !holds(b, f));
    lemma_filter_duplicate_free(a, |f: Fact| holds(b, f));
    lemma_filter_regular(a, |f: Fact| holds(b, f));
    lemma_filter_duplicate_free(a, |f: Fact| matches_pattern(f, subject, predicate, object));
    lemma_filter_regular(a, |f: Fact| matches_pattern(f, subject, predicate, object));
}

/// Merging is a union without repeats.
///
/// The merged document holds no two equal statements. Each of its statements
/// is a statement of one of the operands, and each statement of an operand is
/// in it or equals one that is. So a comparable statement has an equal in the
/// merged document exactly when it has one in an operand.
pub proof fn law_merge_is_union(a: Seq<Fact>, b: Seq<Fact>)
    ensures
        duplicate_free(merged(a, b)),
        forall|f: Fact| merged(a, b).contains(f) ==> a.contains(f) || b.contains(f),
        forall|f: Fact|
            a.contains(f) || b.contains(f) ==> merged(a, b).contains(f) || holds(merged(a, b), f),
        forall|f: Fact| holds(merged(a, b), f) <==> holds(a, f) || holds(b, f),
{
    let all = a + b;
    let out = merged(a, b);
    lemma_absorbed(all);
    assert forall|f: Fact| out.contains(f) implies a.contains(f) || b.contains(f) by {
        let i = choose|i: int| 0 <= i < out.len() && out[i] == f;
        assert(all.contains(out[i]));
        let j = choose|j: int| 0 <= j < all.len() && all[j] == f;
        if j < a.len() {
            assert(a[j] == f);
        } else {
            assert(b[j - a.len()] == f);
        }
    }
    assert forall|f: Fact| a.contains(f) || b.contains(f) implies out.contains(f) || holds(
        out,
        f,
    ) by {
        if a.contains(f) {
            let j = choose|j: int| 0 <= j < a.len() && a[j] == f;
            assert(all[j] == f);
        } else {
            let j = choose|j: int| 0 <= j < b.len() && b[j] == f;
            assert(all[a.len() + j] == f);
        }
    }
    assert forall|f: Fact| holds(out, f) <==> holds(a, f) || holds(b, f) by {
        if holds(out, f) {
            let k = choose|k: int| 0 <= k < out.len() && same_fact(#[trigger] out[k], f);
            assert(all.contains(out[k]));
            let j = choose|j: int| 0 <= j < all.len() && all[j] == out[k];
            if j < a.len() {
                assert(same_fact(a[j], f));
            } else {
                assert(same_fact(b[j - a.len()], f));
            }
        }
        if holds(a, f) || holds(b, f) {
            let j = if holds(a, f) {
                let k = choose|k: int| 0 <= k < a.len() && same_fact(#[trigger] a[k], f);
                assert(all[k] == a[k]);
                k
            } else {
                let k = choose|k: int| 0 <= k < b.len() && same_fact(#[trigger] b[k], f);
                assert(all[a.len() + k] == b[k]);
                a.len() + k
            };
            assert(same_fact(all[j], f));
            if out.contains(all[j]) {
                let m = choose|m: int| 0 <= m < out.len() && out[m] == all[j];
                assert(same_fact(out[m], f));
            } else {
                assert(holds(out, all[j]));
                let m = choose|m: int| 0 <= m < out.len() && same_fact(#[trigger] out[m], all[j]);
                assert(same_fact(out[m], f));
            }
        }
    }
}

/// Statements of which no two are equal absorb nothing.
pub proof fn lemma_absorbed_unchanged(a: Seq<Fact>)
    requires
        duplicate_free(a),
    ensures
        absorbed(a) == a,
    decreases a.len(),
{
    if a.len() > 0 {
        let rest = a.drop_last();
        assert forall|i: int, j: int| 0 <= i < j < rest.len() implies !same_fact(
            #[trigger] rest[i],
            #[trigger] rest[j],
        ) by {
            assert(rest[i] == a[i] && rest[j] == a[j]);
        }
        lemma_absorbed_unchanged(rest);
        if holds(rest, a.last()) {
            let k = choose|k: int| 0 <= k < rest.len() && same_fact(#[trigger] rest[k], a.last());
            assert(same_fact(a[k], a[a.len() - 1]));
        }
        assert(rest.push(a.last()) =~= a);
    } else {
        assert(a =~= Seq::<Fact>::empty());
    }
}

/// The union of two documents without repeats is the left operand, followed
/// by the statements of the right that the left does not hold.
pub proof fn lemma_merged_appends(a: Seq<Fact>, b: Seq<Fact>)
    requires
        duplicate_free(a),
        duplicate_free(b),
    ensures
        merged(a, b) == a + without(b, a),
    decreases b.len(),
{
    reveal(Seq::filter);
    if b.len() == 0 {
        assert(a + b =~= a);
        lemma_absorbed_unchanged(a);
        assert(a + without(b, a) =~= a);
    } else {
        let rest = b.drop_last();
        let last = b.last();
        assert forall|i: int, j: int| 0 <= i < j < rest.len() implies !same_fact(
            #[trigger] rest[i],
            #[trigger] rest[j],
        ) by {
            assert(rest[i] == b[i] && rest[j] == b[j]);
        }
        lemma_merged_appends(a, rest);
        assert((a + b).drop_last() =~= a + rest);
        assert((a + b).last() == last);
        let kept = a + without(rest, a);
        lemma_filter_members(rest, |f: Fact| !holds(a, f));
        if holds(kept, last) {
            let k = choose|k: int| 0 <= k < kept.len() && same_fact(#[trigger] kept[k], last);
            if k >= a.len() {
                let x = without(rest, a)[k - a.len()];
                assert(kept[k] == x);
                assert(without(rest, a).contains(x));
                assert(rest.contains(x));
                let i = choose|i: int| 0 <= i < rest.len() && rest[i] == x;
                assert(same_fact(b[i], b[b.len() - 1]));
            } else {
                assert(kept[k] == a[k]);
                assert(holds(a, last));
            }
        }
        if holds(a, last) {
            let k = choose|k: int| 0 <= k < a.len() && same_fact(#[trigger] a[k], last);
            assert(kept[k] == a[k]);
            assert(holds(kept, last));
        } else {
            assert(kept.push(last) =~= a + without(rest, a).push(last));
        }
    }
}

/// The union of two documents without repeats counts a statement that both
/// hold once: it has as many statements as the operands together, less those
/// of the right that the left holds too.
pub proof fn law_merge_count(a: Seq<Fact>, b: Seq<Fact>)
    requires
        duplicate_free(a),
        duplicate_free(b),
    ensures
        merged(a, b).len() == a.len() + b.len() - within(b, a).len(),
{
    lemma_merged_appends(a, b);
    lemma_split_len(b, a);
}

/// A filter that lets one element more pass keeps one element more.
pub proof fn lemma_filter_one_more<A>(
    s: Seq<A>,
    p: spec_fn(A) -> bool,
    q: spec_fn(A) -> bool,
    j: int,
)
    requires
        0 <= j < s.len(),
        !p(s[j]),
        q(s[j]),
        forall|i: int| 0 <= i < s.len() && i != j ==> p(#[trigger] s[i]) == q(s[i]),
    ensures
        s.filter(q).len() == s.filter(p).len() + 1,
    decreases s.len(),
{
    reveal(Seq::filter);
    let rest = s.drop_last();
    if j == s.len() - 1 {
        assert forall|i: int| 0 <= i < rest.len() implies p(#[trigger] rest[i]) == q(rest[i]) by {
            assert(rest[i] == s[i]);
        }
        lemma_filter_agree(rest, p, q);
    } else {
        assert(rest[j] == s[j]);
        assert forall|i: int| 0 <= i < rest.len() && i != j implies p(#[trigger] rest[i]) == q(
            rest[i],
        ) by {
            assert(rest[i] == s[i]);
        }
        lemma_filter_one_more(rest, p, q, j);
        assert(p(s[s.len() - 1]) == q(s[s.len() - 1]));
    }
}

/// Two documents without repeats hold as many statements in common, whichever
/// of the two is asked.
pub proof fn law_intersection_count(a: Seq<Fact>, b: Seq<Fact>)
    requires
        duplicate_free(a),
        duplicate_free(b),
    ensures
        within(a, b).len() == within(b, a).len(),
    decreases a.len(),
{
    reveal(Seq::filter);
    let q = |f: Fact| holds(a, f);
    if a.len() == 0 {
        lemma_filter_all_or_none(b, q);
    } else {
        let rest = a.drop_last();
        let x = a.last();
        let p = |f: Fact| holds(rest, f);
        assert forall|i: int, j: int| 0 <= i < j < rest.len() implies !same_fact(
            #[trigger] rest[i],
            #[trigger] rest[j],
        ) by {
            assert(rest[i] == a[i] && rest[j] == a[j]);
        }
        law_intersection_count(rest, b);
        assert forall|f: Fact| holds(a, f) == (holds(rest, f) || same_fact(x, f)) by {
            if holds(rest, f) {
                let k = choose|k: int| 0 <= k < rest.len() && same_fact(#[trigger] rest[k], f);
                assert(same_fact(a[k], f));
            }
            if same_fact(x, f) {
                assert(same_fact(a[a.len() - 1], f));
            }
            if holds(a, f) {
                let k = choose|k: int| 0 <= k < a.len() && same_fact(#[trigger] a[k], f);
                if k < rest.len() {
                    assert(same_fact(rest[k], f));
                }
            }
        }
        if holds(b, x) {
            let j = choose|j: int| 0 <= j < b.len() && same_fact(#[trigger] b[j], x);
            if holds(rest, b[j]) {
                let k = choose|k: int| 0 <= k < rest.len() && same_fact(#[trigger] rest[k], b[j]);
                assert(same_fact(a[k], a[a.len() - 1]));
            }
            assert forall|i: int| 0 <= i < b.len() && i != j implies p(#[trigger] b[i]) == q(
                b[i],
            ) by {
                if same_fact(x, b[i]) {
                    if i < j {
                        assert(same_fact(b[i], b[j]));
                    } else {
                        assert(same_fact(b[j], b[i]));
                    }
                }
            }
            lemma_filter_one_more(b, p, q, j);
        } else {
            assert forall|i: int| 0 <= i < b.len() implies q(#[trigger] b[i]) == p(b[i]) by {
                if same_fact(x, b[i]) {
                    assert(same_fact(b[i], x));
                }
            }
            lemma_filter_agree(b, q, p);
        }
    }
}

/// Either way round, the intersection of two documents without repeats holds
/// equal statements, and their union holds as many.
pub proof fn law_both_orders(a: Seq<Fact>, b: Seq<Fact>)
    requires
        duplicate_free(a),
        duplicate_free(b),
    ensures
        forall|i: int|
            0 <= i < within(a, b).len() ==> holds(within(b, a), #[trigger] within(a, b)[i]),
        within(a, b).len() == within(b, a).len(),
        merged(a, b).len() == merged(b, a).len(),
{
    law_intersection_count(a, b);
    law_merge_count(a, b);
    law_merge_count(b, a);
    lemma_filter_members(a, |f: Fact| holds(b, f));
    lemma_filter_members(b, |f: Fact| holds(a, f));
    assert forall|i: int| 0 <= i < within(a, b).len() implies holds(
        within(b, a),
        #[trigger] within(a, b)[i],
    ) by {
        let f = within(a, b)[i];
        assert(within(a, b).contains(f));
        assert(a.contains(f) && holds(b, f));
        let j = choose|j: int| 0 <= j < b.len() && same_fact(#[trigger] b[j], f);
        let k = choose|k: int| 0 <= k < a.len() && a[k] == f;
        assert(same_fact(a[k], b[j]));
        assert(holds(a, b[j]));
        assert(b.contains(b[j]));
        assert(within(b, a).contains(b[j]));
        let m = choose|m: int| 0 <= m < within(b, a).len() && within(b, a)[m] == b[j];
        assert(same_fact(within(b, a)[m], f));
    }
}

/// The difference holds exactly the statements of the left operand that equal
/// none of the right; the intersection, those that equal some.
pub proof fn law_difference_and_intersection(a: Seq<Fact>, b: Seq<Fact>)
    ensures
        forall|f: Fact| without(a, b).contains(f) <==> a.contains(f) && !holds(b, f),
        forall|f: Fact| within(a, b).contains(f) <==> a.contains(f) && holds(b, f),
        without(a, b).len() + within(a, b).len() == a.len(),
{
    lemma_filter_members(a, |f: Fact| !holds(b, f));
    lemma_filter_members(a, |f: Fact| holds(b, f));
    lemma_split_len(a, b);
}

/// The difference and the intersection part the left operand.
pub proof fn lemma_split_len(a: Seq<Fact>, b: Seq<Fact>)
    ensures
        without(a, b).len() + within(a, b).len() == a.len(),
    decreases a.len(),
{
    reveal(Seq::filter);
    if a.len() > 0 {
        lemma_split_len(a.drop_last(), b);
    }
}

/// A document of comparable statements has an empty difference with itself,
/// and is its own intersection with itself.
pub proof fn law_self(a: Seq<Fact>)
    requires
        all_comparable(a),
    ensures
        without(a, a) == Seq::<Fact>::empty(),
        within(a, a) == a,
{
    assert forall|i: int| 0 <= i < a.len() implies holds(a, #[trigger] a[i]) by {
        assert(a[i].comparable());
        assert(same_fact(a[i], a[i]));
    }
    lemma_filter_all_or_none(a, |f: Fact| !holds(a, f));
    lemma_filter_all_or_none(a, |f: Fact| holds(a, f));
}

/// For documents without a statement in common, the difference is the left
/// operand and the intersection is empty.
pub proof fn law_disjoint(a: Seq<Fact>, b: Seq<Fact>)
    requires
        disjoint(a, b),
    ensures
        without(a, b) == a,
        within(a, b) == Seq::<Fact>::empty(),
{
    assert forall|i: int| 0 <= i < a.len() implies !holds(b, #[trigger] a[i]) by {
        if holds(b, a[i]) {
            let k = choose|k: int| 0 <= k < b.len() && same_fact(#[trigger] b[k], a[i]);
            assert(same_fact(a[i], b[k]));
        }
    }
    lemma_filter_all_or_none(a, |f: Fact| !holds(b, f));
    lemma_filter_all_or_none(a, |f: Fact| holds(b, f));
}

/// A pattern without a bound component selects every statement, in order.
pub proof fn law_unbound_pattern(facts: Seq<Fact>)
    ensures
        matching(facts, None, None, None) == facts,
{
    lemma_filter_all_or_none(
        facts,
        |f: Fact| matches_pattern(f, None::<Term>, None::<Term>, None::<Term>),
    );
}

/// A pattern that binds the subject alone selects exactly the statements with
/// that subject, and keeps their order.
pub proof fn law_subject_pattern(facts: Seq<Fact>, subject: Term)
    ensures
        matching(facts, Some(subject), None, None) == facts.filter(
            |f: Fact| same_term(f.subject, subject),
        ),
        forall|f: Fact|
            matching(facts, Some(subject), None, None).contains(f) <==> facts.contains(f)
                && same_term(f.subject, subject),
{
    let by_pattern = |f: Fact| matches_pattern(f, Some(subject), None::<Term>, None::<Term>);
    let by_subject = |f: Fact| same_term(f.subject, subject);
    lemma_filter_agree(facts, by_pattern, by_subject);
    lemma_filter_members(facts, by_pattern);
}

/// Two predicates that agree on every element filter alike.
pub proof fn lemma_filter_agree<A>(s: Seq<A>, p: spec_fn(A) -> bool, q: spec_fn(A) -> bool)
    requires
        forall|i: int| 0 <= i < s.len() ==> p(#[trigger] s[i]) == q(s[i]),
    ensures
        s.filter(p) == s.filter(q),
    decreases s.len(),
{
    reveal(Seq::filter);
    if s.len() > 0 {
        let rest = s.drop_last();
        assert forall|i: int| 0 <= i < rest.len() implies p(#[trigger] rest[i]) == q(rest[i]) by {
            assert(rest[i] == s[i]);
        }
        lemma_filter_agree(rest, p, q);
        assert(p(s[s.len() - 1]) == q(s[s.len() - 1]));
    }
}

/// The text of a document without statements is empty.
pub proof fn law_empty_text()
    ensures
        textual(Seq::<Fact>::empty()) == Seq::<char>::empty(),
{
}

} // verus!
