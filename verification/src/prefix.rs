//! The prefix table: short names bound to namespaces.
//!
//! A table is built from the entries that a caller supplies. An entry that
//! binds nothing usable is skipped; where it is malformed, a warning goes to
//! the diagnostic sink.

use crate::engine::{entered_namespace, namespace_refusal};
use vstd::prelude::*;
use vstd::string::StringExecFns;

verus! {

/// One entry of the caller's prefix map, as it was found.
#[derive(Clone, Debug, PartialEq, Eq)]
pub enum PrefixEntry {
    /// A short name bound to a namespace.
    Bound { name: String, namespace: String },
    /// A short name with no value.
    Empty { name: String },
    /// A short name whose value is not a text, with the reason.
    Malformed { name: String, reason: String },
    /// A property whose name is not a text, with its description.
    Unnamed { description: String },
}

/// The pairs of texts that a table of pairs holds, in order.
pub open spec fn pairs_of(table: Seq<(String, String)>) -> Seq<(Seq<char>, Seq<char>)> {
    Seq::new(table.len(), |i: int| (table[i].0@, table[i].1@))
}

/// The texts that a sequence of strings holds, in order.
pub open spec fn texts_of(lines: Seq<String>) -> Seq<Seq<char>> {
    Seq::new(lines.len(), |i: int| lines[i]@)
}

/// The warning for a short name whose value is not a text.
pub open spec fn malformed_text(name: Seq<char>, reason: Seq<char>) -> Seq<char> {
    "warning! value for "@ + name + " is incorrect. "@ + reason
}

/// The warning for a property whose name is not a text.
pub open spec fn unnamed_text(description: Seq<char>) -> Seq<char> {
    "warning! could not downcast property "@ + description + " to string"@
}

/// The pairs that `entries` bind, in order.
pub open spec fn bound_pairs(entries: Seq<PrefixEntry>) -> Seq<(Seq<char>, Seq<char>)>
    decreases entries.len(),
{
    if entries.len() == 0 {
        Seq::empty()
    } else {
        let before = bound_pairs(entries.drop_last());
        match entries.last() {
            PrefixEntry::Bound { name, namespace } => before.push((name@, namespace@)),
            _ => before,
        }
    }
}

/// The warnings that `entries` give rise to, in order.
pub open spec fn warnings_of(entries: Seq<PrefixEntry>) -> Seq<Seq<char>>
    decreases entries.len(),
{
    if entries.len() == 0 {
        Seq::empty()
    } else {
        let before = warnings_of(entries.drop_last());
        match entries.last() {
            PrefixEntry::Malformed { name, reason } => before.push(malformed_text(name@, reason@)),
            PrefixEntry::Unnamed { description } => before.push(unnamed_text(description@)),
            _ => before,
        }
    }
}

/// The pairs of the well-known set that a request names. No set is
/// registered: the well-known prefix of a request is the namespace under which
/// the engine names blank nodes, and it binds no short name.
pub open spec fn well_known_pairs(name: Option<Seq<char>>) -> Seq<(Seq<char>, Seq<char>)> {
    Seq::empty()
}

/// The prefix table of a request: the pairs of the well-known set that it
/// names, then the pairs that its entries bind, so that an entry overrides the
/// set.
pub open spec fn request_table(
    name: Option<Seq<char>>,
    entries: Seq<PrefixEntry>,
) -> Seq<(Seq<char>, Seq<char>)> {
    well_known_pairs(name) + bound_pairs(entries)
}

/// The message with which the engine refuses a pair, if it does: it refuses a
/// pair for its namespace.
pub open spec fn pair_refusal(pair: (Seq<char>, Seq<char>)) -> Option<Seq<char>> {
    namespace_refusal(pair.1)
}

/// The warnings for the pairs of a table that the engine refuses, in order:
/// each names the pair and carries the engine's message.
pub open spec fn refusal_warnings(pairs: Seq<(Seq<char>, Seq<char>)>) -> Seq<Seq<char>>
    decreases pairs.len(),
{
    if pairs.len() == 0 {
        Seq::empty()
    } else {
        let before = refusal_warnings(pairs.drop_last());
        match pair_refusal(pairs.last()) {
            Some(message) => before.push(malformed_text(pairs.last().0, message)),
            None => before,
        }
    }
}

/// The prefix table of a document with the given base once a table of pairs
/// was applied to it: each pair that the engine accepts is entered, a later
/// pair over an earlier one, and a refused pair is skipped.
pub open spec fn applied_table(
    own: Map<Seq<char>, Seq<char>>,
    base: Seq<char>,
    pairs: Seq<(Seq<char>, Seq<char>)>,
) -> Map<Seq<char>, Seq<char>>
    decreases pairs.len(),
{
    if pairs.len() == 0 {
        own
    } else {
        let before = applied_table(own, base, pairs.drop_last());
        match pair_refusal(pairs.last()) {
            Some(_) => before,
            None => before.insert(pairs.last().0, entered_namespace(base, pairs.last().1)),
        }
    }
}

/// An accepted pair stands in the applied table unless a later accepted pair
/// binds the same name: the override wins.
pub proof fn law_applied_pair_stands(
    own: Map<Seq<char>, Seq<char>>,
    base: Seq<char>,
    pairs: Seq<(Seq<char>, Seq<char>)>,
    i: int,
)
    requires
        0 <= i < pairs.len(),
        pair_refusal(pairs[i]) is None,
        forall|j: int|
            i < j < pairs.len() && pair_refusal(#[trigger] pairs[j]) is None ==> pairs[j].0
                != pairs[i].0,
    ensures
        applied_table(own, base, pairs).contains_pair(
            pairs[i].0,
            entered_namespace(base, pairs[i].1),
        ),
    decreases pairs.len(),
{
    if i < pairs.len() - 1 {
        let rest = pairs.drop_last();
        assert forall|j: int|
            i < j < rest.len() && pair_refusal(#[trigger] rest[j]) is None implies rest[j].0
                != rest[i].0 by {
            assert(rest[j] == pairs[j]);
        }
        law_applied_pair_stands(own, base, rest, i);
        assert(pairs.last() == pairs[pairs.len() - 1]);
    }
}

/// A name that no accepted pair binds keeps what the document's own table
/// says of it.
pub proof fn law_applied_keeps_others(
    own: Map<Seq<char>, Seq<char>>,
    base: Seq<char>,
    pairs: Seq<(Seq<char>, Seq<char>)>,
    name: Seq<char>,
)
    requires
        forall|j: int|
            0 <= j < pairs.len() && pair_refusal(#[trigger] pairs[j]) is None ==> pairs[j].0
                != name,
    ensures
        applied_table(own, base, pairs).dom().contains(name) == own.dom().contains(name),
        own.dom().contains(name) ==> applied_table(own, base, pairs)[name] == own[name],
    decreases pairs.len(),
{
    if pairs.len() > 0 {
        let rest = pairs.drop_last();
        assert forall|j: int|
            0 <= j < rest.len() && pair_refusal(#[trigger] rest[j]) is None implies rest[j].0
                != name by {
            assert(rest[j] == pairs[j]);
        }
        law_applied_keeps_others(own, base, rest, name);
        assert(pairs.last() == pairs[pairs.len() - 1]);
    }
}

/// In a document without a base, a namespace is entered as it is.
pub proof fn law_entered_without_base(namespace: Seq<char>)
    ensures
        entered_namespace(Seq::empty(), namespace) == namespace,
{
    assert(Seq::<char>::empty() + namespace =~= namespace);
}

/// Builds the prefix table from the caller's entries.
///
/// The table holds the bound entries in order. Each malformed entry is skipped
/// and leaves one warning in `diagnostics`; an entry without a value is skipped
/// in silence.
pub fn build_prefixes(entries: &Vec<PrefixEntry>, diagnostics: &mut Vec<String>) -> (table: Vec<
    (String, String),
>)
    ensures
        pairs_of(table@) == bound_pairs(entries@),
        forall|name: Option<Seq<char>>| pairs_of(table@) == #[trigger] request_table(name, entries@),
        texts_of(final(diagnostics)@) == texts_of(old(diagnostics)@) + warnings_of(entries@),
{
    let mut table: Vec<(String, String)> = Vec::new();
    let mut i: usize = 0;
    assert(entries@.take(0) =~= Seq::<PrefixEntry>::empty());
    assert(pairs_of(table@) =~= bound_pairs(entries@.take(0)));
    assert(texts_of(diagnostics@) =~= texts_of(old(diagnostics)@) + warnings_of(entries@.take(0)));
    while i < entries.len()
        invariant
            i <= entries.len(),
            pairs_of(table@) == bound_pairs(entries@.take(i as int)),
            texts_of(diagnostics@) == texts_of(old(diagnostics)@) + warnings_of(
                entries@.take(i as int),
            ),
        decreases entries.len() - i,
    {
        let ghost before = entries@.take(i as int);
        let ghost upto = entries@.take(i + 1);
        let ghost table_before = pairs_of(table@);
        let ghost lines_before = texts_of(diagnostics@);
        assert(upto.drop_last() =~= before);
        assert(upto.last() == entries@[i as int]);
        match &entries[i] {
            PrefixEntry::Bound { name, namespace } => {
                table.push((name.clone(), namespace.clone()));
                assert(pairs_of(table@) =~= table_before.push((name@, namespace@)));
            },
            PrefixEntry::Empty { .. } => {},
            PrefixEntry::Malformed { name, reason } => {
                let mut line = String::from_str("warning! value for ");
                line.append(name.as_str());
                line.append(" is incorrect. ");
                line.append(reason.as_str());
                diagnostics.push(line);
                assert(texts_of(diagnostics@) =~= lines_before.push(
                    malformed_text(name@, reason@),
                ));
            },
            PrefixEntry::Unnamed { description } => {
                let mut line = String::from_str("warning! could not downcast property ");
                line.append(description.as_str());
                line.append(" to string");
                diagnostics.push(line);
                assert(texts_of(diagnostics@) =~= lines_before.push(unnamed_text(description@)));
            },
        }
        i += 1;
    }
    assert(entries@.take(i as int) =~= entries@);
    assert forall|name: Option<Seq<char>>| pairs_of(table@) == #[trigger] request_table(
        name,
        entries@,
    ) by {
        assert(well_known_pairs(name) + bound_pairs(entries@) =~= bound_pairs(entries@));
    }
    table
}

} // verus!
