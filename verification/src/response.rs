//! The response projector: from a document to what the caller asked for.
//!
//! A document is handed back as a text, as a sequence of records, or written
//! to a file. Records may pass through the caller's mapper, which replaces a
//! record or drops it.

use crate::engine::{doc_facts, doc_len, doc_to_text, doc_to_triples};
use crate::error::{invalid_output_text, unprintable_text, Error, ErrorKind, ErrorModel};
use crate::model::{all_printable, all_regular, distinct, records_of, structured, textual, Fact};
use crate::record::{models_of, TripleModel, TripleRecord};
use crate::translate::records_from_engine;
use tortank::turtle::turtle_doc::TurtleDoc;
use vstd::prelude::*;
use vstd::string::StringExecFns;

verus! {

/// How a document is handed back.
#[derive(Clone, Copy, Debug, PartialEq, Eq)]
pub enum Mode {
    /// As a sequence of records.
    Structured,
    /// As a text.
    Textual,
}

/// The output configuration of a request.
#[derive(Clone, Debug, PartialEq, Eq)]
pub struct OutputConfig {
    /// `"structured"` or `"textual"`; structured where absent.
    pub output_type: Option<String>,
    /// The file to write to, if any.
    pub output_file_path: Option<String>,
    /// A hint for the number of statements written at a time; its sign is
    /// ignored.
    pub buf_size: Option<i64>,
}

/// What an operation hands back.
#[derive(Debug, PartialEq, Eq)]
pub enum Response<T, E> {
    /// The document as a text.
    Text(String),
    /// The document as records, one per statement.
    Records(Vec<TripleRecord>),
    /// What the mapper made of the records that it kept.
    Mapped(Vec<T>),
    /// The mapper failed on a record, with this; it was handed no record after
    /// that one.
    Interrupted(E),
    /// The document was written to the file.
    Written,
}

/// The mode that an output type names, or the value that names none.
pub open spec fn mode_of(output_type: Option<Seq<char>>) -> Result<Mode, Seq<char>> {
    match output_type {
        None => Ok(Mode::Structured),
        Some(value) => if value == "structured"@ {
            Ok(Mode::Structured)
        } else if value == "textual"@ {
            Ok(Mode::Textual)
        } else {
            Err(value)
        },
    }
}

/// The number of statements written at a time: the hint without its sign, as
/// far as it fits; without a hint, or with a hint of zero, the whole document,
/// and never less than one.
pub open spec fn chunk_of(hint: Option<i64>, count: nat) -> int {
    let size: int = match hint {
        Some(h) => if h < 0 {
            -h
        } else {
            h as int
        },
        None => 0,
    };
    if 0 < size <= usize::MAX {
        size
    } else if size > usize::MAX {
        usize::MAX as int
    } else if count > 0 {
        count as int
    } else {
        1
    }
}

/// What is left of the mapper's outcomes: the values that it did not drop, in
/// order.
pub open spec fn retained<T>(outcomes: Seq<Option<T>>) -> Seq<T>
    decreases outcomes.len(),
{
    if outcomes.len() == 0 {
        Seq::empty()
    } else {
        match outcomes.last() {
            Some(value) => retained(outcomes.drop_last()).push(value),
            None => retained(outcomes.drop_last()),
        }
    }
}

/// What the mapper's outcomes keep or drop: a failure keeps nothing.
pub open spec fn kept_of<T, E>(outcomes: Seq<Result<Option<T>, E>>) -> Seq<Option<T>> {
    Seq::new(
        outcomes.len(),
        |i: int|
            match outcomes[i] {
                Ok(kept) => kept,
                Err(_) => None,
            },
    )
}

/// Whether `outcomes` are what a mapper gives on the first records, one call
/// per record in order, with no call after a failure.
pub open spec fn called_on<T, E, M: Fn(&TripleRecord) -> Result<Option<T>, E>>(
    mapper: &M,
    records: Seq<TripleRecord>,
    outcomes: Seq<Result<Option<T>, E>>,
) -> bool {
    &&& outcomes.len() <= records.len()
    &&& forall|i: int|
        0 <= i < outcomes.len() ==> mapper.ensures((&records[i],), #[trigger] outcomes[i])
    &&& forall|i: int| 0 <= i < outcomes.len() - 1 ==> (#[trigger] outcomes[i]) is Ok
}

/// Whether `out` is what a mapper makes of `records`. It is called once on
/// each record, in order, until it fails. Where it never fails `out` holds
/// what it did not drop, in order; where it fails, `out` is that failure.
pub open spec fn maps_to<T, E, M: Fn(&TripleRecord) -> Result<Option<T>, E>>(
    mapper: &M,
    records: Seq<TripleRecord>,
    out: Result<Seq<T>, E>,
) -> bool {
    exists|outcomes: Seq<Result<Option<T>, E>>|
        #![trigger called_on(mapper, records, outcomes)]
        {
            &&& called_on(mapper, records, outcomes)
            &&& match out {
                Ok(values) => {
                    &&& outcomes.len() == records.len()
                    &&& forall|i: int| 0 <= i < outcomes.len() ==> (#[trigger] outcomes[i]) is Ok
                    &&& values == retained(kept_of(outcomes))
                },
                Err(failure) => outcomes.len() > 0 && outcomes.last() == Err::<Option<T>, E>(
                    failure,
                ),
            }
        }
}

/// Whether a mapper drops every record.
pub open spec fn drops_all<T, E, M: Fn(&TripleRecord) -> Result<Option<T>, E>>(mapper: &M) -> bool {
    forall|record: &TripleRecord, outcome: Result<Option<T>, E>|
        mapper.ensures((record,), outcome) ==> outcome == Ok::<Option<T>, E>(None)
}

/// Whether a writer may be called on every document that can be written: with
/// at least one statement at a time and, as a text, only where every statement
/// is printable.
pub open spec fn writer_accepts<W: FnOnce(&TurtleDoc<'_>, &str, usize, bool) -> Result<(), String>>(
    writer: W,
) -> bool {
    forall|doc: &TurtleDoc<'_>, path: &str, chunk: usize, structured: bool|
        chunk >= 1 && (structured || all_printable(doc_facts(doc))) ==> writer.requires(
            (doc, path, chunk, structured),
        )
}

/// Whether a mapper may be called on every record.
pub open spec fn mapper_accepts<T, E, M: Fn(&TripleRecord) -> Result<Option<T>, E>>(
    mapper: Option<&M>,
) -> bool {
    mapper matches Some(f) ==> forall|record: &TripleRecord| f.requires((record,))
}

/// Whether `res` is what handing a document with the statements `facts` to
/// the writer can give: the writer is called once, and its failure is an I/O
/// error with its message.
pub open spec fn writes<T, E, W: FnOnce(&TurtleDoc<'_>, &str, usize, bool) -> Result<(), String>>(
    facts: Seq<Fact>,
    path: Seq<char>,
    chunk: usize,
    structured: bool,
    writer: W,
    res: Result<Response<T, E>, Error>,
) -> bool {
    exists|doc: &TurtleDoc<'_>, target: &str, outcome: Result<(), String>|
        {
            &&& doc_facts(doc) == facts
            &&& target@ == path
            &&& #[trigger] writer.ensures((doc, target, chunk, structured), outcome)
            &&& match outcome {
                Ok(_) => res matches Ok(Response::Written),
                Err(message) => res matches Err(e) && e@ == (ErrorModel {
                    kind: ErrorKind::Io,
                    message: message@,
                }),
            }
        }
}

/// Whether `res` is what projecting a document with the statements `facts` can
/// give.
///
/// An output type that is not recognized is a configuration error that names
/// it. With a file path the writer is called once, and its failure is an I/O
/// error. A text is owed only where every statement is printable.
pub open spec fn responds<
    T,
    E,
    M: Fn(&TripleRecord) -> Result<Option<T>, E>,
    W: FnOnce(&TurtleDoc<'_>, &str, usize, bool) -> Result<(), String>,
>(
    facts: Seq<Fact>,
    config: OutputConfig,
    mapper: Option<&M>,
    writer: W,
    res: Result<Response<T, E>, Error>,
) -> bool {
    match mode_of(crate::record::text_of(config.output_type)) {
        Err(value) => res matches Err(e) && e@ == (ErrorModel {
            kind: ErrorKind::InvalidConfiguration,
            message: invalid_output_text(value),
        }),
        Ok(mode) => if mode == Mode::Textual && !all_printable(facts) {
            res matches Err(e) && e@ == (ErrorModel {
                kind: ErrorKind::Translation,
                message: unprintable_text(),
            })
        } else {
            match config.output_file_path {
                Some(path) => writes(
                    facts,
                    path@,
                    chunk_of(config.buf_size, facts.len()) as usize,
                    mode == Mode::Structured,
                    writer,
                    res,
                ),
                None => match mode {
                    Mode::Textual => res matches Ok(Response::Text(text)) && text@ == textual(
                        facts,
                    ),
                    Mode::Structured => match mapper {
                        None => res matches Ok(Response::Records(records)) && models_of(records@)
                            == structured(facts),
                        Some(f) => exists|records: Seq<TripleRecord>|
                            #![trigger models_of(records)]
                            {
                                &&& models_of(records) == structured(facts)
                                &&& match res {
                                    Ok(Response::Mapped(values)) => maps_to(
                                        f,
                                        records,
                                        Ok(values@),
                                    ),
                                    Ok(Response::Interrupted(failure)) => maps_to(
                                        f,
                                        records,
                                        Err(failure),
                                    ),
                                    _ => false,
                                }
                            },
                    },
                },
            }
        },
    }
}

/// Every record of `records` occurs in `distinct(records)`, and the other way
/// round.
pub proof fn lemma_distinct_same_elements(records: Seq<TripleModel>)
    ensures
        forall|r: TripleModel| distinct(records).contains(r) <==> records.contains(r),
        distinct(records).len() <= records.len(),
    decreases records.len(),
{
    if records.len() > 0 {
        let rest = records.drop_last();
        lemma_distinct_same_elements(rest);
        let kept = distinct(rest);
        assert forall|r: TripleModel| distinct(records).contains(r) <==> records.contains(r) by {
            if records.contains(r) {
                let i = choose|i: int| 0 <= i < records.len() && records[i] == r;
                if i < rest.len() {
                    assert(rest[i] == r);
                    assert(rest.contains(r));
                    assert(kept.contains(r));
                    let k = choose|k: int| 0 <= k < kept.len() && kept[k] == r;
                    assert(distinct(records)[k] == r);
                } else {
                    assert(r == records.last());
                    if !kept.contains(r) {
                        assert(distinct(records)[kept.len() as int] == r);
                    }
                }
            }
            if distinct(records).contains(r) {
                let k = choose|k: int| 0 <= k < distinct(records).len() && distinct(records)[k] == r;
                if k < kept.len() {
                    assert(kept[k] == r);
                    assert(kept.contains(r));
                    assert(rest.contains(r));
                    let i = choose|i: int| 0 <= i < rest.len() && rest[i] == r;
                    assert(records[i] == r);
                } else {
                    assert(records[records.len() - 1] == r);
                }
            }
        }
    }
}

/// A document whose statements are regular can be written as text exactly
/// when every record of its structured form is flat.
pub proof fn lemma_printable_iff_flat(facts: Seq<Fact>)
    requires
        all_regular(facts),
    ensures
        all_printable(facts) <==> forall|i: int|
            0 <= i < structured(facts).len() ==> (#[trigger] structured(facts)[i]).is_flat(),
{
    let records = records_of(facts);
    lemma_distinct_same_elements(records);
    if all_printable(facts) {
        assert forall|i: int| 0 <= i < structured(facts).len() implies (#[trigger] structured(
            facts,
        )[i]).is_flat() by {
            let r = structured(facts)[i];
            assert(distinct(records).contains(r));
            assert(records.contains(r));
            let j = choose|j: int| 0 <= j < records.len() && records[j] == r;
            assert(facts[j].regular() && facts[j].printable);
        }
    }
    if forall|i: int|
        0 <= i < structured(facts).len() ==> (#[trigger] structured(facts)[i]).is_flat() {
        assert forall|j: int| 0 <= j < facts.len() implies (#[trigger] facts[j]).printable by {
            let r = records[j];
            assert(records.contains(r));
            assert(distinct(records).contains(r));
            let i = choose|i: int| 0 <= i < structured(facts).len() && structured(facts)[i] == r;
            assert(structured(facts)[i].is_flat());
            assert(facts[j].regular());
        }
    }
}

/// Records without repeats are their own structured form.
pub proof fn lemma_distinct_unchanged(records: Seq<TripleModel>)
    requires
        records.no_duplicates(),
    ensures
        distinct(records) == records,
    decreases records.len(),
{
    if records.len() > 0 {
        let rest = records.drop_last();
        lemma_distinct_unchanged(rest);
        if rest.contains(records.last()) {
            let i = choose|i: int| 0 <= i < rest.len() && rest[i] == records.last();
            assert(records[i] == records[records.len() - 1]);
        }
        assert(rest.push(records.last()) =~= records);
    } else {
        assert(records =~= Seq::<TripleModel>::empty());
    }
}

/// A mapper that drops every record never fails and leaves an empty
/// sequence.
pub proof fn law_mapper_drops_all<T, E, M: Fn(&TripleRecord) -> Result<Option<T>, E>>(
    mapper: &M,
    records: Seq<TripleRecord>,
    out: Result<Seq<T>, E>,
)
    requires
        maps_to(mapper, records, out),
        drops_all(mapper),
    ensures
        out matches Ok(values) && values.len() == 0,
{
    let outcomes = choose|outcomes: Seq<Result<Option<T>, E>>|
        #![trigger called_on(mapper, records, outcomes)]
        {
            &&& called_on(mapper, records, outcomes)
            &&& match out {
                Ok(values) => {
                    &&& outcomes.len() == records.len()
                    &&& forall|i: int| 0 <= i < outcomes.len() ==> (#[trigger] outcomes[i]) is Ok
                    &&& values == retained(kept_of(outcomes))
                },
                Err(failure) => outcomes.len() > 0 && outcomes.last() == Err::<Option<T>, E>(
                    failure,
                ),
            }
        };
    assert forall|i: int| 0 <= i < outcomes.len() implies (#[trigger] outcomes[i]) == Ok::<
        Option<T>,
        E,
    >(None) by {
        assert(mapper.ensures((&records[i],), outcomes[i]));
    }
    if outcomes.len() > 0 {
        assert(outcomes[outcomes.len() - 1] is Ok);
    }
    assert forall|i: int| 0 <= i < kept_of(outcomes).len() implies (#[trigger] kept_of(
        outcomes,
    )[i]) is None by {
        assert(outcomes[i] == Ok::<Option<T>, E>(None));
    }
    lemma_retained_none(kept_of(outcomes));
}

/// Without a mapper, a structured response that is not written to a file
/// holds one record for each record of the document: as many as there are
/// statements, where no two statements have the same record.
pub proof fn law_records_without_mapper<
    T,
    E,
    M: Fn(&TripleRecord) -> Result<Option<T>, E>,
    W: FnOnce(&TurtleDoc<'_>, &str, usize, bool) -> Result<(), String>,
>(facts: Seq<Fact>, config: OutputConfig, writer: W, res: Result<Response<T, E>, Error>)
    requires
        responds(facts, config, None::<&M>, writer, res),
        mode_of(crate::record::text_of(config.output_type)) == Ok::<Mode, Seq<char>>(
            Mode::Structured,
        ),
        config.output_file_path is None,
    ensures
        res matches Ok(Response::Records(records)) && records.len() == structured(facts).len(),
        structured(facts).len() <= facts.len(),
        records_of(facts).no_duplicates() ==> structured(facts).len() == facts.len(),
{
    lemma_distinct_same_elements(records_of(facts));
    if records_of(facts).no_duplicates() {
        lemma_distinct_unchanged(records_of(facts));
    }
}

/// The mode that an output type names.
pub fn parse_mode(output_type: &Option<String>) -> (res: Result<Mode, Error>)
    ensures
        match mode_of(crate::record::text_of(*output_type)) {
            Ok(mode) => res == Ok::<Mode, Error>(mode),
            Err(value) => res matches Err(e) && e@ == (ErrorModel {
                kind: ErrorKind::InvalidConfiguration,
                message: invalid_output_text(value),
            }),
        },
{
    match output_type {
        None => Ok(Mode::Structured),
        Some(value) => {
            if *value == String::from_str("structured") {
                Ok(Mode::Structured)
            } else if *value == String::from_str("textual") {
                Ok(Mode::Textual)
            } else {
                Err(Error::invalid_output(value.as_str()))
            }
        },
    }
}

/// The number of statements to write at a time.
pub fn chunk_size(hint: Option<i64>, count: usize) -> (chunk: usize)
    ensures
        chunk == chunk_of(hint, count as nat),
        chunk >= 1,
{
    let size: u64 = match hint {
        Some(h) => {
            if h >= 0 {
                h as u64
            } else if h == i64::MIN {
                0x8000_0000_0000_0000u64
            } else {
                (-h) as u64
            }
        },
        None => 0,
    };
    if size > 0 && size <= usize::MAX as u64 {
        size as usize
    } else if size > usize::MAX as u64 {
        usize::MAX
    } else if count > 0 {
        count
    } else {
        1
    }
}

/// Whether none of the records holds a list.
pub fn all_flat(records: &Vec<TripleRecord>) -> (flat: bool)
    ensures
        flat == forall|i: int| 0 <= i < records.len() ==> (#[trigger] records[i])@.is_flat(),
{
    let mut i: usize = 0;
    while i < records.len()
        invariant
            i <= records.len(),
            forall|j: int| 0 <= j < i ==> (#[trigger] records[j])@.is_flat(),
        decreases records.len() - i,
    {
        if !records[i].is_flat() {
            return false;
        }
        i += 1;
    }
    true
}

/// Keeps what the mapper did not drop, in order.
pub fn retain_mapped<T>(outcomes: Vec<Option<T>>) -> (out: Vec<T>)
    ensures
        out@ == retained(outcomes@),
{
    let ghost all = outcomes@;
    let mut out: Vec<T> = Vec::new();
    for outcome in it: outcomes
        invariant
            it.seq() == all,
            out@ == retained(all.take(it.index() as int)),
    {
        proof {
            let upto = all.take(it.index() + 1);
            assert(upto.drop_last() =~= all.take(it.index() as int));
            assert(upto.last() == outcome);
        }
        match outcome {
            Some(value) => {
                out.push(value);
            },
            None => {},
        }
    }
    assert(all.take(all.len() as int) =~= all);
    out
}

/// If every outcome is a drop, nothing is retained.
pub proof fn lemma_retained_none<T>(outcomes: Seq<Option<T>>)
    requires
        forall|i: int| 0 <= i < outcomes.len() ==> (#[trigger] outcomes[i]) is None,
    ensures
        retained(outcomes).len() == 0,
    decreases outcomes.len(),
{
    if outcomes.len() > 0 {
        lemma_retained_none(outcomes.drop_last());
    }
}

/// Nothing is retained that was not an outcome, and never more than there
/// were outcomes.
pub proof fn lemma_retained_bound<T>(outcomes: Seq<Option<T>>)
    ensures
        retained(outcomes).len() <= outcomes.len(),
    decreases outcomes.len(),
{
    if outcomes.len() > 0 {
        lemma_retained_bound(outcomes.drop_last());
    }
}

/// Calls the mapper once on each record, in order, and keeps what it did not
/// drop. Where the mapper fails, the failure comes back and no further record
/// is handed to it.
pub fn map_records<T, E, M: Fn(&TripleRecord) -> Result<Option<T>, E>>(
    records: &Vec<TripleRecord>,
    mapper: &M,
) -> (out: Result<Vec<T>, E>)
    requires
        forall|record: &TripleRecord| mapper.requires((record,)),
    ensures
        maps_to(
            mapper,
            records@,
            match out {
                Ok(values) => Ok(values@),
                Err(failure) => Err(failure),
            },
        ),
        out matches Ok(values) ==> values.len() <= records.len(),
        drops_all(mapper) ==> (out matches Ok(values) && values.len() == 0),
{
    let mut kept: Vec<Option<T>> = Vec::new();
    let ghost mut outcomes: Seq<Result<Option<T>, E>> = Seq::empty();
    let mut i: usize = 0;
    while i < records.len()
        invariant
            i <= records.len(),
            outcomes.len() == i,
            forall|record: &TripleRecord| mapper.requires((record,)),
            forall|j: int| 0 <= j < i ==> mapper.ensures((&records[j],), #[trigger] outcomes[j]),
            forall|j: int| 0 <= j < i ==> (#[trigger] outcomes[j]) is Ok,
            kept@ == kept_of(outcomes),
        decreases records.len() - i,
    {
        let outcome = mapper(&records[i]);
        proof {
            outcomes = outcomes.push(outcome);
        }
        match outcome {
            Ok(value) => {
                kept.push(value);
                assert(kept@ =~= kept_of(outcomes));
            },
            Err(failure) => {
                proof {
                    assert(called_on(mapper, records@, outcomes));
                    assert(outcomes.last() == Err::<Option<T>, E>(failure));
                    assert(maps_to(mapper, records@, Err::<Seq<T>, E>(failure)));
                    if drops_all(mapper) {
                        assert(mapper.ensures((&records[i as int],), outcomes[i as int]));
                    }
                }
                return Err(failure);
            },
        }
        i += 1;
    }
    let values = retain_mapped(kept);
    proof {
        assert(called_on(mapper, records@, outcomes));
        assert(maps_to(mapper, records@, Ok::<Seq<T>, E>(values@)));
        lemma_retained_bound(kept_of(outcomes));
        law_mapper_drops_all_if(mapper, records@, values@);
    }
    Ok(values)
}

/// Where a mapper that drops every record made a sequence, the sequence is
/// empty.
proof fn law_mapper_drops_all_if<T, E, M: Fn(&TripleRecord) -> Result<Option<T>, E>>(
    mapper: &M,
    records: Seq<TripleRecord>,
    values: Seq<T>,
)
    requires
        maps_to(mapper, records, Ok::<Seq<T>, E>(values)),
    ensures
        drops_all(mapper) ==> values.len() == 0,
{
    if drops_all(mapper) {
        law_mapper_drops_all(mapper, records, Ok::<Seq<T>, E>(values));
    }
}

/// Checks that every statement of a document can be written as text.
///
/// The engine tells a list node only in the structured form, so the document's
/// records are looked at.
pub fn check_printable(doc: &TurtleDoc<'_>) -> (res: Result<(), Error>)
    requires
        all_regular(doc_facts(doc)),
    ensures
        match res {
            Ok(_) => all_printable(doc_facts(doc)),
            Err(e) => !all_printable(doc_facts(doc)) && e@ == (ErrorModel {
                kind: ErrorKind::Translation,
                message: unprintable_text(),
            }),
        },
{
    let ghost facts = doc_facts(doc);
    let records = records_from_engine(&doc_to_triples(doc));
    proof {
        lemma_printable_iff_flat(facts);
        assert forall|i: int| 0 <= i < records.len() implies (#[trigger] records[i])@
            == structured(facts)[i] by {
            assert(records[i]@ == models_of(records@)[i]);
        }
    }
    if all_flat(&records) {
        assert forall|i: int| 0 <= i < structured(facts).len() implies (#[trigger] structured(
            facts,
        )[i]).is_flat() by {
            assert(records[i]@.is_flat());
        }
        Ok(())
    } else {
        Err(
            Error::of_text(
                ErrorKind::Translation,
                "a statement with a list node cannot be written as text",
            ),
        )
    }
}

/// Projects a document into what the output configuration asks for.
///
/// The output type is read first. With a file path the writer is handed the
/// document, the path, the number of statements to write at a time and whether
/// to write records; without one the document comes back as a text or as
/// records, the records through the mapper where there is one.
pub fn make_response<
    T,
    E,
    M: Fn(&TripleRecord) -> Result<Option<T>, E>,
    W: FnOnce(&TurtleDoc<'_>, &str, usize, bool) -> Result<(), String>,
>(doc: &TurtleDoc<'_>, config: &OutputConfig, mapper: Option<&M>, writer: W) -> (res: Result<
    Response<T, E>,
    Error,
>)
    requires
        all_regular(doc_facts(doc)),
        mapper_accepts(mapper),
        writer_accepts(writer),
    ensures
        responds(doc_facts(doc), *config, mapper, writer, res),
{
    let mode = match parse_mode(&config.output_type) {
        Ok(mode) => mode,
        Err(e) => {
            return Err(e);
        },
    };
    let structured = match mode {
        Mode::Structured => true,
        Mode::Textual => {
            match check_printable(doc) {
                Ok(_) => {},
                Err(e) => {
                    return Err(e);
                },
            }
            false
        },
    };
    match &config.output_file_path {
        Some(path) => {
            let chunk = chunk_size(config.buf_size, doc_len(doc));
            let target = path.as_str();
            let outcome = writer(doc, target, chunk, structured);
            let res = match outcome {
                Ok(_) => Ok(Response::Written),
                Err(message) => Err(Error::new(ErrorKind::Io, message)),
            };
            assert(writer.ensures((doc, target, chunk, structured), outcome));
            assert(writes(doc_facts(doc), path@, chunk, structured, writer, res));
            res
        },
        None => if structured {
            let records = records_from_engine(&doc_to_triples(doc));
            match mapper {
                None => Ok(Response::Records(records)),
                Some(f) => match map_records(&records, f) {
                    Ok(values) => Ok(Response::Mapped(values)),
                    Err(failure) => Ok(Response::Interrupted(failure)),
                },
            }
        } else {
            Ok(Response::Text(doc_to_text(doc)))
        },
    }
}

} // verus!
