//! Filtering: the rows of a catalog that a query matches, in catalog order.

use crate::emoji::Emoji;
use crate::pattern::{compile, query_language, regex_language, QueryError};
use regex::Regex;
use vstd::prelude::*;

verus! {

/// The test that keeps a record: one of its fields belongs to the language.
pub open spec fn keeps(language: Set<Seq<char>>) -> spec_fn(Emoji) -> bool {
    |record: Emoji| record.matched_by(language)
}

/// The records that a language matches, in the order of `records`.
pub open spec fn matching(records: Seq<Emoji>, language: Set<Seq<char>>) -> Seq<Emoji> {
    records.filter(keeps(language))
}

/// The rows that a query shows of a catalog: the records that its language
/// matches, or `None` where the query does not compile.
pub open spec fn filtered(records: Seq<Emoji>, query: Seq<char>) -> Option<Seq<Emoji>> {
    match query_language(query) {
        Some(language) => Some(matching(records, language)),
        None => None,
    }
}

/// The records that a list of references points at.
pub open spec fn records_of(rows: Seq<&Emoji>) -> Seq<Emoji> {
    rows.map_values(|row: &Emoji| *row)
}

/// The rows of `catalog` that `pattern` matches, in catalog order.
pub fn select_matching<'c>(catalog: &'c [Emoji], pattern: &Regex) -> (rows: Vec<&'c Emoji>)
    ensures
        records_of(rows@) == matching(catalog@, regex_language(*pattern)),
{
    let ghost language = regex_language(*pattern);
    let mut rows: Vec<&'c Emoji> = Vec::new();
    let mut i: usize = 0;
    proof {
        reveal(Seq::filter);
        assert(records_of(rows@) =~= matching(catalog@.take(0), language));
    }
    while i < catalog.len()
        invariant
            i <= catalog.len(),
            language == regex_language(*pattern),
            records_of(rows@) == matching(catalog@.take(i as int), language),
        decreases catalog.len() - i,
    {
        let record: &'c Emoji = &catalog[i];
        let ghost before = rows@;
        if record.contains(pattern) {
            rows.push(record);
            assert(records_of(rows@) =~= records_of(before).push(*record));
        }
        proof {
            let seen = catalog@.take(i as int);
            seen.lemma_filter_push(*record, keeps(language));
            assert(catalog@.take(i + 1) =~= seen.push(*record));
        }
        i += 1;
    }
    proof {
        assert(catalog@.take(i as int) =~= catalog@);
    }
    rows
}

/// Filters a catalog by a query text.
///
/// Fails exactly where the query does not compile. Otherwise the rows are
/// the records that the query's language matches, in catalog order. The
/// empty query shows the whole catalog.
pub fn filter<'c>(catalog: &'c [Emoji], query_text: &str) -> (result: Result<Vec<&'c Emoji>, QueryError>)
    ensures
        match result {
            Ok(rows) => filtered(catalog@, query_text@) == Some(records_of(rows@)),
            Err(e) => e == QueryError::InvalidPattern && filtered(catalog@, query_text@) is None,
        },
        query_text@.len() == 0 ==> result is Ok && records_of(result->Ok_0@) == catalog@,
        result is Ok ==> is_subsequence(records_of(result->Ok_0@), catalog@),
{
    proof {
        lemma_filter_monotone(catalog@, query_text@);
    }
    match compile(query_text) {
        Ok(pattern) => Ok(select_matching(catalog, &pattern)),
        Err(e) => Err(e),
    }
}

/// The language that holds every text keeps every record.
pub proof fn lemma_full_language_keeps_all(records: Seq<Emoji>)
    ensures
        matching(records, Set::<Seq<char>>::full()) == records,
    decreases records.len(),
{
    reveal(Seq::filter);
    if records.len() > 0 {
        lemma_full_language_keeps_all(records.drop_last());
        assert(records.drop_last().push(records.last()) =~= records);
    }
}

/// `at` places `part` inside `whole`: it gives each record of `part` a
/// position in `whole` that holds the same record, and the positions rise.
pub open spec fn places(at: Seq<int>, part: Seq<Emoji>, whole: Seq<Emoji>) -> bool {
    &&& at.len() == part.len()
    &&& forall|k: int|
        0 <= k < part.len() ==> 0 <= #[trigger] at[k] < whole.len() && whole[at[k]] == part[k]
    &&& forall|j: int, k: int| 0 <= j < k < part.len() ==> at[j] < at[k]
}

/// `part` is what is left of `whole` when some records are taken out: every
/// record of `part` is a record of `whole`, and the order is kept.
pub open spec fn is_subsequence(part: Seq<Emoji>, whole: Seq<Emoji>) -> bool {
    exists|at: Seq<int>| places(at, part, whole)
}

/// The records that a language matches are a subsequence of the records
/// filtered: each row comes from the catalog, and rows keep catalog order.
pub proof fn lemma_matching_is_subsequence(records: Seq<Emoji>, language: Set<Seq<char>>)
    ensures
        is_subsequence(matching(records, language), records),
    decreases records.len(),
{
    reveal(Seq::filter);
    if records.len() == 0 {
        assert(places(Seq::<int>::empty(), matching(records, language), records));
    } else {
        let init = records.drop_last();
        lemma_matching_is_subsequence(init, language);
        let at = choose|at: Seq<int>| places(at, matching(init, language), init);
        if records.last().matched_by(language) {
            assert(places(at.push(records.len() - 1), matching(records, language), records));
        } else {
            assert(places(at, matching(records, language), records));
        }
    }
}

/// Filter monotonicity: the empty query shows the whole catalog, in catalog
/// order, and what any query shows is a subsequence of that.
pub proof fn lemma_filter_monotone(records: Seq<Emoji>, query: Seq<char>)
    ensures
        filtered(records, Seq::empty()) == Some(records),
        filtered(records, query) matches Some(rows) ==> is_subsequence(rows, records),
{
    lemma_full_language_keeps_all(records);
    if query_language(query) is Some {
        lemma_matching_is_subsequence(records, query_language(query)->0);
    }
}

/// Filtering is repeatable: what a query shows of a catalog depends on the
/// catalog and the query alone, so two filterings of the same catalog by the
/// same query, each as `filter` states it, show the same rows.
pub proof fn lemma_filter_is_repeatable(
    records: Seq<Emoji>,
    query: Seq<char>,
    first: Seq<Emoji>,
    second: Seq<Emoji>,
)
    requires
        filtered(records, query) == Some(first),
        filtered(records, query) == Some(second),
    ensures
        first == second,
{
}

/// Filtering is idempotent: the rows that a language keeps are all kept
/// when they are filtered by the same language again.
pub proof fn lemma_matching_twice(records: Seq<Emoji>, language: Set<Seq<char>>)
    ensures
        matching(matching(records, language), language) == matching(records, language),
    decreases records.len(),
{
    reveal(Seq::filter);
    if records.len() > 0 {
        let init = records.drop_last();
        lemma_matching_twice(init, language);
        if records.last().matched_by(language) {
            matching(init, language).lemma_filter_push(records.last(), keeps(language));
        }
    }
}

} // verus!
