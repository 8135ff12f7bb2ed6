//! Laws of the search, over the models of its inputs.

use vstd::prelude::*;
use crate::record::{record_decodes, record_population};
use crate::search::{
    count_of, lemma_scan_failure_stays, outcome, result_view, scan, search_outcome, selects,
    DecodeFailure, Failure, PopulationCount, SearchError,
};

verus! {

/// Every record of the sequence decodes.
pub open spec fn all_decode(recs: Seq<Seq<Seq<char>>>) -> bool {
    forall|i: int| 0 <= i < recs.len() ==> record_decodes(#[trigger] recs[i])
}

/// The matches of the records that are selected, in their order.
pub open spec fn selected(recs: Seq<Seq<Seq<char>>>, city: Seq<char>) -> Seq<(Seq<char>, Seq<char>, u64)> {
    recs.filter(|r: Seq<Seq<char>>| selects(r, city)).map_values(|r: Seq<Seq<char>>| count_of(r))
}

proof fn lemma_scan_is_selection(recs: Seq<Seq<Seq<char>>>, city: Seq<char>)
    requires
        all_decode(recs),
    ensures
        scan(recs, city) == Ok::<_, Failure>(selected(recs, city)),
    decreases recs.len(),
{
    reveal(Seq::filter);
    let p = |r: Seq<Seq<char>>| selects(r, city);
    let f = |r: Seq<Seq<char>>| count_of(r);
    if recs.len() == 0 {
        assert(selected(recs, city) =~= Seq::empty());
    } else {
        let rest = recs.drop_last();
        assert(all_decode(rest)) by {
            assert forall|i: int| 0 <= i < rest.len() implies record_decodes(#[trigger] rest[i]) by {
                assert(rest[i] == recs[i]);
            }
        }
        lemma_scan_is_selection(rest, city);
        assert(record_decodes(recs[recs.len() - 1]));
        if p(recs.last()) {
            assert(recs.filter(p) == rest.filter(p).push(recs.last()));
            assert(rest.filter(p).push(recs.last()).map_values(f) =~= rest.filter(p).map_values(f).push(
                count_of(recs.last()),
            ));
        } else {
            assert(recs.filter(p) == rest.filter(p));
        }
    }
}

/// When every record decodes and one of them names the city with a
/// population, the search succeeds with exactly the matches of the selected
/// records, in input order, and at least one.
pub proof fn lemma_matches_in_order(recs: Seq<Seq<Seq<char>>>, city: Seq<char>, k: int)
    requires
        all_decode(recs),
        0 <= k < recs.len(),
        selects(recs[k], city),
    ensures
        outcome(recs, city) == Ok::<_, Failure>(selected(recs, city)),
        selected(recs, city).len() > 0,
{
    lemma_scan_is_selection(recs, city);
    broadcast use vstd::seq_lib::group_filter_ensures;

    assert(recs.filter(|r: Seq<Seq<char>>| selects(r, city)).contains(recs[k]));
}

/// When every record decodes and none names the city with a population
/// (the city is absent, or its records lack one), the search fails with
/// `NotFound`.
pub proof fn lemma_no_match_not_found(recs: Seq<Seq<Seq<char>>>, city: Seq<char>)
    requires
        all_decode(recs),
        forall|i: int| 0 <= i < recs.len() ==> !selects(#[trigger] recs[i], city),
    ensures
        outcome(recs, city) == Err::<Seq<(Seq<char>, Seq<char>, u64)>, _>(Failure::NotFound),
    decreases recs.len(),
{
    lemma_scan_none(recs, city);
}

proof fn lemma_scan_none(recs: Seq<Seq<Seq<char>>>, city: Seq<char>)
    requires
        all_decode(recs),
        forall|i: int| 0 <= i < recs.len() ==> !selects(#[trigger] recs[i], city),
    ensures
        scan(recs, city) == Ok::<_, Failure>(Seq::<(Seq<char>, Seq<char>, u64)>::empty()),
    decreases recs.len(),
{
    if recs.len() > 0 {
        let rest = recs.drop_last();
        assert forall|i: int| 0 <= i < rest.len() implies record_decodes(#[trigger] rest[i])
            && !selects(rest[i], city) by {
            assert(rest[i] == recs[i]);
        }
        lemma_scan_none(rest, city);
        assert(record_decodes(recs[recs.len() - 1]) && !selects(recs[recs.len() - 1], city));
    }
}

/// A record that decodes without a population leaves the search as it was,
/// whatever its city: it is neither a match nor a failure.
pub proof fn lemma_absent_population_skipped(
    recs: Seq<Seq<Seq<char>>>,
    rec: Seq<Seq<char>>,
    city: Seq<char>,
)
    requires
        record_decodes(rec),
        record_population(rec) is None,
    ensures
        scan(recs.push(rec), city) == scan(recs, city),
{
    assert(recs.push(rec).drop_last() =~= recs);
}

proof fn lemma_scan_fails_on_decode(recs: Seq<Seq<Seq<char>>>, city: Seq<char>)
    ensures
        scan(recs, city) is Err ==> scan(recs, city)->Err_0 matches Failure::Decode(DecodeFailure::Row(_)),
    decreases recs.len(),
{
    if recs.len() > 0 {
        lemma_scan_fails_on_decode(recs.drop_last(), city);
    }
}

/// A record that does not decode, anywhere in the input, fails the search
/// with a decode failure: earlier matches are not returned.
pub proof fn lemma_decode_failure_aborts(recs: Seq<Seq<Seq<char>>>, k: int, city: Seq<char>)
    requires
        0 <= k < recs.len(),
        !record_decodes(recs[k]),
    ensures
        outcome(recs, city) is Err,
        outcome(recs, city)->Err_0 matches Failure::Decode(DecodeFailure::Row(_)),
{
    let prefix = recs.take(k + 1);
    assert(prefix.drop_last() =~= recs.take(k));
    assert(prefix.last() == recs[k]);
    lemma_scan_failure_stays(recs, k + 1, city);
    lemma_scan_fails_on_decode(recs, city);
}

/// Two searches of the same bytes for the same city give the same outcome,
/// matches in the same order.
pub proof fn lemma_search_repeatable(
    data: Seq<u8>,
    city: Seq<char>,
    first: Result<Vec<PopulationCount>, SearchError>,
    second: Result<Vec<PopulationCount>, SearchError>,
)
    requires
        result_view(first) == search_outcome(data, city),
        result_view(second) == search_outcome(data, city),
    ensures
        result_view(first) == result_view(second),
{
}

} // verus!
