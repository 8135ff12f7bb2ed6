//! Selecting the records of one city that carry a population.

use vstd::prelude::*;
use crate::record::{decode_row, record_decodes, record_population, decode_failure, RowError};

verus! {

/// One match: a city, its country and its population.
#[derive(Debug)]
pub struct PopulationCount {
    pub city: String,
    pub country: String,
    pub count: u64,
}

impl View for PopulationCount {
    type V = (Seq<char>, Seq<char>, u64);

    open spec fn view(&self) -> (Seq<char>, Seq<char>, u64) {
        (self.city@, self.country@, self.count)
    }
}

impl PopulationCount {
    pub fn new(city: String, country: String, count: u64) -> (r: PopulationCount)
        ensures
            r@ == (city@, country@, count),
    {
        PopulationCount { city, country, count }
    }
}

/// Why the data could not be decoded into rows.
#[derive(Debug)]
pub enum DecodeError {
    /// The bytes could not be split into records; holds the reader's message.
    Csv(String),
    /// A record could not be decoded into a row.
    Row(RowError),
}

/// Why a search gave no matches.
#[derive(Debug)]
pub enum SearchError {
    /// The source could not be opened or read; holds the system's message.
    Io(String),
    /// The data could not be decoded; the scan stopped there.
    Decode(DecodeError),
    /// The whole input was read and no record matched with a population.
    NotFound,
}

/// The mathematical value of a [`DecodeError`].
pub enum DecodeFailure {
    Csv(Seq<char>),
    Row(RowError),
}

/// The mathematical value of a [`SearchError`].
pub enum Failure {
    Io(Seq<char>),
    Decode(DecodeFailure),
    NotFound,
}

impl View for DecodeError {
    type V = DecodeFailure;

    open spec fn view(&self) -> DecodeFailure {
        match self {
            DecodeError::Csv(m) => DecodeFailure::Csv(m@),
            DecodeError::Row(e) => DecodeFailure::Row(*e),
        }
    }
}

impl View for SearchError {
    type V = Failure;

    open spec fn view(&self) -> Failure {
        match self {
            SearchError::Io(m) => Failure::Io(m@),
            SearchError::Decode(e) => Failure::Decode(e@),
            SearchError::NotFound => Failure::NotFound,
        }
    }
}

impl SearchError {
    /// A message for a person to read; a wrapped cause's own message is
    /// passed on as it is.
    pub fn message(&self) -> (r: String)
        ensures
            self is Io ==> r@ == self->Io_0@,
            self matches SearchError::Decode(DecodeError::Csv(m)) ==> r@ == m@,
            self matches SearchError::Decode(DecodeError::Row(RowError::TooFewFields))
                ==> r@ == "a record has fewer than seven fields"@,
            self matches SearchError::Decode(DecodeError::Row(RowError::BadPopulation))
                ==> r@ == "a population is not an unsigned integer"@,
            self is NotFound ==> r@ == "No matching criteria with a population were found."@,
    {
        match self {
            SearchError::Io(m) => m.clone(),
            SearchError::Decode(DecodeError::Csv(m)) => m.clone(),
            SearchError::Decode(DecodeError::Row(RowError::TooFewFields)) => "a record has fewer than seven fields".to_owned(),
            SearchError::Decode(DecodeError::Row(RowError::BadPopulation)) => "a population is not an unsigned integer".to_owned(),
            SearchError::NotFound => "No matching criteria with a population were found.".to_owned(),
        }
    }
}

/// What the records of a dataset hold, header left out, as `csv` reads them
/// from its bytes; or the message of the error that it stops on.
pub uninterp spec fn csv_records_of(data: Seq<u8>) -> Result<Seq<Seq<Seq<char>>>, Seq<char>>;

pub open spec fn records_view(r: Result<Vec<Vec<String>>, String>) -> Result<Seq<Seq<Seq<char>>>, Seq<char>> {
    match r {
        Ok(v) => Ok(v.deep_view()),
        Err(m) => Err(m@),
    }
}

/// Relies on `csv::Reader::from_bytes` and `Reader::records` (csv 0.15):
/// the first record is the header and is skipped, records of another length
/// than the first are an error, and the outcome depends on the bytes alone.
#[verifier::external_body]
fn read_records(data: &[u8]) -> (r: Result<Vec<Vec<String>>, String>)
    ensures
        records_view(r) == csv_records_of(data@),
{
    let mut reader = csv::Reader::from_bytes(data.to_vec());
    match reader.records().collect::<Result<Vec<Vec<String>>, csv::Error>>() {
        Ok(records) => Ok(records),
        Err(e) => Err(e.to_string()),
    }
}

/// A record is selected when it decodes, has a population and names the
/// city exactly.
pub open spec fn selects(rec: Seq<Seq<char>>, city: Seq<char>) -> bool {
    record_decodes(rec) && record_population(rec) is Some && rec[1] == city
}

/// The match that a selected record gives.
pub open spec fn count_of(rec: Seq<Seq<char>>) -> (Seq<char>, Seq<char>, u64) {
    (rec[1], rec[0], record_population(rec)->Some_0)
}

/// Reads the records in order: the matches so far, or the failure of the
/// first record that does not decode.
pub open spec fn scan(recs: Seq<Seq<Seq<char>>>, city: Seq<char>) -> Result<Seq<(Seq<char>, Seq<char>, u64)>, Failure>
    decreases recs.len(),
{
    if recs.len() == 0 {
        Ok(Seq::empty())
    } else {
        match scan(recs.drop_last(), city) {
            Err(f) => Err(f),
            Ok(found) => {
                let rec = recs.last();
                if !record_decodes(rec) {
                    Err(Failure::Decode(DecodeFailure::Row(decode_failure(rec))))
                } else if selects(rec, city) {
                    Ok(found.push(count_of(rec)))
                } else {
                    Ok(found)
                }
            },
        }
    }
}

/// The outcome of a search over decoded records: no match is a failure.
pub open spec fn outcome(recs: Seq<Seq<Seq<char>>>, city: Seq<char>) -> Result<Seq<(Seq<char>, Seq<char>, u64)>, Failure> {
    match scan(recs, city) {
        Ok(found) => if found.len() == 0 {
            Err(Failure::NotFound)
        } else {
            Ok(found)
        },
        Err(f) => Err(f),
    }
}

/// The outcome of a search over the bytes of a dataset.
pub open spec fn search_outcome(data: Seq<u8>, city: Seq<char>) -> Result<Seq<(Seq<char>, Seq<char>, u64)>, Failure> {
    match csv_records_of(data) {
        Ok(recs) => outcome(recs, city),
        Err(m) => Err(Failure::Decode(DecodeFailure::Csv(m))),
    }
}

pub open spec fn result_view(r: Result<Vec<PopulationCount>, SearchError>) -> Result<Seq<(Seq<char>, Seq<char>, u64)>, Failure> {
    match r {
        Ok(v) => Ok(v@.map_values(|p: PopulationCount| p@)),
        Err(e) => Err(e@),
    }
}

/// Once a prefix of the records fails, the whole scan fails the same way.
pub proof fn lemma_scan_failure_stays(recs: Seq<Seq<Seq<char>>>, k: int, city: Seq<char>)
    requires
        0 <= k <= recs.len(),
        scan(recs.take(k), city) is Err,
    ensures
        scan(recs, city) == scan(recs.take(k), city),
    decreases recs.len(),
{
    if k < recs.len() {
        assert(recs.drop_last().take(k) =~= recs.take(k));
        lemma_scan_failure_stays(recs.drop_last(), k, city);
    } else {
        assert(recs.take(k) =~= recs);
    }
}

/// Selects, in order, the records that name `city` and carry a population.
/// A record that does not decode ends the search with its failure; a search
/// that selects nothing fails with `NotFound`.
pub fn search_records(records: &Vec<Vec<String>>, city: &str) -> (r: Result<Vec<PopulationCount>, SearchError>)
    ensures
        result_view(r) == outcome(records.deep_view(), city@),
{
    let ghost recs = records.deep_view();
    let target = city.to_owned();
    let mut found: Vec<PopulationCount> = Vec::new();
    let mut i: usize = 0;
    assert(recs.take(0) =~= Seq::<Seq<Seq<char>>>::empty());
    assert(found@.map_values(|p: PopulationCount| p@) =~= Seq::empty());
    while i < records.len()
        invariant
            0 <= i <= records.len(),
            recs == records.deep_view(),
            target@ == city@,
            scan(recs.take(i as int), city@) == Ok::<_, Failure>(found@.map_values(|p: PopulationCount| p@)),
        decreases records.len() - i,
    {
        assert(recs.take(i + 1).drop_last() =~= recs.take(i as int));
        assert(recs.take(i + 1).last() == records[i as int].deep_view());
        match decode_row(&records[i]) {
            Err(e) => {
                proof {
                    lemma_scan_failure_stays(recs, i + 1, city@);
                }
                return Err(SearchError::Decode(DecodeError::Row(e)));
            },
            Ok(row) => {
                match row.population {
                    None => {},
                    Some(count) => {
                        if row.city == target {
                            found.push(PopulationCount::new(row.city, row.country, count));
                        }
                    },
                }
            },
        }
        assert(found@.map_values(|p: PopulationCount| p@) =~= scan(recs.take(i + 1), city@)->Ok_0);
        i = i + 1;
    }
    assert(recs.take(i as int) =~= recs);
    if found.len() == 0 {
        Err(SearchError::NotFound)
    } else {
        Ok(found)
    }
}

/// Searches the bytes of a dataset, header first, for the records that
/// name `city` with a population. Data that cannot be split into records
/// fails with a decode error that holds the reader's message; otherwise as
/// [`search_records`].
pub fn search(data: &[u8], city: &str) -> (r: Result<Vec<PopulationCount>, SearchError>)
    ensures
        result_view(r) == search_outcome(data@, city@),
{
    match read_records(data) {
        Ok(records) => search_records(&records, city),
        Err(m) => Err(SearchError::Decode(DecodeError::Csv(m))),
    }
}

} // verus!
