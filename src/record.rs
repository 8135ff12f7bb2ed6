//! Decoding one comma-separated record into a [`Row`].

use vstd::prelude::*;

verus! {

/// The number of columns that a record must hold.
pub const COLUMNS: usize = 7;

/// What `str::trim` returns for a string.
pub uninterp spec fn trim_of(s: Seq<char>) -> Seq<char>;

/// Relies on `str::trim`: the result depends on the characters alone.
#[verifier::external_body]
fn trimmed(s: &str) -> (r: &str)
    ensures
        r@ == trim_of(s@),
{
    s.trim()
}

pub open spec fn is_digit(c: char) -> bool {
    '0' <= c && c <= '9'
}

/// The value of a string of decimal digits.
pub open spec fn digits_value(s: Seq<char>) -> nat
    decreases s.len(),
{
    if s.len() == 0 {
        0
    } else {
        digits_value(s.drop_last()) * 10 + ((s.last() as u32 - '0' as u32) as nat)
    }
}

/// The digits of an unsigned decimal, with one leading `+` taken off.
pub open spec fn unsigned_digits(s: Seq<char>) -> Seq<char> {
    if s.len() > 0 && s[0] == '+' {
        s.subrange(1, s.len() as int)
    } else {
        s
    }
}

/// What `u64::from_str` gives: a nonempty run of decimal digits, after an
/// optional `+`, whose value fits in 64 bits.
pub open spec fn decimal_u64(s: Seq<char>) -> Option<u64> {
    let d = unsigned_digits(s);
    if d.len() > 0 && (forall|i: int| 0 <= i < d.len() ==> is_digit(#[trigger] d[i]))
        && digits_value(d) <= u64::MAX {
        Some(digits_value(d) as u64)
    } else {
        None
    }
}

/// Relies on `u64::from_str`: an optional `+`, then decimal digits, no
/// other characters, and a value that fits.
#[verifier::external_body]
fn parse_u64(s: &str) -> (r: Option<u64>)
    ensures
        r == decimal_u64(s@),
{
    s.parse::<u64>().ok()
}

/// An optional numeric field: an empty field is absent (`Some(None)`); any
/// other field holds a number once trimmed, or is malformed (`None`).
pub open spec fn population_field(f: Seq<char>) -> Option<Option<u64>> {
    if f.len() == 0 {
        Some(None)
    } else {
        match decimal_u64(trim_of(f)) {
            Some(n) => Some(Some(n)),
            None => None,
        }
    }
}

/// An optional text field: an empty field is absent.
pub open spec fn text_field(f: Seq<char>) -> Option<Seq<char>> {
    if f.len() == 0 {
        None
    } else {
        Some(f)
    }
}

/// A record decodes when it has all the columns and its population field
/// is empty or a number.
pub open spec fn record_decodes(rec: Seq<Seq<char>>) -> bool {
    rec.len() >= COLUMNS && population_field(rec[4]) is Some
}

/// The population of a record that decodes.
pub open spec fn record_population(rec: Seq<Seq<char>>) -> Option<u64> {
    match population_field(rec[4]) {
        Some(p) => p,
        None => None,
    }
}

/// Why a record failed to decode.
#[derive(Clone, Copy, Debug, PartialEq, Eq, Structural)]
pub enum RowError {
    /// The record has fewer columns than a row holds.
    TooFewFields,
    /// The population field is neither empty nor an unsigned integer.
    BadPopulation,
}

/// Why a record that does not decode fails.
pub open spec fn decode_failure(rec: Seq<Seq<char>>) -> RowError {
    if rec.len() < COLUMNS {
        RowError::TooFewFields
    } else {
        RowError::BadPopulation
    }
}

/// One decoded record. The coordinates are kept as the text of their
/// fields.
#[derive(Debug)]
pub struct Row {
    pub country: String,
    pub city: String,
    pub accent_city: String,
    pub region: String,
    pub population: Option<u64>,
    pub latitude: Option<String>,
    pub longitude: Option<String>,
}

pub open spec fn opt_view(o: Option<String>) -> Option<Seq<char>> {
    match o {
        Some(s) => Some(s@),
        None => None,
    }
}

fn text_of(f: &String) -> (r: Option<String>)
    ensures
        opt_view(r) == text_field(f@),
{
    if f.as_str().is_empty() {
        None
    } else {
        Some(f.clone())
    }
}

/// Decodes the population field: absent when empty, else its trimmed text
/// read as an unsigned integer.
pub fn decode_population(f: &str) -> (r: Option<Option<u64>>)
    ensures
        r == population_field(f@),
{
    if f.is_empty() {
        Some(None)
    } else {
        match parse_u64(trimmed(f)) {
            Some(n) => Some(Some(n)),
            None => None,
        }
    }
}

/// Decodes a record whose fields are country, city, accent city, region,
/// population, latitude and longitude. Fields past the seventh are ignored.
pub fn decode_row(rec: &Vec<String>) -> (r: Result<Row, RowError>)
    ensures
        r is Ok <==> record_decodes(rec.deep_view()),
        r matches Ok(row) ==> {
            &&& row.country@ == rec@[0]@
            &&& row.city@ == rec@[1]@
            &&& row.accent_city@ == rec@[2]@
            &&& row.region@ == rec@[3]@
            &&& row.population == record_population(rec.deep_view())
            &&& opt_view(row.latitude) == text_field(rec@[5]@)
            &&& opt_view(row.longitude) == text_field(rec@[6]@)
        },
        r matches Err(e) ==> e == decode_failure(rec.deep_view()),
{
    if rec.len() < COLUMNS {
        return Err(RowError::TooFewFields);
    }
    let population = match decode_population(rec[4].as_str()) {
        Some(p) => p,
        None => {
            return Err(RowError::BadPopulation);
        },
    };
    Ok(
        Row {
            country: rec[0].clone(),
            city: rec[1].clone(),
            accent_city: rec[2].clone(),
            region: rec[3].clone(),
            population,
            latitude: text_of(&rec[5]),
            longitude: text_of(&rec[6]),
        },
    )
}

} // verus!
