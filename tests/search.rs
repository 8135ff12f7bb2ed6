use city_pop::record::decode_population;
use city_pop::search::{search, search_records};
use city_pop::{DecodeError, PopulationCount, RowError, SearchError};

const HEADER: &str = "country,city,accent_city,region,population,latitude,longitude\n";

fn dataset(rows: &[&str]) -> Vec<u8> {
    let mut text = String::from(HEADER);
    for row in rows {
        text.push_str(row);
        text.push('\n');
    }
    text.into_bytes()
}

fn triples(found: &[PopulationCount]) -> Vec<(String, String, u64)> {
    found
        .iter()
        .map(|p| (p.city.clone(), p.country.clone(), p.count))
        .collect()
}

fn springfield_data() -> Vec<u8> {
    dataset(&[
        "us,springfield,Springfield,IL,1000,,",
        "us,springfield,Springfield,MO,2000,,",
        "us,boston,Boston,MA,,,",
    ])
}

#[test]
fn springfield_matches_in_order() {
    let found = search(&springfield_data(), "springfield").unwrap();
    assert_eq!(
        triples(&found),
        vec![
            ("springfield".to_string(), "us".to_string(), 1000),
            ("springfield".to_string(), "us".to_string(), 2000),
        ]
    );
}

#[test]
fn boston_without_population_is_not_found() {
    let r = search(&springfield_data(), "boston");
    assert!(matches!(r, Err(SearchError::NotFound)));
}

#[test]
fn absent_city_is_not_found() {
    let r = search(&springfield_data(), "chicago");
    assert!(matches!(r, Err(SearchError::NotFound)));
}

#[test]
fn matching_is_case_sensitive() {
    let data = dataset(&["my,Kuala Lumpur,Kuala Lumpur,14,1453975,3.1666667,101.7"]);
    assert!(matches!(search(&data, "kuala lumpur"), Err(SearchError::NotFound)));
    let found = search(&data, "Kuala Lumpur").unwrap();
    assert_eq!(
        triples(&found),
        vec![("Kuala Lumpur".to_string(), "my".to_string(), 1453975)]
    );
}

#[test]
fn absent_population_is_skipped_not_failed() {
    let data = dataset(&[
        "us,salem,Salem,MA,,42.5,-70.9",
        "us,salem,Salem,OR,154637,44.9,-123.0",
        "us,salem,Salem,VA,,,",
    ]);
    let found = search(&data, "salem").unwrap();
    assert_eq!(triples(&found), vec![("salem".to_string(), "us".to_string(), 154637)]);
}

#[test]
fn bad_population_aborts_after_earlier_match() {
    let data = dataset(&[
        "us,springfield,Springfield,IL,1000,,",
        "us,springfield,Springfield,MO,lots,,",
    ]);
    let r = search(&data, "springfield");
    assert!(matches!(r, Err(SearchError::Decode(DecodeError::Row(RowError::BadPopulation)))));
}

#[test]
fn bad_population_in_other_city_aborts() {
    let data = dataset(&[
        "us,springfield,Springfield,IL,1000,,",
        "us,boston,Boston,MA,-5,,",
    ]);
    let r = search(&data, "springfield");
    assert!(matches!(r, Err(SearchError::Decode(DecodeError::Row(RowError::BadPopulation)))));
}

#[test]
fn too_few_fields_is_a_decode_failure() {
    let records = vec![vec!["us".to_string(), "springfield".to_string(), "Springfield".to_string()]];
    let r = search_records(&records, "springfield");
    assert!(matches!(r, Err(SearchError::Decode(DecodeError::Row(RowError::TooFewFields)))));
    let data = b"country,city,accent_city\nus,springfield,Springfield\n".to_vec();
    assert!(matches!(search(&data, "springfield"), Err(SearchError::Decode(DecodeError::Row(RowError::TooFewFields)))));
}

#[test]
fn unequal_record_lengths_are_malformed() {
    let data = dataset(&["us,springfield,Springfield,IL,1000,,", "us,springfield"]);
    let r = search(&data, "springfield");
    assert!(matches!(r, Err(SearchError::Decode(DecodeError::Csv(_)))));
}

#[test]
fn search_twice_gives_the_same_matches() {
    let data = springfield_data();
    let first = triples(&search(&data, "springfield").unwrap());
    let second = triples(&search(&data, "springfield").unwrap());
    assert_eq!(first, second);
    assert!(matches!(search(&data, "boston"), Err(SearchError::NotFound)));
    assert!(matches!(search(&data, "boston"), Err(SearchError::NotFound)));
}

#[test]
fn quoted_fields_are_unquoted() {
    let data = dataset(&["us,\"springfield\",\"Springfield, IL\",IL,\"1000\",,"]);
    let found = search(&data, "springfield").unwrap();
    assert_eq!(triples(&found), vec![("springfield".to_string(), "us".to_string(), 1000)]);
}

#[test]
fn header_row_is_not_a_record() {
    let data = b"us,springfield,Springfield,IL,1000,,\n".to_vec();
    assert!(matches!(search(&data, "springfield"), Err(SearchError::NotFound)));
}

#[test]
fn extra_fields_are_ignored() {
    let records = vec![vec![
        "us".to_string(),
        "springfield".to_string(),
        "Springfield".to_string(),
        "IL".to_string(),
        "1000".to_string(),
        String::new(),
        String::new(),
        "extra".to_string(),
    ]];
    let found = search_records(&records, "springfield").unwrap();
    assert_eq!(triples(&found), vec![("springfield".to_string(), "us".to_string(), 1000)]);
}

#[test]
fn empty_input_is_not_found() {
    assert!(matches!(search(b"", "springfield"), Err(SearchError::NotFound)));
    assert!(matches!(search_records(&Vec::new(), "springfield"), Err(SearchError::NotFound)));
}

#[test]
fn population_fields() {
    assert_eq!(decode_population(""), Some(None));
    assert_eq!(decode_population("1000"), Some(Some(1000)));
    assert_eq!(decode_population(" 42 "), Some(Some(42)));
    assert_eq!(decode_population("+7"), Some(Some(7)));
    assert_eq!(decode_population("0"), Some(Some(0)));
    assert_eq!(decode_population("18446744073709551615"), Some(Some(u64::MAX)));
    assert_eq!(decode_population("18446744073709551616"), None);
    assert_eq!(decode_population("abc"), None);
    assert_eq!(decode_population("-1"), None);
    assert_eq!(decode_population(" "), None);
}

#[test]
fn not_found_message() {
    assert_eq!(
        SearchError::NotFound.message(),
        "No matching criteria with a population were found."
    );
    assert_eq!(SearchError::Io("gone".to_string()).message(), "gone");
}

#[test]
fn population_count_new_keeps_fields() {
    let p = PopulationCount::new("springfield".to_string(), "us".to_string(), 1000);
    assert_eq!(p.city, "springfield");
    assert_eq!(p.country, "us");
    assert_eq!(p.count, 1000);
}

#[test]
fn decode_messages() {
    let short = SearchError::Decode(DecodeError::Row(RowError::TooFewFields));
    assert_eq!(short.message(), "a record has fewer than seven fields");
    let bad = SearchError::Decode(DecodeError::Row(RowError::BadPopulation));
    assert_eq!(bad.message(), "a population is not an unsigned integer");
    let data = dataset(&["us,springfield,Springfield,IL,1000,,", "us,springfield"]);
    match search(&data, "springfield") {
        Err(SearchError::Decode(DecodeError::Csv(m))) => {
            assert!(!m.is_empty());
            let e = SearchError::Decode(DecodeError::Csv(m.clone()));
            assert_eq!(e.message(), m);
        }
        other => panic!("unexpected outcome: {:?}", other),
    }
}
