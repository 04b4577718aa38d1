use tvdb::data::Date;
use tvdb::error::TvdbError;
use tvdb::parse::{dateify, intify, u32_to_string};

#[test]
fn test_date_parser_good() {
    let d = dateify("2001-02-03");
    println!("Parsed date as {:?}", d);

    assert!(d.is_ok());
    let d = d.unwrap();
    assert!(d.year == 2001);
    assert!(d.month == 2);
    assert!(d.day == 3);
}

#[test]
fn test_date_parser_bad() {
    assert!(dateify("blah").is_err());
    assert!(dateify("2001-02").is_err());
    assert!(dateify("2001-02-blah").is_err());
}

#[test]
fn test_date_parser_names_input() {
    match dateify("2001-02") {
        Err(TvdbError::DataError { reason }) => {
            assert_eq!(reason, "Malformed YYYY-MM-DD date: 2001-02");
        }
        other => panic!("expected DataError, got {:?}", other),
    }
}

#[test]
fn test_date_equality() {
    let d = dateify("1999-12-31").unwrap();
    assert_eq!(d, Date { year: 1999, month: 12, day: 31 });
}

#[test]
fn test_date_extra_dashes_fail() {
    assert!(dateify("2001-02-03-04").is_err());
    assert!(dateify("-2001-02-03").is_err());
    assert!(dateify("").is_err());
}

#[test]
fn test_intify_values() {
    assert_eq!(intify("123").unwrap(), 123);
    assert_eq!(intify("0").unwrap(), 0);
    assert_eq!(intify("+41").unwrap(), 41);
    assert_eq!(intify("4294967295").unwrap(), 4294967295);
}

#[test]
fn test_intify_rejects() {
    assert!(intify("").is_err());
    assert!(intify("+").is_err());
    assert!(intify("12a").is_err());
    assert!(intify("-1").is_err());
    assert!(intify("4294967296").is_err());
    assert!(intify("99999999999999999999").is_err());
    match intify("blah") {
        Err(TvdbError::DataError { reason }) => {
            assert_eq!(reason, "Malformed unsigned integer: blah");
        }
        other => panic!("expected DataError, got {:?}", other),
    }
}

#[test]
fn test_u32_to_string() {
    assert_eq!(u32_to_string(0), "0");
    assert_eq!(u32_to_string(7), "7");
    assert_eq!(u32_to_string(184603), "184603");
    assert_eq!(u32_to_string(4294967295), "4294967295");
}
