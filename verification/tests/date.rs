use musicbrainz::entities::{Date, ParseDateError};
use musicbrainz::text::ParseIntError;

#[test]
fn parse_valid() {
    let date1 = Date::from_str("2017").unwrap();
    let date2 = Date::from_str("2017-4").unwrap();
    let date3 = Date::from_str("2017-04-15").unwrap();

    assert_eq!(date1.year(), 2017);
    assert_eq!(date1.month(), 0);
    assert_eq!(date1.day(), 0);
    assert_eq!(date2.year(), 2017);
    assert_eq!(date2.month(), 4);
    assert_eq!(date2.day(), 0);
    assert_eq!(date3.year(), 2017);
    assert_eq!(date3.month(), 4);
    assert_eq!(date3.day(), 15);
}

#[test]
fn wrong_number_comps() {
    let fail = Date::from_str("1-1-1-1");
    assert_eq!(fail.err().unwrap(), ParseDateError::WrongNumberOfComponents(4));
}

#[test]
fn invalid_components() {
    let fail1 = Date::from_str("abc");
    let fail2 = Date::from_str("2017-abc");
    let fail3 = Date::from_str("2017-04-abc");

    let std_err = "abc".parse::<u16>().err().unwrap();
    assert_eq!(*std_err.kind(), std::num::IntErrorKind::InvalidDigit);
    let err = ParseDateError::ComponentInvalid(ParseIntError::InvalidDigit);

    assert_eq!(fail1.err().unwrap(), err);
    assert_eq!(fail2.err().unwrap(), err);
    assert_eq!(fail3.err().unwrap(), err);
}

#[test]
fn it_works() {}
