use am_api::date::year_or_date::YearOrDate;
use time::{Date, Month};

#[test]
fn text_without_a_dash_is_read_as_a_year() {
    assert_eq!(YearOrDate::read("2023"), Some(YearOrDate::Year(2023)));
    assert_eq!(YearOrDate::read("1969"), Some(YearOrDate::Year(1969)));
    assert_eq!(YearOrDate::read("7"), Some(YearOrDate::Year(7)));
    assert_eq!(YearOrDate::read("+12"), Some(YearOrDate::Year(12)));
    assert_eq!(YearOrDate::read("0"), Some(YearOrDate::Year(0)));
    assert_eq!(YearOrDate::read("32767"), Some(YearOrDate::Year(32767)));
}

#[test]
fn text_with_a_dash_is_read_as_a_date() {
    let date = Date::from_calendar_date(2023, Month::February, 24).unwrap();
    assert_eq!(YearOrDate::read("2023-02-24"), Some(YearOrDate::Date(date)));
    let date = Date::from_calendar_date(1999, Month::December, 31).unwrap();
    assert_eq!(YearOrDate::read("1999-12-31"), Some(YearOrDate::Date(date)));
    let date = Date::from_calendar_date(2024, Month::February, 29).unwrap();
    assert_eq!(YearOrDate::read("2024-02-29"), Some(YearOrDate::Date(date)));
}

#[test]
fn what_is_neither_a_year_nor_a_date_is_not_read() {
    assert_eq!(YearOrDate::read(""), None);
    assert_eq!(YearOrDate::read("soon"), None);
    assert_eq!(YearOrDate::read("32768"), None);
    assert_eq!(YearOrDate::read("20 23"), None);
    assert_eq!(YearOrDate::read("2023-13-01"), None);
    assert_eq!(YearOrDate::read("2023-02-30"), None);
    assert_eq!(YearOrDate::read("2023-02"), None);
    assert_eq!(YearOrDate::read("-"), None);
}

#[test]
fn a_negative_year_has_a_dash_and_is_taken_for_a_date() {
    assert_eq!(YearOrDate::read("-44"), None);
}

#[test]
fn the_parts_decide_what_is_read() {
    let date = Date::from_calendar_date(2023, Month::February, 24).unwrap();
    assert_eq!(YearOrDate::pick(true, Some(1), Some(date)), Some(YearOrDate::Date(date)));
    assert_eq!(YearOrDate::pick(true, Some(1), None), None);
    assert_eq!(YearOrDate::pick(false, Some(1), Some(date)), Some(YearOrDate::Year(1)));
    assert_eq!(YearOrDate::pick(false, None, Some(date)), None);
}

#[test]
fn a_year_is_written_in_a_width_of_four() {
    assert_eq!(YearOrDate::Year(2023).to_string(), "2023");
    assert_eq!(YearOrDate::Year(476).to_string(), " 476");
    assert_eq!(YearOrDate::Year(7).to_string(), "   7");
    assert_eq!(YearOrDate::Year(0).to_string(), "   0");
    assert_eq!(YearOrDate::Year(-5).to_string(), "  -5");
    assert_eq!(YearOrDate::Year(-44).to_string(), " -44");
    assert_eq!(YearOrDate::Year(-753).to_string(), "-753");
    assert_eq!(YearOrDate::Year(12345).to_string(), "12345");
    assert_eq!(YearOrDate::Year(i16::MIN).to_string(), "-32768");
    assert_eq!(YearOrDate::Year(i16::MAX).to_string(), "32767");
}

#[test]
fn every_year_is_written_as_the_formatter_writes_it() {
    for year in i16::MIN..=i16::MAX {
        assert_eq!(YearOrDate::Year(year).to_string(), format!("{:4}", year));
    }
}

#[test]
fn a_date_is_written_as_year_month_and_day() {
    let date = Date::from_calendar_date(2023, Month::February, 24).unwrap();
    assert_eq!(YearOrDate::Date(date).to_string(), "2023-02-24");
}

#[test]
fn years_come_before_dates() {
    let date = Date::from_calendar_date(1, Month::January, 1).unwrap();
    assert!(YearOrDate::Year(2023) < YearOrDate::Date(date));
    assert!(YearOrDate::Year(1) < YearOrDate::Year(2));
}

#[test]
fn a_year_is_read_as_the_standard_library_reads_it() {
    let texts = [
        "", "+", "0", "+0", "+5", "007", "00032767", "32767", "32768", "+32767", "+32768", "65536",
        "99999999999999999999", "0000000000000000000000000000001", "1a", "a1", " 1", "1 ", "1_000",
        "1.0", "1e3", "0x10", "++1", "+ 1", "\u{663}", "\u{ff11}", "12\u{e9}", "2018", "1", "9",
        "10", "99", "100", "999", "1000", "9999", "10000", "30000", "32760", "32769", "40000",
    ];
    for text in texts {
        let expected = text.parse::<i16>().ok().map(YearOrDate::Year);
        assert_eq!(YearOrDate::read(text), expected);
    }
}

#[test]
fn every_year_from_nought_on_is_read_back_from_its_digits() {
    for year in 0..=i16::MAX {
        assert_eq!(YearOrDate::read(&year.to_string()), Some(YearOrDate::Year(year)));
        assert_eq!(YearOrDate::read(&format!("+{:05}", year)), Some(YearOrDate::Year(year)));
    }
}
