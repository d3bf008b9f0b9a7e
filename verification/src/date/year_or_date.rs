//! Year or date

use crate::text::{decimal, lemma_decimal_of_five_digits, push_char, to_decimal};
use time::Date;
use vstd::prelude::*;
use vstd::string::StringExecFns;

verus! {

/// Year or date
#[derive(Debug, Copy, Clone, PartialEq, Eq, PartialOrd, Ord, Hash)]
pub enum YearOrDate {
    /// Year
    Year(i16),
    /// Date
    Date(Date),
}

/// A run of spaces.
pub open spec fn spaces(count: nat) -> Seq<char> {
    Seq::new(count, |i: int| ' ')
}

/// The digits of a year, with a minus sign before them where the year is negative.
pub open spec fn signed_year(year: i16) -> Seq<char> {
    if year < 0 {
        seq!['-'] + decimal((-year) as nat)
    } else {
        decimal(year as nat)
    }
}

/// A year as it is displayed: in a width of four, with spaces before what is shorter.
pub open spec fn year_text(year: i16) -> Seq<char> {
    let written = signed_year(year);
    if written.len() < 4 {
        spaces((4 - written.len()) as nat) + written
    } else {
        written
    }
}

/// Whether a character is one of the ten digits.
pub open spec fn is_digit(c: char) -> bool {
    '0' as u32 <= c as u32 && c as u32 <= '9' as u32
}

/// Whether a text is made of digits alone.
pub open spec fn all_digits(text: Seq<char>) -> bool {
    forall|i: int| 0 <= i < text.len() ==> is_digit(#[trigger] text[i])
}

/// The number that digits write in base ten.
pub open spec fn digits_value(digits: Seq<char>) -> nat
    decreases digits.len(),
{
    if digits.len() == 0 {
        0
    } else {
        digits_value(digits.drop_last()) * 10 + (digits.last() as u32 - '0' as u32) as nat
    }
}

/// Whether a text begins with a plus or a minus sign.
pub open spec fn has_sign(text: Seq<char>) -> bool {
    text.len() > 0 && (text[0] == '-' || text[0] == '+')
}

/// The year that a text writes, as `i16::from_str` reads it: an optional sign and then
/// digits, at least one, for a number that an `i16` can hold.
pub open spec fn year_read(text: Seq<char>) -> Option<i16> {
    let digits = if has_sign(text) {
        text.skip(1)
    } else {
        text
    };
    if digits.len() == 0 || !all_digits(digits) {
        None
    } else if has_sign(text) && text[0] == '-' {
        if digits_value(digits) <= 32768 {
            Some((-(digits_value(digits) as int)) as i16)
        } else {
            None
        }
    } else if digits_value(digits) <= 32767 {
        Some(digits_value(digits) as i16)
    } else {
        None
    }
}

/// The first `count` characters of a text without its sign, if it is signed.
pub open spec fn behind_sign(text: Seq<char>, signed: bool, count: int) -> Seq<char> {
    text.subrange(
        if signed {
            1
        } else {
            0
        },
        count,
    )
}

/// Digits that follow on others do not make the number smaller.
proof fn lemma_digits_grow(digits: Seq<char>, c: char)
    requires
        is_digit(c),
    ensures
        digits_value(digits.push(c)) == digits_value(digits) * 10 + (c as u32 - '0' as u32),
        digits_value(digits.push(c)) >= digits_value(digits),
{
    assert(digits.push(c).drop_last() == digits);
}

/// Reads a year as `i16::from_str` does.
fn read_year(text: &str) -> (year: Option<i16>)
    ensures
        year == year_read(text@),
{
    let mut first = true;
    let mut signed = false;
    let mut negative = false;
    let mut digits = true;
    let mut any = false;
    let mut value: u32 = 0;
    let mut too_big = false;
    for c in it: text.chars()
        invariant
            it.seq() == text@,
            first == (it.index() == 0),
            signed == (it.index() > 0 && has_sign(text@)),
            negative == (signed && text@[0] == '-'),
            it.index() <= text@.len(),
            !too_big ==> value <= 32768,
            digits == all_digits(behind_sign(text@, signed, it.index() as int)),
            any == (behind_sign(text@, signed, it.index() as int).len() > 0),
            digits && !too_big ==> value == digits_value(
                behind_sign(text@, signed, it.index() as int),
            ),
            digits && too_big ==> digits_value(behind_sign(text@, signed, it.index() as int))
                > 32768,
    {
        let ghost i = it.index() as int;
        let ghost start: int = if signed {
            1
        } else {
            0
        };
        let ghost seen = behind_sign(text@, signed, i);
        if first && (c == '-' || c == '+') {
            signed = true;
            negative = c == '-';
            assert(text@.subrange(1, 1) =~= seen);
        } else {
            assert(text@.subrange(start, i + 1) =~= seen.push(c));
            let code = c as u32;
            if 48 <= code && code <= 57 {
                proof {
                    lemma_digits_grow(seen, c);
                    assert(is_digit(c));
                    assert(all_digits(seen.push(c)) == all_digits(seen)) by {
                        if all_digits(seen) {
                            assert forall|k: int| 0 <= k < seen.push(c).len() implies is_digit(
                                #[trigger] seen.push(c)[k],
                            ) by {
                                if k < seen.len() {
                                    assert(seen.push(c)[k] == seen[k]);
                                }
                            }
                        } else {
                            let k = choose|k: int| 0 <= k < seen.len() && !is_digit(seen[k]);
                            assert(seen.push(c)[k] == seen[k]);
                        }
                    }
                }
                if !too_big {
                    value = value * 10 + (code - 48);
                    if value > 32768 {
                        too_big = true;
                    }
                }
                any = true;
            } else {
                proof {
                    assert(!is_digit(c));
                    assert(seen.push(c)[seen.len() as int] == c);
                }
                digits = false;
                any = true;
            }
        }
        first = false;
    }
    proof {
        let start: int = if signed {
            1
        } else {
            0
        };
        assert(text@.subrange(start, text@.len() as int) =~= text@.skip(start));
        assert(text@.skip(0) =~= text@);
        if text@.len() == 0 {
            assert(!has_sign(text@));
        }
    }
    if !digits || !any || too_big {
        None
    } else if negative {
        let wide = value as i32;
        Some((-wide) as i16)
    } else if value <= 32767 {
        Some(value as i16)
    } else {
        None
    }
}

/// `Date::parse`, with a description of the form that
/// `time::format_description::parse_borrowed` has read: the date that the text writes
/// in that form, if it writes one.
#[verifier::external_body]
fn read_date(description: &str, text: &str) -> (date: Option<Date>) {
    let description = time::format_description::parse_borrowed::<1>(description).ok()?;
    Date::parse(text, &description).ok()
}

/// `Date::to_string`: the date as it is displayed.
#[verifier::external_body]
fn write_date(date: &Date) -> (text: String) {
    date.to_string()
}

/// Whether a dash stands in a text.
fn has_dash(text: &str) -> (found: bool)
    ensures
        found == text@.contains('-'),
{
    let mut found = false;
    for c in it: text.chars()
        invariant
            it.seq() == text@,
            found == text@.take(it.index() as int).contains('-'),
    {
        proof {
            let i = it.index() as int;
            let before = text@.take(i);
            let after = text@.take(i + 1);
            assert(after == before.push(text@[i]));
            if before.contains('-') {
                let k = choose|k: int| 0 <= k < before.len() && before[k] == '-';
                assert(after[k] == '-');
            }
            if text@[i] == '-' {
                assert(after[i] == '-');
            }
        }
        if c == '-' {
            found = true;
        }
    }
    proof {
        assert(text@.take(text@.len() as int) == text@);
    }
    found
}

/// Writes a year in a width of four.
fn write_year(year: i16) -> (text: String)
    ensures
        text@ == year_text(year),
{
    let negative = year < 0;
    let wide = year as i32;
    let magnitude: usize = if negative {
        (-wide) as usize
    } else {
        wide as usize
    };
    let digits = to_decimal(magnitude);
    let length = digits.as_str().unicode_len();
    proof {
        lemma_decimal_of_five_digits(magnitude as nat);
    }
    let written = if negative {
        length + 1
    } else {
        length
    };
    let mut text = String::new();
    let mut width = written;
    while width < 4
        invariant
            written <= width,
            width <= 4 || width == written,
            text@ == spaces((width - written) as nat),
        decreases 4 - width,
    {
        push_char(&mut text, ' ');
        width += 1;
        assert(text@ =~= spaces((width - written) as nat));
    }
    let ghost padding = text@;
    if negative {
        push_char(&mut text, '-');
    }
    text.append(digits.as_str());
    proof {
        assert(signed_year(year).len() == written);
        assert(spaces(0) =~= Seq::<char>::empty());
        assert(text@ =~= padding + signed_year(year));
        assert(text@ =~= year_text(year));
    }
    text
}

impl YearOrDate {
    /// What is read from a text, once it is known whether a dash stands in it and what
    /// the text writes as a year and as a date: text with a dash is a date, other text
    /// is a year.
    pub fn pick(dashed: bool, year: Option<i16>, date: Option<Date>) -> (read: Option<
        YearOrDate,
    >)
        ensures
            read == (if dashed {
                match date {
                    Some(date) => Some(YearOrDate::Date(date)),
                    None => None,
                }
            } else {
                match year {
                    Some(year) => Some(YearOrDate::Year(year)),
                    None => None,
                }
            }),
    {
        if dashed {
            match date {
                Some(date) => Some(YearOrDate::Date(date)),
                None => None,
            }
        } else {
            match year {
                Some(year) => Some(YearOrDate::Year(year)),
                None => None,
            }
        }
    }

    /// Reads a year or a date as the api writes them.
    ///
    /// Text with a dash in it is read as a date of the form year, month and day; any
    /// other text is read as a year.
    pub fn read(text: &str) -> (read: Option<YearOrDate>)
        ensures
            match read {
                Some(YearOrDate::Year(year)) => !text@.contains('-') && year_read(text@) == Some(
                    year,
                ),
                Some(YearOrDate::Date(_)) => text@.contains('-'),
                None => text@.contains('-') || year_read(text@) is None,
            },
    {
        if has_dash(text) {
            YearOrDate::pick(true, None, read_date("[year]-[month]-[day]", text))
        } else {
            YearOrDate::pick(false, read_year(text), None)
        }
    }

    /// Writes the year or the date as it is displayed.
    ///
    /// A year is written in a width of four.
    pub fn to_string(&self) -> (text: String)
        ensures
            *self matches YearOrDate::Year(year) ==> text@ == year_text(year),
    {
        match self {
            YearOrDate::Year(year) => write_year(*year),
            YearOrDate::Date(date) => write_date(date),
        }
    }
}

} // verus!
