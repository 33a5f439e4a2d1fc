use crate::text::{chars_of, decimal_value, parse_decimal, split_chars, split_on, parts_view, ParseIntError};
use std::str::FromStr;
use vstd::prelude::*;

verus! {

/// A date of which the month, or the month and the day, may be unknown.
///
/// The three variants are three different resolutions: a date known up to the
/// year never equals one known up to the month, whatever the year.
#[derive(Debug, Clone, Copy, PartialEq, Eq, Structural)]
pub enum Date {
    /// Date with resolution up to a year.
    Year { year: u16 },
    /// Date with resolution up to a month.
    Month { year: u16, month: u8 },
    /// Date with resolution up to a day.
    Day { year: u16, month: u8, day: u8 },
}

impl View for Date {
    type V = Date;

    open spec fn view(&self) -> Date {
        *self
    }
}

/// Why a text is not a date.
#[derive(Debug, Clone, Copy, PartialEq, Eq, Structural)]
pub enum ParseDateError {
    /// A wrong number of `-` separated components was found in the string.
    WrongNumberOfComponents(usize),
    /// Failed parsing a component into the appropriate number type.
    ComponentInvalid(ParseIntError),
}

/// One component of a date: a decimal number of at most `limit`.
pub open spec fn date_component(s: Seq<char>, limit: nat) -> Result<nat, ParseDateError> {
    match decimal_value(s, limit) {
        Ok(v) => Ok(v),
        Err(e) => Err(ParseDateError::ComponentInvalid(e)),
    }
}

/// The date that `s` spells: one, two or three components separated by `-`,
/// the year first. The components are read in that order and the first one
/// that is no number of its type decides the failure.
pub open spec fn parse_date(s: Seq<char>) -> Result<Date, ParseDateError> {
    let parts = split_on(s, '-');
    if parts.len() == 1 {
        match date_component(parts[0], u16::MAX as nat) {
            Err(e) => Err(e),
            Ok(year) => Ok(Date::Year { year: year as u16 }),
        }
    } else if parts.len() == 2 {
        match date_component(parts[0], u16::MAX as nat) {
            Err(e) => Err(e),
            Ok(year) => match date_component(parts[1], u8::MAX as nat) {
                Err(e) => Err(e),
                Ok(month) => Ok(Date::Month { year: year as u16, month: month as u8 }),
            },
        }
    } else if parts.len() == 3 {
        match date_component(parts[0], u16::MAX as nat) {
            Err(e) => Err(e),
            Ok(year) => match date_component(parts[1], u8::MAX as nat) {
                Err(e) => Err(e),
                Ok(month) => match date_component(parts[2], u8::MAX as nat) {
                    Err(e) => Err(e),
                    Ok(day) => Ok(
                        Date::Day { year: year as u16, month: month as u8, day: day as u8 },
                    ),
                },
            },
        }
    } else {
        Err(ParseDateError::WrongNumberOfComponents(parts.len() as usize))
    }
}

impl Date {
    pub open spec fn spec_year(&self) -> u16 {
        match *self {
            Date::Year { year } => year,
            Date::Month { year, .. } => year,
            Date::Day { year, .. } => year,
        }
    }

    pub open spec fn spec_month(&self) -> u8 {
        match *self {
            Date::Year { .. } => 0,
            Date::Month { month, .. } => month,
            Date::Day { month, .. } => month,
        }
    }

    pub open spec fn spec_day(&self) -> u8 {
        match *self {
            Date::Year { .. } => 0,
            Date::Month { .. } => 0,
            Date::Day { day, .. } => day,
        }
    }

    /// Return the year from the date.
    #[verifier::when_used_as_spec(spec_year)]
    pub fn year(&self) -> (r: u16)
        ensures
            r == self.spec_year(),
    {
        match *self {
            Date::Year { year } => year,
            Date::Month { year, .. } => year,
            Date::Day { year, .. } => year,
        }
    }

    /// Return the month from the date.
    ///
    /// A date known only up to the year has no month: 0 is returned then, which
    /// is no month and stands for "absent".
    #[verifier::when_used_as_spec(spec_month)]
    pub fn month(&self) -> (r: u8)
        ensures
            r == self.spec_month(),
    {
        match *self {
            Date::Year { .. } => 0,
            Date::Month { month, .. } => month,
            Date::Day { month, .. } => month,
        }
    }

    /// Return the day from the date.
    ///
    /// A date known only up to the year or the month has no day: 0 is returned
    /// then, which is no day and stands for "absent".
    #[verifier::when_used_as_spec(spec_day)]
    pub fn day(&self) -> (r: u8)
        ensures
            r == self.spec_day(),
    {
        match *self {
            Date::Year { .. } => 0,
            Date::Month { .. } => 0,
            Date::Day { day, .. } => day,
        }
    }

    /// Reads a date from the characters `chars`.
    pub fn from_chars(chars: &Vec<char>) -> (r: Result<Date, ParseDateError>)
        ensures
            r == parse_date(chars@),
    {
        let parts = split_chars(chars, '-');
        assert(parts_view(parts@).len() == parts.len());
        assert(forall|i: int| 0 <= i < parts.len() ==> parts_view(parts@)[i] == parts@[i]@);
        if parts.len() == 1 {
            let year = Self::component(&parts[0], u16::MAX as u64)?;
            Ok(Date::Year { year: year as u16 })
        } else if parts.len() == 2 {
            let year = Self::component(&parts[0], u16::MAX as u64)?;
            let month = Self::component(&parts[1], u8::MAX as u64)?;
            Ok(Date::Month { year: year as u16, month: month as u8 })
        } else if parts.len() == 3 {
            let year = Self::component(&parts[0], u16::MAX as u64)?;
            let month = Self::component(&parts[1], u8::MAX as u64)?;
            let day = Self::component(&parts[2], u8::MAX as u64)?;
            Ok(Date::Day { year: year as u16, month: month as u8, day: day as u8 })
        } else {
            Err(ParseDateError::WrongNumberOfComponents(parts.len()))
        }
    }

    fn component(chars: &Vec<char>, limit: u64) -> (r: Result<u64, ParseDateError>)
        ensures
            match r {
                Ok(v) => v <= limit && date_component(chars@, limit as nat) == Ok::<
                    nat,
                    ParseDateError,
                >(v as nat),
                Err(e) => date_component(chars@, limit as nat) == Err::<nat, ParseDateError>(e),
            },
    {
        match parse_decimal(chars, limit) {
            Ok(v) => {
                proof {
                    crate::text::lemma_decimal_value_bounded(chars@, limit as nat);
                }
                Ok(v)
            },
            Err(e) => Err(ParseDateError::ComponentInvalid(e)),
        }
    }

    /// Reads a date from `s`.
    pub fn from_str(s: &str) -> (r: Result<Date, ParseDateError>)
        ensures
            r == parse_date(s@),
    {
        let chars = chars_of(s);
        Date::from_chars(&chars)
    }
}

/// The resolution of a date that was read is the number of components of its
/// text: one gives a year, two a month, three a day, and any other number is a
/// failure that names it. No component is ever filled in.
pub proof fn lemma_date_resolution(s: Seq<char>)
    ensures
        parse_date(s) matches Ok(date) ==> {
            &&& date is Year <==> split_on(s, '-').len() == 1
            &&& date is Month <==> split_on(s, '-').len() == 2
            &&& date is Day <==> split_on(s, '-').len() == 3
        },
        !(1 <= split_on(s, '-').len() <= 3) ==> parse_date(s) == Err::<Date, ParseDateError>(
            ParseDateError::WrongNumberOfComponents(split_on(s, '-').len() as usize),
        ),
{
}

impl FromStr for Date {
    type Err = ParseDateError;

    /// Reads a date from `s`, as `Date::from_str` does.
    fn from_str(s: &str) -> (r: Result<Self, Self::Err>)
        ensures
            r == parse_date(s@),
    {
        Date::from_str(s)
    }
}

} // verus!
