//! A quarter of a given year: construction, the quarter that follows, and
//! reading one from text.

use crate::decimal::{decimal_text, year_from_chars, year_of_text};
use crate::error::ParseQuarterError;
use crate::quarter_number::QuarterNumber;
use crate::text::{chars_of, find_first_space, first_space, lemma_first_space_is_unique};
use vstd::prelude::*;
use vstd::slice::slice_subrange;

verus! {

/// A quarter of a calendar year. Every pairing of a quarter number with a
/// year is a quarter: there is nothing to validate once one exists.
#[derive(Debug, Clone, Copy, PartialEq, Eq, Structural)]
pub struct Quarter {
    pub quarter_number: QuarterNumber,
    pub year: u16,
}

/// How many quarters there are before the years start over: four for each
/// of the 65536 years.
pub open spec fn quarters_in_cycle() -> int {
    4 * 65536int
}

/// The year after `year`. The last year, 65535, is followed by year 0.
pub open spec fn year_after(year: u16) -> u16 {
    if year == u16::MAX {
        0
    } else {
        (year + 1) as u16
    }
}

impl Quarter {
    /// The quarter's place on the line of all quarters, counted from the
    /// first quarter of year 0.
    pub open spec fn ordinal(self) -> int {
        self.year * 4 + self.quarter_number.number() - 1
    }

    /// The quarter that follows this one: the next quarter number, in the
    /// same year unless this is a fourth quarter.
    pub open spec fn next_spec(self) -> Quarter {
        Quarter {
            quarter_number: self.quarter_number.successor(),
            year: if self.quarter_number == QuarterNumber::Q4 {
                year_after(self.year)
            } else {
                self.year
            },
        }
    }

    /// The canonical text of the quarter: its token, one space, and the
    /// year as the shortest decimal numeral, as in `Q2 2023`.
    pub open spec fn text(self) -> Seq<char> {
        self.quarter_number.token() + seq![' '] + decimal_text(self.year as nat)
    }

    /// What `parse` makes of a text. The text is cut at its first space;
    /// what stands before must name a quarter, what stands after must
    /// denote a year. A text without a space, or with either part amiss,
    /// gives the error.
    pub open spec fn parse_spec(s: Seq<char>) -> Result<Quarter, ParseQuarterError> {
        if !s.contains(' ') {
            Err(ParseQuarterError)
        } else {
            let cut = first_space(s);
            match (QuarterNumber::parse_spec(s.take(cut)), year_of_text(s.skip(cut + 1))) {
                (Ok(quarter_number), Some(year)) => Ok(Quarter { quarter_number, year }),
                _ => Err(ParseQuarterError),
            }
        }
    }

    /// Pairs a quarter number with a year. Nothing is validated: every year
    /// is accepted.
    pub fn new(quarter_number: QuarterNumber, year: u16) -> (r: Quarter)
        ensures
            r == (Quarter { quarter_number, year }),
    {
        Quarter { quarter_number, year }
    }

    /// The chronologically next quarter. The year advances only from a
    /// fourth quarter to a first. The years wrap around: the fourth quarter
    /// of year 65535 is followed by the first quarter of year 0.
    pub fn next_quarter(&self) -> (r: Quarter)
        ensures
            r == self.next_spec(),
            r.ordinal() == (self.ordinal() + 1) % quarters_in_cycle(),
    {
        proof {
            assert(quarters_in_cycle() == 262144);
            assert(0 <= self.ordinal() < 262144);
        }
        match self.quarter_number {
            QuarterNumber::Q1 => Quarter { year: self.year, quarter_number: QuarterNumber::Q2 },
            QuarterNumber::Q2 => Quarter { year: self.year, quarter_number: QuarterNumber::Q3 },
            QuarterNumber::Q3 => Quarter { year: self.year, quarter_number: QuarterNumber::Q4 },
            QuarterNumber::Q4 => Quarter {
                year: self.year.wrapping_add(1),
                quarter_number: QuarterNumber::Q1,
            },
        }
    }

    /// Reads a quarter from a text of the form `Q2 2023`: a quarter token,
    /// one space, a decimal year. The text is cut at its first space, so
    /// anything after the year, a second space included, spoils the year.
    /// Nothing is trimmed.
    pub fn parse(text: &str) -> (r: Result<Quarter, ParseQuarterError>)
        ensures
            r == Quarter::parse_spec(text@),
    {
        let chars = chars_of(text);
        let cut: usize = match find_first_space(chars.as_slice()) {
            Some(i) => i,
            None => {
                return Err(ParseQuarterError);
            },
        };
        proof {
            lemma_first_space_is_unique(chars@, cut as int);
        }
        let token = slice_subrange(chars.as_slice(), 0, cut);
        let quarter_number = match QuarterNumber::from_chars(token) {
            Ok(q) => q,
            Err(e) => {
                return Err(e);
            },
        };
        match year_from_chars(chars.as_slice(), cut + 1) {
            Some(year) => Ok(Quarter { quarter_number, year }),
            None => Err(ParseQuarterError),
        }
    }
}

/// Reading a quarter with `str::parse` is `Quarter::parse`.
impl core::str::FromStr for Quarter {
    type Err = ParseQuarterError;

    fn from_str(s: &str) -> (r: Result<Quarter, ParseQuarterError>)
        ensures
            r == Quarter::parse_spec(s@),
    {
        Quarter::parse(s)
    }
}

} // verus!
