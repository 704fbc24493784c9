//! The four quarters of a year, and how one is read from text or from a
//! small integer.

use crate::error::ParseQuarterError;
use crate::text::chars_of;
use vstd::prelude::*;

verus! {

/// One of the four quarters of a year.
#[derive(Debug, Clone, Copy, PartialEq, Eq, Structural)]
pub enum QuarterNumber {
    Q1,
    Q2,
    Q3,
    Q4,
}

impl QuarterNumber {
    /// The position of the quarter within its year, from 1 to 4.
    pub open spec fn number(self) -> int {
        match self {
            QuarterNumber::Q1 => 1,
            QuarterNumber::Q2 => 2,
            QuarterNumber::Q3 => 3,
            QuarterNumber::Q4 => 4,
        }
    }

    /// The decimal digit that writes `number()`.
    pub open spec fn digit(self) -> char {
        match self {
            QuarterNumber::Q1 => '1',
            QuarterNumber::Q2 => '2',
            QuarterNumber::Q3 => '3',
            QuarterNumber::Q4 => '4',
        }
    }

    /// The canonical token of the quarter: `Q1`, `Q2`, `Q3` or `Q4`.
    pub open spec fn token(self) -> Seq<char> {
        seq!['Q', self.digit()]
    }

    /// The token with a lowercase letter: `q1`, `q2`, `q3` or `q4`.
    pub open spec fn lowercase_token(self) -> Seq<char> {
        seq!['q', self.digit()]
    }

    /// Whether `s` names this quarter, the letter in either case.
    pub open spec fn is_named_by(self, s: Seq<char>) -> bool {
        s == self.token() || s == self.lowercase_token()
    }

    /// The quarter that follows this one, Q4 being followed by Q1.
    pub open spec fn successor(self) -> QuarterNumber {
        match self {
            QuarterNumber::Q1 => QuarterNumber::Q2,
            QuarterNumber::Q2 => QuarterNumber::Q3,
            QuarterNumber::Q3 => QuarterNumber::Q4,
            QuarterNumber::Q4 => QuarterNumber::Q1,
        }
    }

    /// What `parse` makes of a text: the quarter that the text names, or the
    /// error where it names none. Nothing is trimmed and nothing but the
    /// letter's case is forgiven.
    pub open spec fn parse_spec(s: Seq<char>) -> Result<QuarterNumber, ParseQuarterError> {
        if QuarterNumber::Q1.is_named_by(s) {
            Ok(QuarterNumber::Q1)
        } else if QuarterNumber::Q2.is_named_by(s) {
            Ok(QuarterNumber::Q2)
        } else if QuarterNumber::Q3.is_named_by(s) {
            Ok(QuarterNumber::Q3)
        } else if QuarterNumber::Q4.is_named_by(s) {
            Ok(QuarterNumber::Q4)
        } else {
            Err(ParseQuarterError)
        }
    }

    /// What `from_integer` makes of an integer: 1 to 4 give the quarter with
    /// that number, every other value the error.
    pub open spec fn from_integer_spec(value: u8) -> Result<QuarterNumber, ParseQuarterError> {
        if value == 1 {
            Ok(QuarterNumber::Q1)
        } else if value == 2 {
            Ok(QuarterNumber::Q2)
        } else if value == 3 {
            Ok(QuarterNumber::Q3)
        } else if value == 4 {
            Ok(QuarterNumber::Q4)
        } else {
            Err(ParseQuarterError)
        }
    }

    /// Reads a quarter token from a sequence of characters.
    pub(crate) fn from_chars(chars: &[char]) -> (r: Result<QuarterNumber, ParseQuarterError>)
        ensures
            r == QuarterNumber::parse_spec(chars@),
    {
        if chars.len() != 2 {
            return Err(ParseQuarterError);
        }
        let letter: char = chars[0];
        let digit: char = chars[1];
        if letter != 'Q' && letter != 'q' {
            return Err(ParseQuarterError);
        }
        let found = if digit == '1' {
            QuarterNumber::Q1
        } else if digit == '2' {
            QuarterNumber::Q2
        } else if digit == '3' {
            QuarterNumber::Q3
        } else if digit == '4' {
            QuarterNumber::Q4
        } else {
            return Err(ParseQuarterError);
        };
        assert(chars@ =~= seq![letter, digit]);
        Ok(found)
    }

    /// Reads a quarter token: `Q1`, `Q2`, `Q3` or `Q4`, the letter in either
    /// case. Any other text is an error; surrounding whitespace is not
    /// trimmed.
    pub fn parse(text: &str) -> (r: Result<QuarterNumber, ParseQuarterError>)
        ensures
            r == QuarterNumber::parse_spec(text@),
            forall|q: QuarterNumber|
                r == Ok::<QuarterNumber, ParseQuarterError>(q) <==> q.is_named_by(text@),
    {
        let chars = chars_of(text);
        QuarterNumber::from_chars(chars.as_slice())
    }

    /// Converts the position of a quarter within its year, 1 to 4, to the
    /// quarter. Every other integer is an error.
    pub fn from_integer(value: u8) -> (r: Result<QuarterNumber, ParseQuarterError>)
        ensures
            r == QuarterNumber::from_integer_spec(value),
            r is Ok <==> 1 <= value <= 4,
            r is Ok ==> r->Ok_0.number() == value,
    {
        match value {
            1 => Ok(QuarterNumber::Q1),
            2 => Ok(QuarterNumber::Q2),
            3 => Ok(QuarterNumber::Q3),
            4 => Ok(QuarterNumber::Q4),
            _ => Err(ParseQuarterError),
        }
    }
}

/// Reading a quarter number with `str::parse` is `QuarterNumber::parse`.
impl core::str::FromStr for QuarterNumber {
    type Err = ParseQuarterError;

    fn from_str(s: &str) -> (r: Result<QuarterNumber, ParseQuarterError>)
        ensures
            r == QuarterNumber::parse_spec(s@),
    {
        QuarterNumber::parse(s)
    }
}

/// Converting from a `u8` is `QuarterNumber::from_integer`.
impl TryFrom<u8> for QuarterNumber {
    type Error = ParseQuarterError;

    fn try_from(value: u8) -> (r: Result<QuarterNumber, ParseQuarterError>)
        ensures
            r == QuarterNumber::from_integer_spec(value),
    {
        QuarterNumber::from_integer(value)
    }
}

impl vstd::std_specs::convert::TryFromSpecImpl<u8> for QuarterNumber {
    open spec fn obeys_try_from_spec() -> bool {
        true
    }

    open spec fn try_from_spec(value: u8) -> Result<QuarterNumber, ParseQuarterError> {
        QuarterNumber::from_integer_spec(value)
    }
}

} // verus!
