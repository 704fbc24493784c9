//! What holds of the conversions and of `next_quarter` taken together.

use crate::decimal::{
    all_digits, decimal_text, decimal_value, is_digit, lemma_decimal_text_denotes,
    without_plus_sign, year_of_text,
};
use crate::error::ParseQuarterError;
use crate::quarter::{year_after, Quarter};
use crate::quarter_number::QuarterNumber;
use crate::text::{
    first_space, is_first_space, lemma_first_space_is_found, lemma_first_space_is_unique,
};
use vstd::prelude::*;

verus! {

/// Each quarter's token names that quarter and no other, with the letter in
/// either case.
pub proof fn lemma_token_names_its_quarter(q: QuarterNumber)
    ensures
        QuarterNumber::parse_spec(q.token()) == Ok::<QuarterNumber, ParseQuarterError>(q),
        QuarterNumber::parse_spec(q.lowercase_token()) == Ok::<QuarterNumber, ParseQuarterError>(
            q,
        ),
{
    let upper = q.token();
    let lower = q.lowercase_token();
    assert forall|p: QuarterNumber| p != q implies !p.is_named_by(upper) && !p.is_named_by(
        lower,
    ) by {
        assert(upper[1] == q.digit() && lower[1] == q.digit());
        assert(p.token()[1] == p.digit() && p.lowercase_token()[1] == p.digit());
    }
}

/// Four steps of `next_quarter` lead to the same quarter of the following
/// year: from any quarter of year `y` below 65535 to that quarter of year
/// `y + 1`, and from year 65535, after which the years start over, to year 0.
pub proof fn lemma_four_quarters_make_a_year(q: Quarter)
    ensures
        q.next_spec().next_spec().next_spec().next_spec() == (Quarter {
            quarter_number: q.quarter_number,
            year: year_after(q.year),
        }),
        q.year < u16::MAX ==> q.next_spec().next_spec().next_spec().next_spec().year == q.year
            + 1,
{
}

/// Between two quarters that follow each other the year changes only from a
/// fourth quarter to a first.
pub proof fn lemma_year_changes_after_fourth_quarter_only(q: Quarter)
    ensures
        q.next_spec().year != q.year <==> q.quarter_number == QuarterNumber::Q4,
        q.next_spec().year != q.year <==> q.next_spec().quarter_number == QuarterNumber::Q1,
{
}

/// Reading the canonical text of a quarter gives that quarter back.
pub proof fn lemma_parse_reads_canonical_text(q: Quarter)
    ensures
        Quarter::parse_spec(q.text()) == Ok::<Quarter, ParseQuarterError>(q),
{
    let t = q.text();
    let numeral = decimal_text(q.year as nat);
    lemma_decimal_text_denotes(q.year as nat);
    lemma_token_names_its_quarter(q.quarter_number);
    assert(t[0] == 'Q');
    assert(t[1] == q.quarter_number.digit());
    assert(is_first_space(t, 2));
    lemma_first_space_is_unique(t, 2);
    assert(t.take(2) =~= q.quarter_number.token());
    assert(t.skip(3) =~= numeral);
    assert(is_digit(numeral[0]));
    assert(without_plus_sign(numeral) == numeral);
    assert(all_digits(numeral) && decimal_value(numeral) == q.year);
    assert(year_of_text(numeral) == Some(q.year));
}

/// A text reads as a quarter exactly when it is a name of the quarter's
/// number, then one space, then a numeral of the quarter's year.
pub proof fn lemma_parse_accepts_token_space_year(s: Seq<char>, q: Quarter)
    ensures
        Quarter::parse_spec(s) == Ok::<Quarter, ParseQuarterError>(q) <==> {
            &&& s.len() >= 3
            &&& q.quarter_number.is_named_by(s.take(2))
            &&& s[2] == ' '
            &&& year_of_text(s.skip(3)) == Some(q.year)
        },
{
    lemma_token_names_its_quarter(q.quarter_number);
    if Quarter::parse_spec(s) == Ok::<Quarter, ParseQuarterError>(q) {
        lemma_first_space_is_found(s);
        let cut = first_space(s);
        let name = s.take(cut);
        assert(QuarterNumber::parse_spec(name) == Ok::<QuarterNumber, ParseQuarterError>(
            q.quarter_number,
        ));
        assert(q.quarter_number.is_named_by(name));
        assert(name.len() == 2);
    }
    if s.len() >= 3 && q.quarter_number.is_named_by(s.take(2)) && s[2] == ' ' {
        let name = s.take(2);
        assert(name[0] == s[0] && name[1] == s[1]);
        assert(name[1] == q.quarter_number.digit());
        assert(is_first_space(s, 2));
        lemma_first_space_is_unique(s, 2);
    }
}

} // verus!
