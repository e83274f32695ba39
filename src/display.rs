//! Text of the score, with thousands grouped.
use vstd::prelude::*;
use num_format::{Locale, ToFormattedString};

verus! {

pub open spec fn digit(d: int) -> char {
    seq!['0', '1', '2', '3', '4', '5', '6', '7', '8', '9'][d]
}

/// The decimal digits of `n`.
pub open spec fn decimal(n: nat) -> Seq<char>
    decreases n,
{
    if n < 10 {
        seq![digit(n as int)]
    } else {
        decimal(n / 10).push(digit((n % 10) as int))
    }
}

/// The three decimal digits of `n < 1000`, with leading zeros.
pub open spec fn three_digits(n: nat) -> Seq<char> {
    seq![digit((n / 100) as int), digit((n / 10 % 10) as int), digit((n % 10) as int)]
}

/// The decimal digits of `n` in groups of three from the right, separated
/// by commas.
pub open spec fn grouped(n: nat) -> Seq<char>
    decreases n,
{
    if n < 1000 {
        decimal(n)
    } else {
        grouped(n / 1000) + seq![','] + three_digits(n % 1000)
    }
}

/// Relies on num_format's `ToFormattedString::to_formatted_string` with
/// `Locale::en`, whose separator is "," and whose grouping is by threes.
#[verifier::external_body]
fn to_formatted_en(n: u32) -> (r: String)
    ensures
        r@ == grouped(n as nat),
{
    n.to_formatted_string(&Locale::en)
}

/// The score as the display shows it.
pub fn format_score(score: u32) -> (r: String)
    ensures
        r@ == grouped(score as nat),
{
    to_formatted_en(score)
}

} // verus!
