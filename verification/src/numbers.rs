//! Numbers read from text, as the standard library reads them.

use vstd::prelude::*;

use crate::text::{
    all_digits, decimal, law_decimal_round_trip, law_numbers_are_digits, lemma_decimal_digits,
    unsigned_value,
};

verus! {

/// `std::num::ParseIntError`, the reason for which a text is no integer.
#[verifier::external_type_specification]
#[verifier::external_body]
pub struct ExParseIntError(std::num::ParseIntError);

/// The message of an error: what `Display` for `std::num::ParseIntError` writes.
pub uninterp spec fn int_error_text(error: std::num::ParseIntError) -> Seq<char>;

/// The message with which `u32::from_str` refuses a text.
pub uninterp spec fn u32_refusal(text: Seq<char>) -> Seq<char>;

/// The number in a text, where there is one and it fits in 32 bits.
pub open spec fn u32_value(text: Seq<char>) -> Option<u32> {
    match unsigned_value(text) {
        Some(n) => if n <= u32::MAX {
            Some(n as u32)
        } else {
            None
        },
        None => None,
    }
}

/// Calls `u32::from_str`: an optional `+` followed by digits alone, at least one,
/// that make a number of at most 32 bits. Which message the error has depends on
/// the text alone.
#[verifier::external_body]
pub(crate) fn parse_u32(text: &str) -> (parsed: Result<u32, std::num::ParseIntError>)
    ensures
        parsed is Ok <==> u32_value(text@) is Some,
        parsed matches Ok(n) ==> u32_value(text@) == Some(n),
        parsed matches Err(error) ==> int_error_text(error) == u32_refusal(text@),
{
    text.parse::<u32>()
}

/// Calls `Display` for `std::num::ParseIntError`: the text is the error's message.
#[verifier::external_body]
pub(crate) fn int_error_message(error: &std::num::ParseIntError) -> (text: String)
    ensures
        text@ == int_error_text(*error),
{
    error.to_string()
}

/// A number that fits in 32 bits is read as itself, signed or not; one that does
/// not fit is refused, and so is a text with anything but digits behind the sign.
pub proof fn law_u32_is_read_back(n: nat, s: Seq<char>)
    ensures
        n <= 4_294_967_295 ==> u32_value(decimal(n)) == Some(n as u32),
        n > 4_294_967_295 ==> u32_value(decimal(n)) is None,
        n <= 4_294_967_295 ==> u32_value(seq!['+'] + decimal(n)) == Some(n as u32),
        s.len() == 0 ==> u32_value(s) is None,
        s.len() > 0 && s[0] != '+' && !all_digits(s) ==> u32_value(s) is None,
        u32_value(s) matches Some(v) ==> unsigned_value(s) == Some(v as nat),
{
    law_decimal_round_trip(n);
    lemma_decimal_digits(n);
    law_numbers_are_digits(decimal(n), '0');
    law_numbers_are_digits(s, '0');
}

} // verus!
