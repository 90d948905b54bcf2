//! Reading a number from text and working with it.

use vstd::prelude::*;

verus! {

/// What `str::parse::<i32>` makes of the text: the number it spells, or
/// `None` where it spells none.
pub uninterp spec fn parsed_i32(text: Seq<char>) -> Option<i32>;

/// Calls `str::parse::<i32>` and keeps the number, dropping the reason of a
/// failure. Which texts spell a number is the standard library's to say, so
/// the result is only given a name.
#[verifier::external_body]
fn parse_i32(input: &str) -> (parsed: Option<i32>)
    ensures
        parsed == parsed_i32(input@),
{
    input.parse::<i32>().ok()
}

/// Twice `number` is still an `i32`.
pub open spec fn double_fits(number: i32) -> bool {
    i32::MIN <= 2 * number <= i32::MAX
}

/// The complaint about a text that spells no number.
pub open spec fn not_a_number(input: Seq<char>) -> Seq<char> {
    "'"@ + input + "' is not a valid number"@
}

/// `result` is what processing `input` gives once it has been read as
/// `parsed`: twice the number, or the complaint that it is none.
pub open spec fn processed(
    input: Seq<char>,
    parsed: Option<i32>,
    result: Result<i32, String>,
) -> bool {
    match parsed {
        Some(number) => result == Ok::<i32, String>((2 * number) as i32),
        None => result matches Err(complaint) && complaint@ == not_a_number(input),
    }
}

/// Doubles the number that `input` was read as, or complains that `input`
/// is no number.
pub fn double_parsed(input: &str, parsed: Option<i32>) -> (result: Result<i32, String>)
    requires
        parsed matches Some(number) ==> double_fits(number),
    ensures
        processed(input@, parsed, result),
{
    match parsed {
        Some(number) => Ok(number * 2),
        None => Err("'".to_owned().concat(input).concat("' is not a valid number")),
    }
}

/// Reads `input` as a number and doubles it, or complains that it is none.
pub fn process_number(input: &str) -> (result: Result<i32, String>)
    requires
        parsed_i32(input@) matches Some(number) ==> double_fits(number),
    ensures
        processed(input@, parsed_i32(input@), result),
{
    double_parsed(input, parse_i32(input))
}

/// Reads `input` as a number and doubles it where the double is still an
/// `i32`; `None` where it is not.
pub fn try_process_number(input: &str) -> (result: Option<Result<i32, String>>)
    ensures
        match result {
            Some(inner) => processed(input@, parsed_i32(input@), inner) && (parsed_i32(input@) matches Some(
                number,
            ) ==> double_fits(number)),
            None => parsed_i32(input@) matches Some(number) && !double_fits(number),
        },
{
    match parse_i32(input) {
        Some(number) => {
            if number > i32::MAX / 2 || number < i32::MIN / 2 {
                None
            } else {
                Some(process_number(input))
            }
        },
        None => Some(process_number(input)),
    }
}

} // verus!
