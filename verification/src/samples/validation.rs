//! Yes-or-no checks on ages, numbers, user names and passwords.

use vstd::prelude::*;
use vstd::utf8::encode_utf8;

verus! {

/// Whether `char::is_uppercase` holds of the character.
pub uninterp spec fn is_uppercase_char(c: char) -> bool;

/// Whether `char::is_lowercase` holds of the character.
pub uninterp spec fn is_lowercase_char(c: char) -> bool;

/// Whether `char::is_numeric` holds of the character.
pub uninterp spec fn is_numeric_char(c: char) -> bool;

/// Calls `char::is_uppercase`. Which characters are upper case is the
/// standard library's to say, so the answer is only given a name.
#[verifier::external_body]
fn is_uppercase(c: char) -> (upper: bool)
    ensures
        upper == is_uppercase_char(c),
{
    c.is_uppercase()
}

/// Calls `char::is_lowercase`. Which characters are lower case is the
/// standard library's to say, so the answer is only given a name.
#[verifier::external_body]
fn is_lowercase(c: char) -> (lower: bool)
    ensures
        lower == is_lowercase_char(c),
{
    c.is_lowercase()
}

/// Calls `char::is_numeric`. Which characters are numeric is the standard
/// library's to say, so the answer is only given a name.
#[verifier::external_body]
fn is_numeric(c: char) -> (numeric: bool)
    ensures
        numeric == is_numeric_char(c),
{
    c.is_numeric()
}

/// A password is strong when it takes at least eight bytes and holds an
/// upper-case character, a lower-case character and a numeric character.
pub open spec fn strong(password: Seq<char>) -> bool {
    &&& encode_utf8(password).len() >= 8
    &&& exists|i: int| 0 <= i < password.len() && is_uppercase_char(#[trigger] password[i])
    &&& exists|i: int| 0 <= i < password.len() && is_lowercase_char(#[trigger] password[i])
    &&& exists|i: int| 0 <= i < password.len() && is_numeric_char(#[trigger] password[i])
}

/// Whether `age` is between 0 and 150.
pub fn is_valid_age(age: i32) -> (valid: bool)
    ensures
        valid == (0 <= age <= 150),
{
    age >= 0 && age <= 150
}

/// Whether `value` lies between `min` and `max`, both included.
pub fn is_in_range(value: i32, min: i32, max: i32) -> (inside: bool)
    ensures
        inside == (min <= value <= max),
{
    value >= min && value <= max
}

/// Whether someone of that age may vote: an adult, registered citizen.
pub fn can_vote(age: i32, is_citizen: bool, is_registered: bool) -> (allowed: bool)
    ensures
        allowed == (age >= 18 && is_citizen && is_registered),
{
    age >= 18 && is_citizen && is_registered
}

/// Whether `username` takes between 3 and 20 bytes.
pub fn is_valid_username(username: &str) -> (valid: bool)
    ensures
        valid == (3 <= encode_utf8(username@).len() <= 20),
{
    let length = username.as_bytes().len();
    length >= 3 && length <= 20
}

/// Whether `password` is strong.
pub fn is_strong_password(password: &str) -> (is_strong: bool)
    ensures
        is_strong == strong(password@),
{
    let has_length = password.as_bytes().len() >= 8;
    let mut has_uppercase = false;
    let mut has_lowercase = false;
    let mut has_digit = false;
    let count = password.unicode_len();
    let mut i: usize = 0;
    while i < count
        invariant
            i <= count,
            count == password@.len(),
            has_uppercase == exists|j: int| 0 <= j < i && is_uppercase_char(#[trigger] password@[j]),
            has_lowercase == exists|j: int| 0 <= j < i && is_lowercase_char(#[trigger] password@[j]),
            has_digit == exists|j: int| 0 <= j < i && is_numeric_char(#[trigger] password@[j]),
        decreases count - i,
    {
        let c = password.get_char(i);
        if is_uppercase(c) {
            has_uppercase = true;
        }
        if is_lowercase(c) {
            has_lowercase = true;
        }
        if is_numeric(c) {
            has_digit = true;
        }
        i += 1;
    }
    has_length && has_uppercase && has_lowercase && has_digit
}

} // verus!
