//! Functions that read or change what they borrow: strings, string slices,
//! slices of numbers and vectors.

use vstd::prelude::*;
use vstd::string::StringSliceAdditionalSpecFns;
use vstd::utf8::{encode_utf8, is_continuation_byte};

verus! {

/// The byte that encodes a space.
pub const SPACE: u8 = 0x20;

/// The length in bytes of the UTF-8 encoding of `text`.
pub open spec fn byte_len(text: Seq<char>) -> nat {
    encode_utf8(text).len()
}

/// `end` is where the first word of `bytes` ends: at the first space, or at
/// the end where there is no space.
pub open spec fn first_word_end(bytes: Seq<u8>, end: int) -> bool {
    &&& 0 <= end <= bytes.len()
    &&& forall|i: int| 0 <= i < end ==> bytes[i] != SPACE
    &&& end < bytes.len() ==> bytes[end] == SPACE
}

/// The sum of `numbers`.
pub open spec fn sum(numbers: Seq<i32>) -> int
    decreases numbers.len(),
{
    if numbers.len() == 0 {
        0
    } else {
        sum(numbers.drop_last()) + numbers.last()
    }
}

/// Adding up `numbers` from the front never leaves the range of `i32`.
pub open spec fn sums_fit(numbers: Seq<i32>) -> bool {
    forall|count: int|
        0 <= count <= numbers.len() ==> i32::MIN <= #[trigger] sum(numbers.take(count)) <= i32::MAX
}

/// Twice each of `numbers` is still an `i32`.
pub open spec fn doubles_fit(numbers: Seq<i32>) -> bool {
    forall|i: int| 0 <= i < numbers.len() ==> i32::MIN <= 2 * (#[trigger] numbers[i]) <= i32::MAX
}

/// `numbers` with each one doubled.
pub open spec fn doubled(numbers: Seq<i32>) -> Seq<int> {
    Seq::new(numbers.len(), |i: int| 2 * numbers[i])
}

/// `numbers` as mathematical integers.
pub open spec fn as_ints(numbers: Seq<i32>) -> Seq<int> {
    Seq::new(numbers.len(), |i: int| numbers[i] as int)
}

/// The views of `words`, in order.
pub open spec fn word_views(words: Seq<&str>) -> Seq<Seq<char>> {
    words.map_values(|word: &str| word@)
}

/// `index` is the place of the longest word of `words`, the first such
/// where several are equally long. Length counts bytes, and an empty word
/// is never the longest.
pub open spec fn first_longest(words: Seq<Seq<char>>, index: int) -> bool {
    &&& 0 <= index < words.len()
    &&& byte_len(words[index]) > 0
    &&& forall|i: int| 0 <= i < words.len() ==> byte_len(#[trigger] words[i]) <= byte_len(
        words[index],
    )
    &&& forall|i: int| 0 <= i < index ==> byte_len(#[trigger] words[i]) < byte_len(words[index])
}

/// The longest of `words`, the first such where several are equally long;
/// the empty text where there is no word, or only empty ones.
pub open spec fn longest_word(words: Seq<Seq<char>>) -> Seq<char> {
    if exists|index: int| first_longest(words, index) {
        words[choose|index: int| first_longest(words, index)]
    } else {
        Seq::empty()
    }
}

/// The words that `str::split_whitespace` cuts `text` into, in order.
pub uninterp spec fn whitespace_words(text: Seq<char>) -> Seq<Seq<char>>;

/// Calls `str::split_whitespace` and collects the words it yields. The
/// result is given a name rather than a definition: what counts as white
/// space is the standard library's to say.
#[verifier::external_body]
fn split_whitespace<'a>(text: &'a str) -> (words: Vec<&'a str>)
    ensures
        word_views(words@) == whitespace_words(text@),
{
    text.split_whitespace().collect()
}

/// The length of `s` in bytes.
pub fn calculate_length(s: &String) -> (length: usize)
    ensures
        length == byte_len(s@),
{
    s.as_str().as_bytes().len()
}

/// Appends `", world"` to the string.
pub fn change(some_string: &mut String)
    ensures
        final(some_string)@ == old(some_string)@ + ", world"@,
{
    some_string.append(", world");
}

/// A freshly made `"hello"`, handed over to the caller.
pub fn no_dangle() -> (s: String)
    ensures
        s@ == "hello"@,
{
    "hello".to_owned()
}

/// The part of `s` before its first space; all of `s` where it has none.
pub fn first_word(s: &str) -> (word: &str)
    ensures
        first_word_end(s.spec_bytes(), word.spec_bytes().len() as int),
        word.spec_bytes() == s.spec_bytes().take(word.spec_bytes().len() as int),
        word@.is_prefix_of(s@),
{
    let bytes = s.as_bytes();
    let mut i: usize = 0;
    while i < bytes.len()
        invariant
            i <= bytes.len(),
            bytes@ == s.spec_bytes(),
            forall|j: int| 0 <= j < i ==> bytes@[j] != SPACE,
        decreases bytes.len() - i,
    {
        if bytes[i] == SPACE {
            proof {
                vstd::utf8::encode_utf8_valid_utf8(s@);
                vstd::utf8::is_char_boundary_iff_not_is_continuation_byte(bytes@, i as int);
                assert(!is_continuation_byte(bytes@[i as int]));
            }
            let (word, rest) = s.split_at(i);
            proof {
                assert(word.spec_bytes() =~= bytes@.take(i as int));
                vstd::utf8::decode_utf8_split(bytes@, i as int);
                vstd::utf8::encode_utf8_decode_utf8(s@);
                vstd::utf8::encode_utf8_decode_utf8(word@);
                vstd::utf8::encode_utf8_decode_utf8(rest@);
                assert(s@ =~= word@ + rest@);
                assert(word@ =~= s@.subrange(0, word@.len() as int));
            }
            return word;
        }
        i += 1;
    }
    assert(bytes@.take(bytes@.len() as int) =~= bytes@);
    s
}

/// The sum of the numbers in `slice`.
pub fn sum_slice(slice: &[i32]) -> (total: i32)
    requires
        sums_fit(slice@),
    ensures
        total == sum(slice@),
{
    let mut total: i32 = 0;
    let mut i: usize = 0;
    while i < slice.len()
        invariant
            i <= slice.len(),
            sums_fit(slice@),
            total == sum(slice@.take(i as int)),
        decreases slice.len() - i,
    {
        proof {
            assert(slice@.take(i + 1).drop_last() =~= slice@.take(i as int));
            assert(i32::MIN <= sum(slice@.take(i + 1)) <= i32::MAX);
        }
        total = total + slice[i];
        i += 1;
    }
    assert(slice@.take(i as int) =~= slice@);
    total
}

/// The number of words in `s`, as `str::split_whitespace` tells them apart.
pub fn count_words(s: &str) -> (count: usize)
    ensures
        count == whitespace_words(s@).len(),
{
    let words = split_whitespace(s);
    assert(word_views(words@).len() == words@.len());
    words.len()
}

/// Doubles every number in place.
pub fn double_values(vec: &mut Vec<i32>)
    requires
        doubles_fit(old(vec)@),
    ensures
        as_ints(final(vec)@) == doubled(old(vec)@),
{
    let mut i: usize = 0;
    while i < vec.len()
        invariant
            i <= vec@.len(),
            vec@.len() == old(vec)@.len(),
            forall|j: int| 0 <= j < i ==> (#[trigger] vec@[j]) == 2 * old(vec)@[j],
            forall|j: int| i <= j < vec@.len() ==> (#[trigger] vec@[j]) == old(vec)@[j],
            doubles_fit(old(vec)@),
        decreases vec@.len() - i,
    {
        let twice = vec[i] * 2;
        vec.set(i, twice);
        i += 1;
    }
    assert(as_ints(vec@) =~= doubled(old(vec)@));
}

/// Appends `"!!!"` to the string.
pub fn append_exclamation(s: &mut String)
    ensures
        final(s)@ == old(s)@ + "!!!"@,
{
    s.append("!!!");
}

/// The longest of `words`, the first such where several are equally long;
/// the empty string where there is no word, or only empty ones.
pub fn longest_among<'a>(words: &[&'a str]) -> (longest: &'a str)
    ensures
        longest@ == longest_word(word_views(words@)),
{
    let ghost views = word_views(words@);
    let mut longest: &'a str = "";
    let ghost mut found: Option<int> = None;
    proof {
        reveal_strlit("");
        assert(""@ =~= Seq::<char>::empty());
    }
    let mut i: usize = 0;
    while i < words.len()
        invariant
            i <= words.len(),
            views == word_views(words@),
            match found {
                Some(index) => first_longest(views.take(i as int), index) && longest@
                    == views[index],
                None => longest@ == Seq::<char>::empty() && forall|j: int|
                    0 <= j < i ==> byte_len(#[trigger] views[j]) == 0,
            },
        decreases words.len() - i,
    {
        let word: &'a str = words[i];
        assert(word@ == views[i as int]);
        proof {
            let seen = views.take(i as int);
            let next = views.take(i + 1);
            assert(forall|j: int| 0 <= j < i ==> seen[j] == next[j]);
            assert(next[i as int] == views[i as int]);
        }
        if word.as_bytes().len() > longest.as_bytes().len() {
            longest = word;
            proof {
                found = Some(i as int);
            }
        }
        i += 1;
    }
    proof {
        assert(views.take(i as int) =~= views);
        match found {
            Some(index) => {
                lemma_first_longest_is_unique(views, index);
            },
            None => {
                assert forall|index: int| !first_longest(views, index) by {}
            },
        }
    }
    longest
}

/// The longest word of `s`, the first such where several are equally long;
/// the empty string where `s` holds no word.
pub fn find_longest_word(s: &str) -> (longest: &str)
    ensures
        longest@ == longest_word(whitespace_words(s@)),
{
    let words = split_whitespace(s);
    longest_among(words.as_slice())
}

/// At most one place is that of the first longest word.
pub proof fn lemma_first_longest_is_unique(words: Seq<Seq<char>>, index: int)
    requires
        first_longest(words, index),
    ensures
        forall|other: int| first_longest(words, other) ==> other == index,
        longest_word(words) == words[index],
{
    assert forall|other: int| first_longest(words, other) implies other == index by {
        if other < index {
            assert(byte_len(words[other]) < byte_len(words[index]));
            assert(byte_len(words[index]) <= byte_len(words[other]));
        } else if index < other {
            assert(byte_len(words[index]) < byte_len(words[other]));
            assert(byte_len(words[other]) <= byte_len(words[index]));
        }
    }
}

} // verus!
