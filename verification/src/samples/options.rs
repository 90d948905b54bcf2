//! Functions whose answer may be absent.

use vstd::prelude::*;
use vstd::string::StringSliceAdditionalSpecFns;

verus! {

/// `index` is the first place in `items` that holds `search`.
pub open spec fn first_match(items: Seq<Seq<char>>, search: Seq<char>, index: int) -> bool {
    &&& 0 <= index < items.len()
    &&& items[index] == search
    &&& forall|i: int| 0 <= i < index ==> items[i] != search
}

/// The views of `items`, in order.
pub open spec fn item_views(items: Seq<&str>) -> Seq<Seq<char>> {
    items.map_values(|item: &str| item@)
}

/// One more than the number inside, if there is one.
pub fn plus_one(x: Option<i32>) -> (result: Option<i32>)
    requires
        x != Some(i32::MAX),
    ensures
        result == match x {
            None => None::<i32>,
            Some(i) => Some((i + 1) as i32),
        },
{
    match x {
        None => None,
        Some(i) => Some(i + 1),
    }
}

/// Whether two string slices hold the same text.
pub fn same_text(a: &str, b: &str) -> (same: bool)
    ensures
        same == (a@ == b@),
{
    let left = a.as_bytes();
    let right = b.as_bytes();
    proof {
        vstd::utf8::encode_utf8_decode_utf8(a@);
        vstd::utf8::encode_utf8_decode_utf8(b@);
    }
    if left.len() != right.len() {
        return false;
    }
    let mut i: usize = 0;
    while i < left.len()
        invariant
            i <= left.len(),
            left.len() == right.len(),
            left@ == a.spec_bytes(),
            right@ == b.spec_bytes(),
            forall|j: int| 0 <= j < i ==> left@[j] == right@[j],
        decreases left.len() - i,
    {
        if left[i] != right[i] {
            return false;
        }
        i += 1;
    }
    assert(left@ =~= right@);
    true
}

/// The place of the first item equal to `search`; `None` if there is none.
pub fn find_item(items: &[&str], search: &str) -> (found: Option<usize>)
    ensures
        match found {
            Some(index) => first_match(item_views(items@), search@, index as int),
            None => !item_views(items@).contains(search@),
        },
{
    let mut index: usize = 0;
    while index < items.len()
        invariant
            index <= items.len(),
            forall|i: int| 0 <= i < index ==> item_views(items@)[i] != search@,
        decreases items.len() - index,
    {
        if same_text(items[index], search) {
            return Some(index);
        }
        index += 1;
    }
    None
}

} // verus!
