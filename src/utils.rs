//! Small helpers on file names.
use vstd::prelude::*;

use crate::text::{is_last_index, rfind_char};

verus! {

/// Splits `name` at its last `.` into stem and extension; without a `.`
/// the whole name is the stem.
pub fn get_stem(name: &str) -> (r: (&str, Option<&str>))
    ensures
        !name@.contains('.') ==> r.0@ == name@ && r.1 is None,
        forall|i: int|
            is_last_index(name@, '.', i) ==> r.0@ == name@.take(i) && r.1 is Some
                && r.1->0@ == name@.skip(i + 1),
{
    match rfind_char(name, '.') {
        Some(i) => {
            let n = name.unicode_len();
            (name.substring_char(0, i), Some(name.substring_char(i + 1, n)))
        },
        None => (name, None),
    }
}

} // verus!
