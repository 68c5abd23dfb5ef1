//! String helpers shared by the parsers of this crate.
use vstd::prelude::*;
use vstd::string::*;

verus! {

/// `i` is the position of the first occurrence of `c` in `s`.
pub open spec fn is_first_index(s: Seq<char>, c: char, i: int) -> bool {
    &&& 0 <= i < s.len()
    &&& s[i] == c
    &&& forall|j: int| 0 <= j < i ==> s[j] != c
}

/// `i` is the position of the last occurrence of `c` in `s`.
pub open spec fn is_last_index(s: Seq<char>, c: char, i: int) -> bool {
    &&& 0 <= i < s.len()
    &&& s[i] == c
    &&& forall|j: int| i < j < s.len() ==> s[j] != c
}

/// `s` holds the two-character sequence `a b` starting at `i`.
pub open spec fn pair_at(s: Seq<char>, a: char, b: char, i: int) -> bool {
    0 <= i && i + 1 < s.len() && s[i] == a && s[i + 1] == b
}

/// `i` is the start of the last occurrence of `a b` in `s`.
pub open spec fn is_last_pair(s: Seq<char>, a: char, b: char, i: int) -> bool {
    &&& pair_at(s, a, b, i)
    &&& forall|j: int| i < j ==> !pair_at(s, a, b, j)
}

/// Position of the first `c` in `s`.
pub fn find_char(s: &str, c: char) -> (r: Option<usize>)
    ensures
        r matches Some(i) ==> is_first_index(s@, c, i as int),
        r is None ==> !s@.contains(c),
{
    let n = s.unicode_len();
    let mut i: usize = 0;
    while i < n
        invariant
            n == s@.len(),
            i <= n,
            forall|j: int| 0 <= j < i ==> s@[j] != c,
        decreases n - i,
    {
        if s.get_char(i) == c {
            return Some(i);
        }
        i = i + 1;
    }
    None
}

/// Position of the last `c` in `s`.
pub fn rfind_char(s: &str, c: char) -> (r: Option<usize>)
    ensures
        r matches Some(i) ==> is_last_index(s@, c, i as int),
        r is None ==> !s@.contains(c),
{
    let n = s.unicode_len();
    let mut k: usize = n;
    while k > 0
        invariant
            n == s@.len(),
            k <= n,
            forall|j: int| k <= j < n ==> s@[j] != c,
        decreases k,
    {
        if s.get_char(k - 1) == c {
            return Some(k - 1);
        }
        k = k - 1;
    }
    None
}

/// Start of the last occurrence of the pair `a b` in `s`.
pub fn rfind_pair(s: &str, a: char, b: char) -> (r: Option<usize>)
    ensures
        r matches Some(i) ==> is_last_pair(s@, a, b, i as int),
        r is None ==> forall|j: int| !pair_at(s@, a, b, j),
{
    let n = s.unicode_len();
    if n < 2 {
        return None;
    }
    let mut k: usize = n - 1;
    while k > 0
        invariant
            n == s@.len(),
            n >= 2,
            k <= n - 1,
            forall|j: int| k <= j ==> !pair_at(s@, a, b, j),
        decreases k,
    {
        if s.get_char(k - 1) == a && s.get_char(k) == b {
            return Some(k - 1);
        }
        k = k - 1;
    }
    None
}

/// An owned copy of `s[from..to]`, counted in characters.
pub fn slice_owned(s: &str, from: usize, to: usize) -> (r: String)
    requires
        from <= to <= s@.len(),
    ensures
        r@ == s@.subrange(from as int, to as int),
{
    String::from_str(s.substring_char(from, to))
}

/// Equality of two strings by their characters.
pub fn str_eq(a: &str, b: &str) -> (r: bool)
    ensures
        r == (a@ == b@),
{
    String::from_str(a) == String::from_str(b)
}

} // verus!
