//! Comparisons of text, by character.
use vstd::prelude::*;
use vstd::string::*;

verus! {

broadcast use vstd::string::group_string_axioms;

/// The lower case of an ASCII letter; any other character is left as it is.
pub open spec fn spec_ascii_lower(c: char) -> char {
    if 'A' <= c && c <= 'Z' {
        ((c as u32) + 32) as char
    } else {
        c
    }
}

/// The text with its ASCII letters in lower case.
pub open spec fn spec_ascii_lowercase(s: Seq<char>) -> Seq<char> {
    s.map_values(|c: char| spec_ascii_lower(c))
}

/// The lower case of an ASCII letter.
pub fn ascii_lower(c: char) -> (l: char)
    ensures
        l == spec_ascii_lower(c),
{
    if 'A' <= c && c <= 'Z' {
        let u: u32 = c as u32;
        let l: u8 = (u + 32) as u8;
        l as char
    } else {
        c
    }
}

/// True when the two texts are the same, character by character.
pub fn str_eq(a: &str, b: &str) -> (r: bool)
    ensures
        r == (a@ == b@),
{
    let n = a.unicode_len();
    let m = b.unicode_len();
    if n != m {
        return false;
    }
    let mut i: usize = 0;
    while i < n
        invariant
            n == a@.len(),
            m == b@.len(),
            n == m,
            0 <= i <= n,
            forall|j: int| 0 <= j < i ==> a@[j] == b@[j],
        decreases n - i,
    {
        if a.get_char(i) != b.get_char(i) {
            return false;
        }
        i = i + 1;
    }
    assert(a@ =~= b@);
    true
}

/// True when the text is the given lower-case text once its ASCII letters are
/// put in lower case.
pub fn eq_ignore_ascii_case(s: &str, lower: &str) -> (r: bool)
    ensures
        r == (spec_ascii_lowercase(s@) == lower@),
{
    let n = s.unicode_len();
    let m = lower.unicode_len();
    if n != m {
        assert(spec_ascii_lowercase(s@).len() == s@.len());
        return false;
    }
    let mut i: usize = 0;
    while i < n
        invariant
            n == s@.len(),
            m == lower@.len(),
            n == m,
            0 <= i <= n,
            forall|j: int| 0 <= j < i ==> spec_ascii_lower(s@[j]) == lower@[j],
        decreases n - i,
    {
        if ascii_lower(s.get_char(i)) != lower.get_char(i) {
            assert(spec_ascii_lowercase(s@)[i as int] != lower@[i as int]);
            return false;
        }
        i = i + 1;
    }
    assert(spec_ascii_lowercase(s@) =~= lower@);
    true
}

/// The text `prefix`, then `middle` between double quotes.
pub fn quoted_after(prefix: &str, middle: &str) -> (r: String)
    ensures
        r@ == prefix@ + "\""@ + middle@ + "\""@,
{
    let mut r = prefix.to_string();
    r.append("\"");
    r.append(middle);
    r.append("\"");
    r
}

} // verus!
