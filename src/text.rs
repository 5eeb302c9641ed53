//! Small verified helpers on strings and characters.
use vstd::prelude::*;
use vstd::string::*;

verus! {

/// Whether `c` is `l` or, for a lower-case ASCII letter `l`, its upper-case
/// form.
pub open spec fn char_folds(c: char, l: char) -> bool {
    c == l || ('a' <= l <= 'z' && c as u32 + 32 == l as u32)
}

/// Whether `s` spells the lower-case token `lit` in any ASCII casing.
pub open spec fn folds_to(s: Seq<char>, lit: Seq<char>) -> bool {
    s.len() == lit.len() && forall|i: int| 0 <= i < s.len() ==> char_folds(#[trigger] s[i], lit[i])
}

/// Whether `s` spells `lit` ignoring ASCII case (`lit` in lower case).
pub fn str_eq_ignore_case(s: &str, lit: &str) -> (r: bool)
    ensures
        r == folds_to(s@, lit@),
{
    let n = s.unicode_len();
    let m = lit.unicode_len();
    if n != m {
        return false;
    }
    let mut i: usize = 0;
    while i < n
        invariant
            n == s@.len(),
            m == lit@.len(),
            n == m,
            i <= n,
            forall|j: int| 0 <= j < i ==> char_folds(#[trigger] s@[j], lit@[j]),
        decreases n - i,
    {
        let c = s.get_char(i);
        let l = lit.get_char(i);
        if !(c == l || ('a' <= l && l <= 'z' && (c as u32) + 32 == l as u32)) {
            assert(!char_folds(s@[i as int], lit@[i as int]));
            return false;
        }
        i = i + 1;
    }
    true
}

/// The characters of `s`, one by one.
pub fn chars_of(s: &str) -> (r: Vec<char>)
    ensures
        r@ == s@,
{
    let n = s.unicode_len();
    let mut v: Vec<char> = Vec::new();
    let mut i: usize = 0;
    while i < n
        invariant
            n == s@.len(),
            i <= n,
            v@ == s@.subrange(0, i as int),
        decreases n - i,
    {
        v.push(s.get_char(i));
        i = i + 1;
    }
    assert(v@ =~= s@);
    v
}

/// Relies on `String::from_iter` over `char`s: the string holding exactly
/// these characters, in order.
#[verifier::external_body]
pub(crate) fn string_of(v: &Vec<char>) -> (r: String)
    ensures
        r@ == v@,
{
    v.iter().collect::<String>()
}

/// Relies on `char::to_ascii_uppercase`: ASCII lower-case letters become
/// upper-case, every other character is unchanged.
#[verifier::external_body]
pub(crate) fn ascii_upper(c: char) -> (r: char)
    ensures
        ('a' <= c <= 'z') ==> r as u32 == c as u32 - 32,
        !('a' <= c <= 'z') ==> r == c,
{
    c.to_ascii_uppercase()
}

} // verus!
