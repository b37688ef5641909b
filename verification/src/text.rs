//! Small verified helpers over strings: prefix tests, decimal-digit
//! tests, and taking a suffix of a string by character index.

use vstd::prelude::*;

verus! {

/// A decimal digit, the only characters a line selector may contain
/// besides the separating hyphen.
pub open spec fn is_digit(c: char) -> bool {
    '0' <= c && c <= '9'
}

/// Every character of the sequence is a decimal digit.
pub open spec fn all_digits(s: Seq<char>) -> bool {
    forall|i: int| 0 <= i < s.len() ==> is_digit(#[trigger] s[i])
}

pub fn is_digit_char(c: char) -> (b: bool)
    ensures
        b == is_digit(c),
{
    let u = c as u32;
    ('0' as u32) <= u && u <= ('9' as u32)
}

/// Whether `s` begins with `prefix`, character for character.
pub fn str_starts_with(s: &str, prefix: &str) -> (b: bool)
    ensures
        b <==> (s@.len() >= prefix@.len() && s@.take(prefix@.len() as int) == prefix@),
{
    let n = prefix.unicode_len();
    let m = s.unicode_len();
    if m < n {
        return false;
    }
    let mut i: usize = 0;
    while i < n
        invariant
            0 <= i <= n,
            n == prefix@.len(),
            m == s@.len(),
            n <= m,
            forall|j: int| 0 <= j < i ==> s@[j] == prefix@[j],
        decreases n - i,
    {
        if s.get_char(i) != prefix.get_char(i) {
            assert(s@.take(n as int)[i as int] != prefix@[i as int]);
            return false;
        }
        i += 1;
    }
    assert(s@.take(n as int) =~= prefix@);
    true
}

/// The suffix of `s` that follows its first `from` characters.
pub fn str_suffix_from(s: &str, from: usize) -> (r: String)
    requires
        from <= s@.len(),
    ensures
        r@ == s@.skip(from as int),
{
    let len = s.unicode_len();
    let suffix = s.substring_char(from, len);
    assert(suffix@ =~= s@.skip(from as int));
    String::from_str(suffix)
}

/// The trailing newline of a repository query's raw output, if one is
/// there, removed; any other output is kept as it is.
pub open spec fn spec_chomp(s: Seq<char>) -> Seq<char> {
    if s.len() > 0 && s[s.len() - 1] == '\n' {
        s.drop_last()
    } else {
        s
    }
}

pub fn strip_trailing_newline(s: &str) -> (r: String)
    ensures
        r@ == spec_chomp(s@),
{
    let len = s.unicode_len();
    if len > 0 && s.get_char(len - 1) == '\n' {
        let head = s.substring_char(0, len - 1);
        assert(head@ =~= s@.drop_last());
        String::from_str(head)
    } else {
        String::from_str(s)
    }
}

} // verus!
