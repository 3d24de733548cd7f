//! Comparisons of texts, character by character.
use vstd::prelude::*;
use vstd::string::*;

verus! {

/// `prefix` is a prefix of `s`.
pub open spec fn is_prefix(prefix: Seq<char>, s: Seq<char>) -> bool {
    prefix.len() <= s.len() && s.subrange(0, prefix.len() as int) == prefix
}

/// Whether two texts are the same.
pub fn text_eq(a: &str, b: &str) -> (result: bool)
    ensures
        result == (a@ == b@),
{
    a.to_owned() == b.to_owned()
}

/// Whether `s` starts with `prefix`.
pub fn starts_with(s: &str, prefix: &str) -> (result: bool)
    ensures
        result == is_prefix(prefix@, s@),
{
    let n = prefix.unicode_len();
    let m = s.unicode_len();
    if n > m {
        return false;
    }
    let mut i: usize = 0;
    while i < n
        invariant
            n == prefix@.len(),
            m == s@.len(),
            n <= m,
            i <= n,
            forall|j: int| 0 <= j < i ==> s@[j] == prefix@[j],
        decreases n - i,
    {
        if s.get_char(i) != prefix.get_char(i) {
            proof {
                assert(s@.subrange(0, n as int)[i as int] != prefix@[i as int]);
            }
            return false;
        }
        i = i + 1;
    }
    proof {
        assert(s@.subrange(0, n as int) =~= prefix@);
    }
    true
}

/// The characters of `s` from the character index `from` on.
pub fn chars_from(s: &str, from: usize) -> (result: String)
    requires
        from <= s@.len(),
    ensures
        result@ == s@.subrange(from as int, s@.len() as int),
{
    let m = s.unicode_len();
    s.substring_char(from, m).to_owned()
}

} // verus!
