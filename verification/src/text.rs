//! Character-level helpers shared by the escaping, template and routing code.

use vstd::prelude::*;
use vstd::string::StrSliceExecFns;

verus! {

/// Collect the characters of a string slice into a vector.
pub fn str_to_chars(s: &str) -> (v: Vec<char>)
    ensures
        v@ == s@,
{
    let n = s.unicode_len();
    let mut v: Vec<char> = Vec::new();
    let mut i: usize = 0;
    while i < n
        invariant
            i <= n,
            n == s@.len(),
            v@ == s@.take(i as int),
        decreases n - i,
    {
        v.push(s.get_char(i));
        assert(v@ =~= s@.take(i as int + 1));
        i = i + 1;
    }
    assert(v@ =~= s@);
    v
}

/// Build a `String` from a vector of characters.
///
/// Relies on `String`'s `FromIterator<char>` implementation, which collects
/// exactly the characters of the iterator, in order.
#[verifier::external_body]
pub(crate) fn chars_to_string(v: &Vec<char>) -> (s: String)
    ensures
        s@ == v@,
{
    v.iter().collect()
}

/// Whether a string slice equals a range of a character vector.
pub fn str_eq_chars(s: &str, v: &Vec<char>, from: usize, to: usize) -> (r: bool)
    requires
        from <= to <= v@.len(),
    ensures
        r == (s@ == v@.subrange(from as int, to as int)),
{
    let n = s.unicode_len();
    if n != to - from {
        proof {
            assert(s@.len() != v@.subrange(from as int, to as int).len());
        }
        return false;
    }
    let mut i: usize = 0;
    while i < n
        invariant
            i <= n,
            n == s@.len(),
            n == to - from,
            from <= to <= v@.len(),
            forall|j: int| 0 <= j < i ==> s@[j] == v@[from + j],
        decreases n - i,
    {
        if s.get_char(i) != v[from + i] {
            proof {
                assert(s@[i as int] != v@.subrange(from as int, to as int)[i as int]);
            }
            return false;
        }
        i = i + 1;
    }
    proof {
        assert(s@ =~= v@.subrange(from as int, to as int));
    }
    true
}

} // verus!
