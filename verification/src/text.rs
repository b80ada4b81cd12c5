//! Comparisons on text, stated over the characters that the text holds.

use vstd::prelude::*;
use vstd::string::*;
use vstd::utf8::*;

verus! {

/// `s` begins with the characters of `prefix`.
pub open spec fn has_prefix(s: Seq<char>, prefix: Seq<char>) -> bool {
    prefix.len() <= s.len() && s.take(prefix.len() as int) == prefix
}

/// Two texts with the same UTF-8 encoding hold the same characters.
pub proof fn lemma_same_bytes_same_chars(a: Seq<char>, b: Seq<char>)
    requires
        encode_utf8(a) == encode_utf8(b),
    ensures
        a == b,
{
    encode_utf8_decode_utf8(a);
    encode_utf8_decode_utf8(b);
}

/// Whether two texts hold the same characters.
pub fn str_eq(a: &str, b: &str) -> (same: bool)
    ensures
        same == (a@ == b@),
{
    let x = a.as_bytes();
    let y = b.as_bytes();
    if x.len() != y.len() {
        return false;
    }
    let n = x.len();
    let mut i: usize = 0;
    while i < n
        invariant
            0 <= i <= n,
            n == x@.len(),
            n == y@.len(),
            x@ == encode_utf8(a@),
            y@ == encode_utf8(b@),
            forall|j: int| 0 <= j < i ==> x@[j] == y@[j],
        decreases n - i,
    {
        if x[i] != y[i] {
            return false;
        }
        i = i + 1;
    }
    proof {
        assert(x@ =~= y@);
        lemma_same_bytes_same_chars(a@, b@);
    }
    true
}

/// Whether `s` begins with the two characters `first` and `second`.
pub fn starts_with_pair(s: &str, first: char, second: char) -> (found: bool)
    ensures
        found == has_prefix(s@, seq![first, second]),
{
    let n = s.unicode_len();
    if n < 2 {
        return false;
    }
    let found = s.get_char(0) == first && s.get_char(1) == second;
    proof {
        let p = seq![first, second];
        if found {
            assert(s@.take(2) =~= p);
        } else {
            assert(s@.take(2)[0] == s@[0]);
            assert(s@.take(2)[1] == s@[1]);
            assert(p[0] == first && p[1] == second);
        }
    }
    found
}

} // verus!
