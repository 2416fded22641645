//! Comparing texts byte by byte.

use vstd::prelude::*;
use vstd::string::StringSliceAdditionalSpecFns;
use vstd::utf8::{encode_utf8, encode_utf8_decode_utf8};

verus! {

/// Two texts with the same UTF-8 bytes are the same text.
pub proof fn lemma_same_bytes_same_text(a: Seq<char>, b: Seq<char>)
    requires
        encode_utf8(a) == encode_utf8(b),
    ensures
        a == b,
{
    encode_utf8_decode_utf8(a);
    encode_utf8_decode_utf8(b);
}

/// Whether two texts are equal. Texts of one length are compared in full,
/// wherever the first difference lies.
pub fn str_eq(a: &str, b: &str) -> (same: bool)
    ensures
        same == (a@ == b@),
{
    let left = a.as_bytes();
    let right = b.as_bytes();
    if left.len() != right.len() {
        return false;
    }
    let mut same = true;
    let mut i: usize = 0;
    assert(left@.take(0) =~= right@.take(0));
    while i < left.len()
        invariant
            i <= left@.len(),
            left@.len() == right@.len(),
            same == (left@.take(i as int) == right@.take(i as int)),
        decreases left@.len() - i,
    {
        if left[i] != right[i] {
            same = false;
        }
        proof {
            let n = i as int;
            assert(left@.take(n + 1).take(n) == left@.take(n));
            assert(right@.take(n + 1).take(n) == right@.take(n));
            assert(left@.take(n + 1)[n] == left@[n]);
            assert(right@.take(n + 1)[n] == right@[n]);
            if left@.take(n) == right@.take(n) && left@[n] == right@[n] {
                assert(left@.take(n + 1) =~= right@.take(n + 1));
            }
        }
        i = i + 1;
    }
    proof {
        assert(left@.take(left@.len() as int) == left@);
        assert(right@.take(right@.len() as int) == right@);
        if same {
            assert(left@ == a.spec_bytes() && right@ == b.spec_bytes());
            lemma_same_bytes_same_text(a@, b@);
        }
    }
    same
}

} // verus!
