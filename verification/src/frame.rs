//! The outer shape of a token: three segments with a delimiter between them.

use vstd::prelude::*;

verus! {

/// The character that stands between the segments of a token.
pub const DELIMITER: char = '.';

/// How many delimiters a text holds.
pub open spec fn delimiters(text: Seq<char>) -> nat
    decreases text.len(),
{
    if text.len() == 0 {
        0
    } else if text.last() == DELIMITER {
        delimiters(text.drop_last()) + 1
    } else {
        delimiters(text.drop_last())
    }
}

/// Whether a text has the shape of a token: a header, a payload and a
/// signature, which is to say exactly two delimiters.
pub open spec fn well_framed(text: Seq<char>) -> bool {
    delimiters(text) == 2
}

/// Whether a text has the shape of a token.
pub fn has_three_segments(text: &str) -> (framed: bool)
    ensures
        framed == well_framed(text@),
{
    let mut count: u8 = 0;
    assert(text@.take(0) =~= Seq::<char>::empty());
    for c in it: text.chars()
        invariant
            it.seq() == text@,
            count <= 3,
            count < 3 ==> count == delimiters(text@.take(it.index() as int)),
            count == 3 ==> delimiters(text@.take(it.index() as int)) >= 3,
    {
        proof {
            let next = text@.take(it.index() as int + 1);
            assert(next.drop_last() =~= text@.take(it.index() as int));
            assert(next.last() == c);
        }
        if c == DELIMITER && count < 3 {
            count = count + 1;
        }
    }
    assert(text@.take(text@.len() as int) =~= text@);
    count == 2
}

} // verus!
