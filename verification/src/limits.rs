//! Which texts the JSON parser can be given. It counts the digits behind
//! the point of a number in sixteen bits, so a text with a longer run of
//! them is kept from it.

use vstd::prelude::*;
use vstd::utf8::encode_utf8;

verus! {

/// The most digits that may stand behind one point.
pub const MAX_FRACTION_DIGITS: usize = 32768;

/// The byte is one of the digits `0` to `9`.
pub open spec fn is_digit(byte: u8) -> bool {
    0x30 <= byte <= 0x39
}

/// The bytes from `from` up to `to` are digits that stand directly behind
/// a point.
pub open spec fn is_fraction(bytes: Seq<u8>, from: int, to: int) -> bool {
    &&& 1 <= from <= to <= bytes.len()
    &&& bytes[from - 1] == 0x2e
    &&& forall|k: int| from <= k < to ==> is_digit(#[trigger] bytes[k])
}

/// No point in the first `upto` bytes is followed by more digits than the
/// parser can count.
pub open spec fn fractions_fit_upto(bytes: Seq<u8>, upto: int) -> bool {
    forall|from: int, to: int|
        to <= upto && #[trigger] is_fraction(bytes, from, to) ==> to - from
            <= MAX_FRACTION_DIGITS
}

/// No point in the text is followed by more digits than the parser can
/// count.
pub open spec fn within_parser_limits(text: Seq<char>) -> bool {
    fractions_fit_upto(encode_utf8(text), encode_utf8(text).len() as int)
}

/// Whether the parser can be given the text: whether no point in it is
/// followed by more than `MAX_FRACTION_DIGITS` digits.
pub fn check_parser_limits(text: &str) -> (r: bool)
    ensures
        r == within_parser_limits(text@),
{
    let bytes = text.as_bytes();
    let mut in_fraction = false;
    let mut run: usize = 0;
    let mut n: usize = 0;
    while n < bytes.len()
        invariant
            n <= bytes.len(),
            bytes@ == encode_utf8(text@),
            run <= MAX_FRACTION_DIGITS,
            run <= n,
            in_fraction ==> is_fraction(bytes@, n - run, n as int),
            forall|from: int|
                #[trigger] is_fraction(bytes@, from, n as int) ==> in_fraction && from == n - run,
            fractions_fit_upto(bytes@, n as int),
        decreases bytes.len() - n,
    {
        let byte = bytes[n];
        let ghost start = n - run;
        if byte == 0x2e {
            in_fraction = true;
            run = 0;
        } else if 0x30 <= byte && byte <= 0x39 {
            if in_fraction {
                if run == MAX_FRACTION_DIGITS {
                    proof {
                        assert(is_fraction(bytes@, start, n + 1));
                    }
                    return false;
                }
                run += 1;
            }
        } else {
            in_fraction = false;
            run = 0;
        }
        proof {
            assert forall|from: int| #[trigger] is_fraction(bytes@, from, n + 1) implies in_fraction
                && from == n + 1 - run by {
                if from <= n {
                    assert(is_digit(bytes@[n as int]));
                    assert(is_fraction(bytes@, from, n as int));
                }
            }
            assert forall|from: int, to: int|
                to <= n + 1 && #[trigger] is_fraction(bytes@, from, to) implies to - from
                <= MAX_FRACTION_DIGITS by {
                if to == n + 1 {
                    assert(from == n + 1 - run);
                }
            }
        }
        n += 1;
    }
    true
}

} // verus!
