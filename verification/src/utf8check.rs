//! A verified UTF-8 well-formedness check.
//!
//! A path payload crossing the boundary is a raw byte string; it may only be
//! interpreted as a path after it has been checked to be well-formed text.
//! The checker below is proved equivalent to `vstd::utf8::valid_utf8`.

use vstd::prelude::*;
use vstd::utf8::codepoint_width_2;
use vstd::utf8::codepoint_width_3;
use vstd::utf8::codepoint_width_4;
use vstd::utf8::is_continuation_byte;
use vstd::utf8::length_of_first_scalar;
use vstd::utf8::partial_valid_partial_invalid_utf8;
use vstd::utf8::partial_valid_utf8;
use vstd::utf8::partial_valid_utf8_extend;
use vstd::utf8::valid_first_scalar;
use vstd::utf8::valid_leading_and_continuation_bytes_first_codepoint;
use vstd::utf8::valid_utf8;

verus! {

/// The decision the checker takes on the scalar encoding at the front of
/// `t`: the width of a well-formed encoding, or `None` when the front of
/// `t` is not a well-formed encoding of one Unicode scalar.
pub open spec fn scalar_check(t: Seq<u8>) -> Option<int> {
    if t.len() == 0 {
        None
    } else if t[0] < 0x80 {
        Some(1)
    } else if 0xc2 <= t[0] <= 0xdf {
        if t.len() >= 2 && is_continuation_byte(t[1]) {
            Some(2)
        } else {
            None
        }
    } else if 0xe0 <= t[0] <= 0xef {
        if t.len() >= 3 && is_continuation_byte(t[1]) && is_continuation_byte(t[2]) && (t[0] != 0xe0
            || t[1] >= 0xa0) && (t[0] != 0xed || t[1] <= 0x9f) {
            Some(3)
        } else {
            None
        }
    } else if 0xf0 <= t[0] <= 0xf4 {
        if t.len() >= 4 && is_continuation_byte(t[1]) && is_continuation_byte(t[2])
            && is_continuation_byte(t[3]) && (t[0] != 0xf0 || t[1] >= 0x90) && (t[0] != 0xf4 || t[1]
            <= 0x8f) {
            Some(4)
        } else {
            None
        }
    } else {
        None
    }
}

/// The checker's decision is exactly scalar well-formedness: a width is
/// returned if and only if the front of `t` encodes one scalar, and the
/// width is that encoding's length.
pub proof fn lemma_scalar_check(t: Seq<u8>)
    requires
        t.len() >= 1,
    ensures
        match scalar_check(t) {
            Some(w) => valid_first_scalar(t) && length_of_first_scalar(t) == w,
            None => !valid_first_scalar(t),
        },
{
    let b0 = t[0];
    if b0 < 0x80 {
        assert(valid_first_scalar(t));
    } else if b0 < 0xc2 {
        if 0xc0 <= b0 && t.len() >= 2 && is_continuation_byte(t[1]) {
            let b1 = t[1];
            assert(codepoint_width_2(b0, b1) < 0x80) by (bit_vector)
                requires
                    0xc0 <= b0 <= 0xc1,
            ;
            assert(!valid_first_scalar(t));
        } else {
            assert(!valid_leading_and_continuation_bytes_first_codepoint(t));
        }
    } else if b0 <= 0xdf {
        if t.len() >= 2 && is_continuation_byte(t[1]) {
            let b1 = t[1];
            assert(0x80 <= codepoint_width_2(b0, b1) && codepoint_width_2(b0, b1) <= 0x7ff)
                by (bit_vector)
                requires
                    0xc2 <= b0 <= 0xdf,
            ;
            assert(valid_first_scalar(t) && length_of_first_scalar(t) == 2);
        } else {
            assert(!valid_leading_and_continuation_bytes_first_codepoint(t));
        }
    } else if b0 <= 0xef {
        if t.len() >= 3 && is_continuation_byte(t[1]) && is_continuation_byte(t[2]) {
            let b1 = t[1];
            let b2 = t[2];
            if (b0 != 0xe0 || b1 >= 0xa0) && (b0 != 0xed || b1 <= 0x9f) {
                assert(0x800 <= codepoint_width_3(b0, b1, b2) && !(0xd800 <= codepoint_width_3(
                    b0,
                    b1,
                    b2,
                ) <= 0xdfff)) by (bit_vector)
                    requires
                        0xe0 <= b0 <= 0xef,
                        0x80 <= b1 <= 0xbf,
                        b0 != 0xe0 || b1 >= 0xa0,
                        b0 != 0xed || b1 <= 0x9f,
                ;
                assert(valid_first_scalar(t) && length_of_first_scalar(t) == 3);
            } else if b0 == 0xe0 && b1 < 0xa0 {
                assert(codepoint_width_3(b0, b1, b2) < 0x800) by (bit_vector)
                    requires
                        b0 == 0xe0,
                        0x80 <= b1 < 0xa0,
                ;
                assert(!valid_first_scalar(t));
            } else {
                assert(0xd800 <= codepoint_width_3(b0, b1, b2) <= 0xdfff) by (bit_vector)
                    requires
                        b0 == 0xed,
                        0xa0 <= b1 <= 0xbf,
                ;
                assert(!valid_first_scalar(t));
            }
        } else {
            assert(!valid_leading_and_continuation_bytes_first_codepoint(t));
        }
    } else if b0 <= 0xf7 {
        if t.len() >= 4 && is_continuation_byte(t[1]) && is_continuation_byte(t[2])
            && is_continuation_byte(t[3]) {
            let b1 = t[1];
            let b2 = t[2];
            let b3 = t[3];
            if b0 <= 0xf4 && (b0 != 0xf0 || b1 >= 0x90) && (b0 != 0xf4 || b1 <= 0x8f) {
                assert(0x10000 <= codepoint_width_4(b0, b1, b2, b3) && codepoint_width_4(
                    b0,
                    b1,
                    b2,
                    b3,
                ) <= 0x10ffff) by (bit_vector)
                    requires
                        0xf0 <= b0 <= 0xf4,
                        0x80 <= b1 <= 0xbf,
                        b0 != 0xf0 || b1 >= 0x90,
                        b0 != 0xf4 || b1 <= 0x8f,
                ;
                assert(valid_first_scalar(t) && length_of_first_scalar(t) == 4);
            } else if b0 == 0xf0 && b1 < 0x90 {
                assert(codepoint_width_4(b0, b1, b2, b3) < 0x10000) by (bit_vector)
                    requires
                        b0 == 0xf0,
                        0x80 <= b1 < 0x90,
                ;
                assert(!valid_first_scalar(t));
            } else {
                assert(codepoint_width_4(b0, b1, b2, b3) > 0x10ffff) by (bit_vector)
                    requires
                        (b0 == 0xf4 && 0x90 <= b1 <= 0xbf) || 0xf5 <= b0 <= 0xf7,
                ;
                assert(!valid_first_scalar(t));
            }
        } else {
            assert(!valid_leading_and_continuation_bytes_first_codepoint(t));
        }
    } else {
        assert(!valid_leading_and_continuation_bytes_first_codepoint(t));
    }
}

/// The checker's decision at the front of `bytes[i..]`, computed
/// executably by bounds-checked byte tests.
fn scalar_step(bytes: &[u8], i: usize) -> (r: Option<usize>)
    requires
        i < bytes@.len(),
    ensures
        match r {
            Some(w) => scalar_check(bytes@.skip(i as int)) == Some(w as int),
            None => scalar_check(bytes@.skip(i as int)) is None,
        },
{
    let ghost t = bytes@.skip(i as int);
    let len = bytes.len();
    let b0 = bytes[i];
    if b0 < 0x80 {
        Some(1)
    } else if 0xc2 <= b0 && b0 <= 0xdf {
        if len - i > 1 && 0x80 <= bytes[i + 1] && bytes[i + 1] <= 0xbf {
            Some(2)
        } else {
            None
        }
    } else if 0xe0 <= b0 && b0 <= 0xef {
        if len - i > 2 {
            let b1 = bytes[i + 1];
            let b2 = bytes[i + 2];
            if 0x80 <= b1 && b1 <= 0xbf && 0x80 <= b2 && b2 <= 0xbf && (b0 != 0xe0 || b1 >= 0xa0)
                && (b0 != 0xed || b1 <= 0x9f) {
                Some(3)
            } else {
                None
            }
        } else {
            None
        }
    } else if 0xf0 <= b0 && b0 <= 0xf4 {
        if len - i > 3 {
            let b1 = bytes[i + 1];
            let b2 = bytes[i + 2];
            let b3 = bytes[i + 3];
            if 0x80 <= b1 && b1 <= 0xbf && 0x80 <= b2 && b2 <= 0xbf && 0x80 <= b3 && b3 <= 0xbf && (
            b0 != 0xf0 || b1 >= 0x90) && (b0 != 0xf4 || b1 <= 0x8f) {
                Some(4)
            } else {
                None
            }
        } else {
            None
        }
    } else {
        None
    }
}

/// Decides whether `bytes` is well-formed UTF-8, in one forward pass.
pub fn is_utf8(bytes: &[u8]) -> (r: bool)
    ensures
        r == valid_utf8(bytes@),
{
    let len = bytes.len();
    let mut i: usize = 0;
    while i < len
        invariant
            i <= len,
            len == bytes@.len(),
            partial_valid_utf8(bytes@, i as int),
        decreases len - i,
    {
        let ghost t = bytes@.skip(i as int);
        match scalar_step(bytes, i) {
            Some(w) => {
                proof {
                    lemma_scalar_check(t);
                    assert(bytes@.subrange(i as int, bytes@.len() as int) =~= t);
                    partial_valid_utf8_extend(bytes@, i as int);
                }
                i += w;
            },
            None => {
                proof {
                    lemma_scalar_check(t);
                    assert(!valid_utf8(t));
                    assert(bytes@.subrange(i as int, bytes@.len() as int) =~= t);
                    partial_valid_partial_invalid_utf8(bytes@, i as int);
                }
                return false;
            },
        }
    }
    proof {
        assert(bytes@.subrange(0, i as int) =~= bytes@);
    }
    true
}

} // verus!
