//! Verified UTF-8 validation of raw frame buffers.
//!
//! A frame is rejected as a whole when its bytes are not valid text; the
//! check here is proved equivalent to `vstd::utf8::valid_utf8`.

use vstd::prelude::*;
use vstd::utf8::is_continuation_byte;
use vstd::utf8::length_of_first_scalar;
use vstd::utf8::pop_first_scalar;
use vstd::utf8::valid_first_scalar;
use vstd::utf8::valid_utf8;

verus! {

/// The byte length of the scalar encoded at the front of `t`, or 0 when the
/// front of `t` is not a well-formed scalar encoding.
pub open spec fn checked_scalar_len(t: Seq<u8>) -> int {
    if t.len() >= 1 && t[0] <= 0x7f {
        1
    } else if t.len() >= 2 && 0xc2 <= t[0] <= 0xdf && is_continuation_byte(t[1]) {
        2
    } else if t.len() >= 3 && 0xe0 <= t[0] <= 0xef && is_continuation_byte(t[1])
        && is_continuation_byte(t[2]) && (t[0] == 0xe0 ==> t[1] >= 0xa0) && (t[0] == 0xed
        ==> t[1] <= 0x9f) {
        3
    } else if t.len() >= 4 && 0xf0 <= t[0] <= 0xf4 && is_continuation_byte(t[1])
        && is_continuation_byte(t[2]) && is_continuation_byte(t[3]) && (t[0] == 0xf0 ==> t[1]
        >= 0x90) && (t[0] == 0xf4 ==> t[1] <= 0x8f) {
        4
    } else {
        0
    }
}

proof fn lemma_checked_scalar_len(t: Seq<u8>)
    requires
        t.len() > 0,
    ensures
        checked_scalar_len(t) != 0 ==> valid_first_scalar(t) && length_of_first_scalar(t)
            == checked_scalar_len(t),
        checked_scalar_len(t) == 0 ==> !valid_first_scalar(t),
{
    let b0 = t[0];
    if b0 <= 0x7f {
        assert((b0 & 0x7f) <= 0x7f) by (bit_vector);
    } else if t.len() >= 2 && 0xc2 <= b0 <= 0xdf && is_continuation_byte(t[1]) {
        let b1 = t[1];
        assert((0xc2 <= b0 <= 0xdf && 0x80 <= b1 <= 0xbf) ==> 0x80 <= (((b0 & 0x1f) as u32) << 6
            | ((b1 & 0x3f) as u32)) <= 0x7ff) by (bit_vector);
    } else if t.len() >= 3 && 0xe0 <= b0 <= 0xef && is_continuation_byte(t[1])
        && is_continuation_byte(t[2]) && (b0 == 0xe0 ==> t[1] >= 0xa0) && (b0 == 0xed ==> t[1]
        <= 0x9f) {
        let b1 = t[1];
        let b2 = t[2];
        assert((0xe0 <= b0 <= 0xef && 0x80 <= b1 <= 0xbf && 0x80 <= b2 <= 0xbf && (b0 == 0xe0 ==> b1
            >= 0xa0) && (b0 == 0xed ==> b1 <= 0x9f)) ==> {
            let cp = ((b0 & 0x0f) as u32) << 12 | ((b1 & 0x3f) as u32) << 6 | ((b2
                & 0x3f) as u32);
            0x800 <= cp && !(0xd800 <= cp <= 0xdfff)
        }) by (bit_vector);
    } else if t.len() >= 4 && 0xf0 <= b0 <= 0xf4 && is_continuation_byte(t[1])
        && is_continuation_byte(t[2]) && is_continuation_byte(t[3]) && (b0 == 0xf0 ==> t[1]
        >= 0x90) && (b0 == 0xf4 ==> t[1] <= 0x8f) {
        let b1 = t[1];
        let b2 = t[2];
        let b3 = t[3];
        assert((0xf0 <= b0 <= 0xf4 && 0x80 <= b1 <= 0xbf && 0x80 <= b2 <= 0xbf && 0x80 <= b3
            <= 0xbf && (b0 == 0xf0 ==> b1 >= 0x90) && (b0 == 0xf4 ==> b1 <= 0x8f)) ==> {
            let cp = ((b0 & 0x07) as u32) << 18 | ((b1 & 0x3f) as u32) << 12 | ((b2
                & 0x3f) as u32) << 6 | ((b3 & 0x3f) as u32);
            0x10000 <= cp <= 0x10ffff
        }) by (bit_vector);
    } else {
        // checked_scalar_len(t) == 0: refute each way the front could still
        // be a valid scalar.
        if valid_first_scalar(t) {
            if 0xc0 <= b0 <= 0xc1 {
                let b1 = t[1];
                assert((0xc0 <= b0 <= 0xc1) ==> (((b0 & 0x1f) as u32) << 6 | ((b1
                    & 0x3f) as u32)) < 0x80) by (bit_vector);
            } else if 0xe0 <= b0 <= 0xef && t.len() >= 3 && is_continuation_byte(t[1])
                && is_continuation_byte(t[2]) {
                let b1 = t[1];
                let b2 = t[2];
                if b0 == 0xe0 && b1 < 0xa0 {
                    assert((b0 == 0xe0 && 0x80 <= b1 < 0xa0 && 0x80 <= b2 <= 0xbf) ==> (((b0
                        & 0x0f) as u32) << 12 | ((b1 & 0x3f) as u32) << 6 | ((b2
                        & 0x3f) as u32)) < 0x800) by (bit_vector);
                } else {
                    assert((b0 == 0xed && 0xa0 <= b1 <= 0xbf && 0x80 <= b2 <= 0xbf) ==> 0xd800
                        <= (((b0 & 0x0f) as u32) << 12 | ((b1 & 0x3f) as u32) << 6 | ((b2
                        & 0x3f) as u32)) <= 0xdfff) by (bit_vector);
                }
            } else if 0xf0 <= b0 <= 0xf7 && t.len() >= 4 && is_continuation_byte(t[1])
                && is_continuation_byte(t[2]) && is_continuation_byte(t[3]) {
                let b1 = t[1];
                let b2 = t[2];
                let b3 = t[3];
                if b0 == 0xf0 && b1 < 0x90 {
                    assert((b0 == 0xf0 && 0x80 <= b1 < 0x90 && 0x80 <= b2 <= 0xbf && 0x80 <= b3
                        <= 0xbf) ==> (((b0 & 0x07) as u32) << 18 | ((b1 & 0x3f) as u32) << 12
                        | ((b2 & 0x3f) as u32) << 6 | ((b3 & 0x3f) as u32)) < 0x10000)
                        by (bit_vector);
                } else {
                    assert(((b0 == 0xf4 && 0x90 <= b1 <= 0xbf || 0xf5 <= b0 <= 0xf7 && 0x80 <= b1
                        <= 0xbf) && 0x80 <= b2 <= 0xbf && 0x80 <= b3 <= 0xbf) ==> (((b0
                        & 0x07) as u32) << 18 | ((b1 & 0x3f) as u32) << 12 | ((b2
                        & 0x3f) as u32) << 6 | ((b3 & 0x3f) as u32)) > 0x10ffff) by (bit_vector);
                }
            }
        }
    }
}

fn is_cont(b: u8) -> (r: bool)
    ensures
        r == is_continuation_byte(b),
{
    0x80 <= b && b <= 0xbf
}

/// Whether the bytes of `s` are a valid UTF-8 encoding.
pub fn is_valid_utf8(s: &[u8]) -> (r: bool)
    ensures
        r == valid_utf8(s@),
{
    let n: usize = s.len();
    let mut i: usize = 0;
    proof {
        assert(s@.skip(0) =~= s@);
    }
    while i < n
        invariant
            0 <= i <= n,
            n == s@.len(),
            valid_utf8(s@) == valid_utf8(s@.skip(i as int)),
        decreases n - i,
    {
        let ghost t = s@.skip(i as int);
        let b0: u8 = s[i];
        let rem: usize = n - i;
        proof {
            assert(t.len() == rem);
            assert(t[0] == b0);
            assert(rem >= 2 ==> t[1] == s@[i + 1]);
            assert(rem >= 3 ==> t[2] == s@[i + 2]);
            assert(rem >= 4 ==> t[3] == s@[i + 3]);
        }
        let w: usize = if b0 <= 0x7f {
            1
        } else if 0xc2 <= b0 && b0 <= 0xdf && rem >= 2 && is_cont(s[i + 1]) {
            2
        } else if 0xe0 <= b0 && b0 <= 0xef && rem >= 3 && is_cont(s[i + 1]) && is_cont(s[i + 2])
            && (b0 != 0xe0 || s[i + 1] >= 0xa0) && (b0 != 0xed || s[i + 1] <= 0x9f) {
            3
        } else if 0xf0 <= b0 && b0 <= 0xf4 && rem >= 4 && is_cont(s[i + 1]) && is_cont(s[i + 2])
            && is_cont(s[i + 3]) && (b0 != 0xf0 || s[i + 1] >= 0x90) && (b0 != 0xf4 || s[i + 1]
            <= 0x8f) {
            4
        } else {
            0
        };
        proof {
            lemma_checked_scalar_len(t);
            assert(checked_scalar_len(t) == w);
        }
        if w == 0 {
            return false;
        }
        proof {
            assert(pop_first_scalar(t) =~= s@.skip(i + w));
        }
        i = i + w;
    }
    proof {
        assert(s@.skip(n as int).len() == 0);
    }
    true
}

} // verus!
