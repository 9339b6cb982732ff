//! A UTF-8 validity check, proved against the byte-level encoding spec.
//!
//! The response builder appends the reload snippet only to bodies that
//! are valid UTF-8 text; other bodies are served unmodified. This
//! module decides that question with a table-driven scan over the
//! bytes, verified against `vstd::utf8::valid_utf8`.

use vstd::prelude::*;
use vstd::utf8::codepoint_width_2;
use vstd::utf8::codepoint_width_3;
use vstd::utf8::codepoint_width_4;
use vstd::utf8::is_continuation_byte;
use vstd::utf8::is_leading_byte_width_1;
use vstd::utf8::is_leading_byte_width_2;
use vstd::utf8::is_leading_byte_width_3;
use vstd::utf8::is_leading_byte_width_4;
use vstd::utf8::length_of_first_scalar;
use vstd::utf8::not_overlong_encoding;
use vstd::utf8::not_surrogate;
use vstd::utf8::partial_valid_partial_invalid_utf8;
use vstd::utf8::partial_valid_utf8;
use vstd::utf8::partial_valid_utf8_extend;
use vstd::utf8::valid_first_scalar;
use vstd::utf8::valid_leading_and_continuation_bytes_first_codepoint;
use vstd::utf8::valid_utf8;

verus! {

/// A sequence whose prefix is valid and whose remainder does not start
/// with a well-formed scalar encoding is not valid UTF-8 as a whole.
proof fn lemma_invalid_from(bytes: Seq<u8>, i: int)
    requires
        0 <= i < bytes.len(),
        partial_valid_utf8(bytes, i),
        !valid_first_scalar(bytes.subrange(i, bytes.len() as int)),
    ensures
        !valid_utf8(bytes),
{
    let suffix = bytes.subrange(i, bytes.len() as int);
    assert(suffix.len() > 0);
    assert(!valid_utf8(suffix));
    partial_valid_partial_invalid_utf8(bytes, i);
}

/// True when `b` has the bit pattern of a UTF-8 continuation byte.
fn is_cont(b: u8) -> (r: bool)
    ensures
        r == is_continuation_byte(b),
{
    0x80 <= b && b <= 0xbf
}

/// Decide whether `bytes` is a valid UTF-8 encoding.
///
/// Scans scalar by scalar, rejecting malformed leading or continuation
/// bytes, overlong encodings, surrogate codepoints and values beyond
/// the Unicode range.
pub fn is_utf8(bytes: &Vec<u8>) -> (r: bool)
    ensures
        r == valid_utf8(bytes@),
{
    let n = bytes.len();
    let mut i: usize = 0;
    loop
        invariant
            0 <= i <= n,
            n == bytes@.len(),
            partial_valid_utf8(bytes@, i as int),
        decreases n - i,
    {
        if i == n {
            proof {
                assert(bytes@.subrange(0, n as int) =~= bytes@);
            }
            return true;
        }
        let ghost suffix = bytes@.subrange(i as int, n as int);
        proof {
            assert(suffix[0] == bytes@[i as int]);
        }
        let b0 = bytes[i];
        if b0 < 0x80 {
            proof {
                assert(is_leading_byte_width_1(suffix[0]));
                assert(((b0 & 0x7f) as u32) < 0xd800) by (bit_vector)
                    requires
                        b0 < 0x80,
                ;
                assert(valid_first_scalar(suffix));
                assert(length_of_first_scalar(suffix) == 1);
                partial_valid_utf8_extend(bytes@, i as int);
            }
            i = i + 1;
        } else if b0 < 0xc2 {
            proof {
                lemma_reject_below_c2(bytes@, i as int, suffix, b0);
            }
            return false;
        } else if b0 < 0xe0 {
            if n - i < 2 || !is_cont(bytes[i + 1]) {
                proof {
                    assert(!is_leading_byte_width_1(suffix[0]));
                    assert(!is_leading_byte_width_3(suffix[0]));
                    assert(!is_leading_byte_width_4(suffix[0]));
                    assert(!valid_leading_and_continuation_bytes_first_codepoint(suffix));
                    lemma_invalid_from(bytes@, i as int);
                }
                return false;
            }
            let b1 = bytes[i + 1];
            proof {
                assert(suffix[1] == b1);
                assert(is_leading_byte_width_2(suffix[0]));
                let cp = codepoint_width_2(b0, b1);
                assert(cp == (((b0 & 0x1f) as u32) << 6) | ((b1 & 0x3f) as u32));
                assert({
                    let c = (((b0 & 0x1f) as u32) << 6) | ((b1 & 0x3f) as u32);
                    0x80 <= c < 0xd800
                }) by (bit_vector)
                    requires
                        0xc2 <= b0 < 0xe0,
                ;
                assert(valid_first_scalar(suffix));
                assert(length_of_first_scalar(suffix) == 2);
                partial_valid_utf8_extend(bytes@, i as int);
            }
            i = i + 2;
        } else if b0 < 0xf0 {
            if n - i < 3 || !is_cont(bytes[i + 1]) || !is_cont(bytes[i + 2]) {
                proof {
                    assert(!valid_leading_and_continuation_bytes_first_codepoint(suffix));
                    lemma_invalid_from(bytes@, i as int);
                }
                return false;
            }
            let b1 = bytes[i + 1];
            let b2 = bytes[i + 2];
            if (b0 == 0xe0 && b1 < 0xa0) || (b0 == 0xed && b1 >= 0xa0) {
                proof {
                    lemma_reject_width_3(bytes@, i as int, suffix, b0, b1, b2);
                }
                return false;
            }
            proof {
                assert(suffix[1] == b1 && suffix[2] == b2);
                assert(is_leading_byte_width_3(suffix[0]));
                let cp = codepoint_width_3(b0, b1, b2);
                assert(cp == (((b0 & 0x0f) as u32) << 12) | (((b1 & 0x3f) as u32) << 6) | ((b2
                    & 0x3f) as u32));
                assert({
                    let c = (((b0 & 0x0f) as u32) << 12) | (((b1 & 0x3f) as u32) << 6) | ((b2
                        & 0x3f) as u32);
                    0x800 <= c && !(0xd800 <= c <= 0xdfff)
                }) by (bit_vector)
                    requires
                        0xe0 <= b0 < 0xf0,
                        0x80 <= b1 <= 0xbf,
                        !(b0 == 0xe0 && b1 < 0xa0),
                        !(b0 == 0xed && b1 >= 0xa0),
                ;
                assert(valid_first_scalar(suffix));
                assert(length_of_first_scalar(suffix) == 3);
                partial_valid_utf8_extend(bytes@, i as int);
            }
            i = i + 3;
        } else if b0 < 0xf5 {
            if n - i < 4 || !is_cont(bytes[i + 1]) || !is_cont(bytes[i + 2]) || !is_cont(
                bytes[i + 3],
            ) {
                proof {
                    assert(!valid_leading_and_continuation_bytes_first_codepoint(suffix));
                    lemma_invalid_from(bytes@, i as int);
                }
                return false;
            }
            let b1 = bytes[i + 1];
            let b2 = bytes[i + 2];
            let b3 = bytes[i + 3];
            if (b0 == 0xf0 && b1 < 0x90) || (b0 == 0xf4 && b1 >= 0x90) {
                proof {
                    lemma_reject_width_4(bytes@, i as int, suffix, b0, b1, b2, b3);
                }
                return false;
            }
            proof {
                assert(suffix[1] == b1 && suffix[2] == b2 && suffix[3] == b3);
                assert(is_leading_byte_width_4(suffix[0]));
                let cp = codepoint_width_4(b0, b1, b2, b3);
                assert(cp == (((b0 & 0x07) as u32) << 18) | (((b1 & 0x3f) as u32) << 12) | (((b2
                    & 0x3f) as u32) << 6) | ((b3 & 0x3f) as u32));
                assert({
                    let c = (((b0 & 0x07) as u32) << 18) | (((b1 & 0x3f) as u32) << 12) | (((b2
                        & 0x3f) as u32) << 6) | ((b3 & 0x3f) as u32);
                    0x10000 <= c <= 0x10ffff
                }) by (bit_vector)
                    requires
                        0xf0 <= b0 < 0xf5,
                        0x80 <= b1 <= 0xbf,
                        !(b0 == 0xf0 && b1 < 0x90),
                        !(b0 == 0xf4 && b1 >= 0x90),
                ;
                assert(valid_first_scalar(suffix));
                assert(length_of_first_scalar(suffix) == 4);
                partial_valid_utf8_extend(bytes@, i as int);
            }
            i = i + 4;
        } else {
            proof {
                lemma_reject_from_f5(bytes@, i as int, suffix, b0);
            }
            return false;
        }
    }
}

/// Bytes `0x80..0xc1` cannot start a scalar: `0x80..0xbf` are
/// continuation bytes, and `0xc0`/`0xc1` would be overlong two-byte
/// encodings of one-byte values.
proof fn lemma_reject_below_c2(bytes: Seq<u8>, i: int, suffix: Seq<u8>, b0: u8)
    requires
        0 <= i < bytes.len(),
        partial_valid_utf8(bytes, i),
        suffix == bytes.subrange(i, bytes.len() as int),
        b0 == suffix[0],
        0x80 <= b0 < 0xc2,
    ensures
        !valid_utf8(bytes),
{
    assert(!is_leading_byte_width_1(b0));
    assert(!is_leading_byte_width_3(b0));
    assert(!is_leading_byte_width_4(b0));
    if b0 < 0xc0 {
        assert(!is_leading_byte_width_2(b0));
        assert(!valid_leading_and_continuation_bytes_first_codepoint(suffix));
    } else if suffix.len() >= 2 && is_continuation_byte(suffix[1]) {
        let b1 = suffix[1];
        assert(codepoint_width_2(b0, b1) == (((b0 & 0x1f) as u32) << 6) | ((b1 & 0x3f) as u32));
        assert((((b0 & 0x1f) as u32) << 6) | ((b1 & 0x3f) as u32) < 0x80) by (bit_vector)
            requires
                0xc0 <= b0 < 0xc2,
        ;
        assert(!not_overlong_encoding(codepoint_width_2(b0, b1), 2));
    } else {
        assert(!valid_leading_and_continuation_bytes_first_codepoint(suffix));
    }
    lemma_invalid_from(bytes, i);
}

/// A three-byte sequence starting `0xe0` with a low second byte is an
/// overlong encoding; one starting `0xed` with a high second byte is a
/// surrogate codepoint. Both are rejected.
proof fn lemma_reject_width_3(bytes: Seq<u8>, i: int, suffix: Seq<u8>, b0: u8, b1: u8, b2: u8)
    requires
        0 <= i < bytes.len(),
        partial_valid_utf8(bytes, i),
        suffix == bytes.subrange(i, bytes.len() as int),
        suffix.len() >= 3,
        b0 == suffix[0],
        b1 == suffix[1],
        b2 == suffix[2],
        0xe0 <= b0 < 0xf0,
        is_continuation_byte(b1),
        is_continuation_byte(b2),
        (b0 == 0xe0 && b1 < 0xa0) || (b0 == 0xed && b1 >= 0xa0),
    ensures
        !valid_utf8(bytes),
{
    assert(is_leading_byte_width_3(b0));
    assert(!is_leading_byte_width_1(b0));
    assert(!is_leading_byte_width_2(b0));
    let cp = codepoint_width_3(b0, b1, b2);
    assert(cp == (((b0 & 0x0f) as u32) << 12) | (((b1 & 0x3f) as u32) << 6) | ((b2
        & 0x3f) as u32));
    if b0 == 0xe0 {
        assert((((b0 & 0x0f) as u32) << 12) | (((b1 & 0x3f) as u32) << 6) | ((b2 & 0x3f) as u32)
            < 0x800) by (bit_vector)
            requires
                b0 == 0xe0,
                0x80 <= b1 < 0xa0,
        ;
        assert(!not_overlong_encoding(cp, 3));
    } else {
        assert({
            let c = (((b0 & 0x0f) as u32) << 12) | (((b1 & 0x3f) as u32) << 6) | ((b2
                & 0x3f) as u32);
            0xd800 <= c <= 0xdfff
        }) by (bit_vector)
            requires
                b0 == 0xed,
                0xa0 <= b1 <= 0xbf,
        ;
        assert(!not_surrogate(cp));
    }
    lemma_invalid_from(bytes, i);
}

/// A four-byte sequence starting `0xf0` with a low second byte is an
/// overlong encoding; one starting `0xf4` with a high second byte is
/// beyond the Unicode range. Both are rejected.
proof fn lemma_reject_width_4(
    bytes: Seq<u8>,
    i: int,
    suffix: Seq<u8>,
    b0: u8,
    b1: u8,
    b2: u8,
    b3: u8,
)
    requires
        0 <= i < bytes.len(),
        partial_valid_utf8(bytes, i),
        suffix == bytes.subrange(i, bytes.len() as int),
        suffix.len() >= 4,
        b0 == suffix[0],
        b1 == suffix[1],
        b2 == suffix[2],
        b3 == suffix[3],
        0xf0 <= b0 < 0xf5,
        is_continuation_byte(b1),
        is_continuation_byte(b2),
        is_continuation_byte(b3),
        (b0 == 0xf0 && b1 < 0x90) || (b0 == 0xf4 && b1 >= 0x90),
    ensures
        !valid_utf8(bytes),
{
    assert(is_leading_byte_width_4(b0));
    assert(!is_leading_byte_width_1(b0));
    assert(!is_leading_byte_width_2(b0));
    assert(!is_leading_byte_width_3(b0));
    let cp = codepoint_width_4(b0, b1, b2, b3);
    assert(cp == (((b0 & 0x07) as u32) << 18) | (((b1 & 0x3f) as u32) << 12) | (((b2
        & 0x3f) as u32) << 6) | ((b3 & 0x3f) as u32));
    assert({
        let c = (((b0 & 0x07) as u32) << 18) | (((b1 & 0x3f) as u32) << 12) | (((b2
            & 0x3f) as u32) << 6) | ((b3 & 0x3f) as u32);
        !(0x10000 <= c <= 0x10ffff)
    }) by (bit_vector)
        requires
            (b0 == 0xf0 && 0x80 <= b1 < 0x90) || (b0 == 0xf4 && 0x90 <= b1 <= 0xbf),
    ;
    assert(!not_overlong_encoding(cp, 4));
    lemma_invalid_from(bytes, i);
}

/// Bytes `0xf5` and above cannot start a scalar: `0xf5..0xf7` would
/// encode codepoints beyond the Unicode range, and `0xf8..0xff` match
/// no leading-byte pattern.
proof fn lemma_reject_from_f5(bytes: Seq<u8>, i: int, suffix: Seq<u8>, b0: u8)
    requires
        0 <= i < bytes.len(),
        partial_valid_utf8(bytes, i),
        suffix == bytes.subrange(i, bytes.len() as int),
        b0 == suffix[0],
        b0 >= 0xf5,
    ensures
        !valid_utf8(bytes),
{
    assert(!is_leading_byte_width_1(b0));
    assert(!is_leading_byte_width_2(b0));
    assert(!is_leading_byte_width_3(b0));
    if b0 > 0xf7 {
        assert(!is_leading_byte_width_4(b0));
        assert(!valid_leading_and_continuation_bytes_first_codepoint(suffix));
    } else {
        let b1 = suffix[1];
        let b2 = suffix[2];
        let b3 = suffix[3];
        let cp = codepoint_width_4(b0, b1, b2, b3);
        assert(cp == (((b0 & 0x07) as u32) << 18) | (((b1 & 0x3f) as u32) << 12) | (((b2
            & 0x3f) as u32) << 6) | ((b3 & 0x3f) as u32));
        assert((((b0 & 0x07) as u32) << 18) | (((b1 & 0x3f) as u32) << 12) | (((b2
            & 0x3f) as u32) << 6) | ((b3 & 0x3f) as u32) > 0x10ffff) by (bit_vector)
            requires
                0xf5 <= b0 <= 0xf7,
        ;
        assert(!not_overlong_encoding(cp, 4));
    }
    lemma_invalid_from(bytes, i);
}

} // verus!
