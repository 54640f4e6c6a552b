//! Decoding of untrusted byte payloads into validated numbers.
//!
//! A payload is accepted exactly when it is valid UTF-8 text consisting of
//! one or more ASCII decimal digits whose value fits in `u8`. Decoding
//! fails closed: a payload that is not valid UTF-8 is rejected with
//! [`DecodeError::NotUtf8`], and one that is valid UTF-8 but is not a
//! base-10 integer in range is rejected with [`DecodeError::NotANumber`].

use vstd::prelude::*;

verus! {

use vstd::utf8::{
    valid_utf8, valid_first_scalar, valid_leading_and_continuation_bytes_first_codepoint,
    decode_first_codepoint, length_of_first_codepoint, length_of_first_scalar,
    pop_first_scalar, is_leading_byte_width_1, is_leading_byte_width_2,
    is_leading_byte_width_3, is_leading_byte_width_4, is_continuation_byte, not_surrogate,
};

/// Why a payload could not be decoded into a number.
#[derive(Clone, Copy, Debug, PartialEq, Eq, Structural)]
pub enum DecodeError {
    /// The payload is not a valid UTF-8 byte sequence.
    NotUtf8,
    /// The payload is valid UTF-8 but is not a base-10 integer in range.
    NotANumber,
}

/// True when `b` is the ASCII code of a decimal digit.
pub open spec fn is_digit_byte(b: u8) -> bool {
    0x30 <= b <= 0x39
}

/// True when every byte of `s` is an ASCII decimal digit.
pub open spec fn all_digit_bytes(s: Seq<u8>) -> bool {
    forall|i: int| 0 <= i < s.len() ==> is_digit_byte(#[trigger] s[i])
}

/// The numeric value of a sequence of ASCII decimal digits, most
/// significant digit first.
pub open spec fn dec_value(s: Seq<u8>) -> int
    decreases s.len(),
{
    if s.len() == 0 {
        0
    } else {
        10 * dec_value(s.drop_last()) + (s.last() - 0x30)
    }
}

/// The canonical ASCII decimal representation of `n`: no sign and no
/// leading zeros (a single `0` digit for zero).
pub open spec fn dec_repr(n: nat) -> Seq<u8>
    decreases n,
{
    if n < 10 {
        seq![(0x30 + n) as u8]
    } else {
        dec_repr(n / 10).push((0x30 + n % 10) as u8)
    }
}

/// What `decode` returns on a given payload: the payload must be valid
/// UTF-8 and must spell a base-10 integer in `[0, 255]`.
pub open spec fn decode_spec(s: Seq<u8>) -> Result<u8, DecodeError> {
    if !valid_utf8(s) {
        Err(DecodeError::NotUtf8)
    } else if s.len() == 0 || !all_digit_bytes(s) || dec_value(s) > 255 {
        Err(DecodeError::NotANumber)
    } else {
        Ok(dec_value(s) as u8)
    }
}

/// Consuming one well-formed scalar from the front of the suffix at `i`
/// reduces checking the suffix at `i` to checking the suffix at `i + w`.
proof fn lemma_valid_utf8_step(s: Seq<u8>, i: int, w: int)
    requires
        0 <= i,
        1 <= w,
        i + w <= s.len(),
        valid_first_scalar(s.skip(i)),
        length_of_first_scalar(s.skip(i)) == w,
    ensures
        valid_utf8(s.skip(i)) == valid_utf8(s.skip(i + w)),
{
    let t = s.skip(i);
    assert(pop_first_scalar(t) =~= s.skip(i + w));
}

/// True when `b` has the form of a UTF-8 continuation byte.
fn is_cont(b: u8) -> (r: bool)
    ensures
        r == is_continuation_byte(b),
{
    0x80 <= b && b <= 0xbf
}

/// Checks whether `s` is a valid UTF-8 byte sequence, in the sense of
/// `vstd::utf8::valid_utf8`.
pub fn is_valid_utf8_bytes(s: &Vec<u8>) -> (r: bool)
    ensures
        r == valid_utf8(s@),
{
    let n = s.len();
    let mut i: usize = 0;
    proof {
        assert(s@.skip(0) =~= s@);
    }
    while i < n
        invariant
            0 <= i <= n,
            n == s@.len(),
            valid_utf8(s@) == valid_utf8(s@.skip(i as int)),
        decreases n - i,
    {
        let ghost t = s@.skip(i as int);
        let b0 = s[i];
        proof {
            assert(t.len() == n - i);
            assert(t[0] == b0);
        }
        if b0 <= 0x7f {
            let cp: u32 = (b0 & 0x7f) as u32;
            proof {
                assert(is_leading_byte_width_1(b0));
                assert(decode_first_codepoint(t) == cp);
            }
            if 0xd800 <= cp && cp <= 0xdfff {
                proof {
                    assert(!not_surrogate(decode_first_codepoint(t)));
                }
                return false;
            }
            proof {
                assert(valid_first_scalar(t));
                assert(length_of_first_scalar(t) == 1);
                lemma_valid_utf8_step(s@, i as int, 1);
            }
            i = i + 1;
        } else if 0xc0 <= b0 && b0 <= 0xdf {
            if n - i < 2 {
                proof {
                    assert(!valid_leading_and_continuation_bytes_first_codepoint(t));
                }
                return false;
            }
            let b1 = s[i + 1];
            proof {
                assert(t[1] == b1);
            }
            if !is_cont(b1) {
                proof {
                    assert(!valid_leading_and_continuation_bytes_first_codepoint(t));
                }
                return false;
            }
            let cp: u32 = (((b0 & 0x1f) as u32) << 6u32) | ((b1 & 0x3f) as u32);
            proof {
                assert(is_leading_byte_width_2(b0));
                assert(decode_first_codepoint(t) == cp);
                assert(length_of_first_codepoint(t) == 2);
            }
            if cp < 0x80 || (0xd800 <= cp && cp <= 0xdfff) {
                proof {
                    assert(!valid_first_scalar(t));
                }
                return false;
            }
            proof {
                assert(valid_first_scalar(t));
                lemma_valid_utf8_step(s@, i as int, 2);
            }
            i = i + 2;
        } else if 0xe0 <= b0 && b0 <= 0xef {
            if n - i < 3 {
                proof {
                    assert(!valid_leading_and_continuation_bytes_first_codepoint(t));
                }
                return false;
            }
            let b1 = s[i + 1];
            let b2 = s[i + 2];
            proof {
                assert(t[1] == b1);
                assert(t[2] == b2);
            }
            if !is_cont(b1) || !is_cont(b2) {
                proof {
                    assert(!valid_leading_and_continuation_bytes_first_codepoint(t));
                }
                return false;
            }
            let cp: u32 = (((b0 & 0x0f) as u32) << 12u32) | (((b1 & 0x3f) as u32) << 6u32)
                | ((b2 & 0x3f) as u32);
            proof {
                assert(is_leading_byte_width_3(b0));
                assert(decode_first_codepoint(t) == cp);
                assert(length_of_first_codepoint(t) == 3);
            }
            if cp < 0x800 || (0xd800 <= cp && cp <= 0xdfff) {
                proof {
                    assert(!valid_first_scalar(t));
                }
                return false;
            }
            proof {
                assert(valid_first_scalar(t));
                lemma_valid_utf8_step(s@, i as int, 3);
            }
            i = i + 3;
        } else if 0xf0 <= b0 && b0 <= 0xf7 {
            if n - i < 4 {
                proof {
                    assert(!valid_leading_and_continuation_bytes_first_codepoint(t));
                }
                return false;
            }
            let b1 = s[i + 1];
            let b2 = s[i + 2];
            let b3 = s[i + 3];
            proof {
                assert(t[1] == b1);
                assert(t[2] == b2);
                assert(t[3] == b3);
            }
            if !is_cont(b1) || !is_cont(b2) || !is_cont(b3) {
                proof {
                    assert(!valid_leading_and_continuation_bytes_first_codepoint(t));
                }
                return false;
            }
            let cp: u32 = (((b0 & 0x07) as u32) << 18u32) | (((b1 & 0x3f) as u32) << 12u32)
                | (((b2 & 0x3f) as u32) << 6u32) | ((b3 & 0x3f) as u32);
            proof {
                assert(is_leading_byte_width_4(b0));
                assert(decode_first_codepoint(t) == cp);
                assert(length_of_first_codepoint(t) == 4);
            }
            if cp < 0x10000 || cp > 0x10ffff || (0xd800 <= cp && cp <= 0xdfff) {
                proof {
                    assert(!valid_first_scalar(t));
                }
                return false;
            }
            proof {
                assert(valid_first_scalar(t));
                lemma_valid_utf8_step(s@, i as int, 4);
            }
            i = i + 4;
        } else {
            proof {
                assert(!valid_leading_and_continuation_bytes_first_codepoint(t));
            }
            return false;
        }
    }
    proof {
        assert(s@.skip(n as int) =~= Seq::<u8>::empty());
    }
    true
}

/// A decimal prefix already worth more than 255 can only stay out of
/// range, or run into a non-digit byte.
proof fn lemma_dec_value_grows(s: Seq<u8>, j: int)
    requires
        0 <= j <= s.len(),
        dec_value(s.take(j)) > 255,
    ensures
        !all_digit_bytes(s) || dec_value(s) > 255,
    decreases s.len() - j,
{
    if j == s.len() {
        assert(s.take(j) =~= s);
    } else if is_digit_byte(s[j]) {
        assert(s.take(j + 1).drop_last() =~= s.take(j));
        assert(s.take(j + 1).last() == s[j]);
        assert(dec_value(s.take(j + 1)) == 10 * dec_value(s.take(j)) + (s[j] - 0x30));
        lemma_dec_value_grows(s, j + 1);
    } else {
        assert(!all_digit_bytes(s)) by {
            assert(!is_digit_byte(s[j]));
        }
    }
}

/// Converts a raw payload into a validated number. Fails closed: the
/// payload must be valid UTF-8 (`DecodeError::NotUtf8` otherwise) and
/// must spell a base-10 integer in `[0, 255]` (`DecodeError::NotANumber`
/// otherwise).
pub fn decode(payload: &Vec<u8>) -> (r: Result<u8, DecodeError>)
    ensures
        r == decode_spec(payload@),
{
    if !is_valid_utf8_bytes(payload) {
        return Err(DecodeError::NotUtf8);
    }
    let n = payload.len();
    if n == 0 {
        return Err(DecodeError::NotANumber);
    }
    let mut acc: u16 = 0;
    let mut i: usize = 0;
    while i < n
        invariant
            0 <= i <= n,
            n == payload@.len(),
            n > 0,
            valid_utf8(payload@),
            acc <= 255,
            acc == dec_value(payload@.take(i as int)),
            all_digit_bytes(payload@.take(i as int)),
        decreases n - i,
    {
        let b = payload[i];
        if b < 0x30 || b > 0x39 {
            proof {
                assert(!all_digit_bytes(payload@)) by {
                    assert(!is_digit_byte(payload@[i as int]));
                }
            }
            return Err(DecodeError::NotANumber);
        }
        let acc2: u16 = acc * 10 + (b - 0x30) as u16;
        proof {
            assert(payload@.take(i as int + 1).drop_last() =~= payload@.take(i as int));
            assert(payload@.take(i as int + 1).last() == b);
            assert(dec_value(payload@.take(i as int + 1)) == 10 * acc + (b - 0x30));
        }
        if acc2 > 255 {
            proof {
                lemma_dec_value_grows(payload@, i as int + 1);
            }
            return Err(DecodeError::NotANumber);
        }
        proof {
            assert(all_digit_bytes(payload@.take(i as int + 1))) by {
                assert(forall|j: int|
                    0 <= j < i ==> payload@.take(i as int + 1)[j] == #[trigger] payload@.take(
                        i as int,
                    )[j]);
            }
        }
        acc = acc2;
        i = i + 1;
    }
    proof {
        assert(payload@.take(n as int) =~= payload@);
    }
    Ok(acc as u8)
}

/// Encodes `n` as ASCII decimal digits, most significant first.
pub fn encode(n: u128) -> (r: Vec<u8>)
    ensures
        r@ == dec_repr(n as nat),
    decreases n,
{
    if n < 10 {
        let mut r: Vec<u8> = Vec::new();
        r.push(0x30 + n as u8);
        assert(r@ =~= dec_repr(n as nat));
        r
    } else {
        let mut r = encode(n / 10);
        r.push(0x30 + (n % 10) as u8);
        r
    }
}

/// The canonical decimal representation is nonempty and all digits.
proof fn lemma_dec_repr_digits(n: nat)
    ensures
        dec_repr(n).len() >= 1,
        all_digit_bytes(dec_repr(n)),
    decreases n,
{
    if n >= 10 {
        lemma_dec_repr_digits(n / 10);
        assert(all_digit_bytes(dec_repr(n))) by {
            assert(forall|j: int|
                0 <= j < dec_repr(n / 10).len() ==> dec_repr(n)[j] == #[trigger] dec_repr(
                    n / 10,
                )[j]);
        }
    }
}

/// Reading the canonical decimal representation back gives the number.
proof fn lemma_dec_repr_value(n: nat)
    ensures
        dec_value(dec_repr(n)) == n,
    decreases n,
{
    if n < 10 {
        assert(dec_repr(n).drop_last() =~= Seq::<u8>::empty());
        assert(dec_value(Seq::<u8>::empty()) == 0);
        assert(dec_repr(n).last() == (0x30 + n) as u8);
    } else {
        lemma_dec_repr_value(n / 10);
        assert(dec_repr(n).drop_last() =~= dec_repr(n / 10));
        assert(dec_repr(n).last() == (0x30 + n % 10) as u8);
        vstd::arithmetic::div_mod::lemma_fundamental_div_mod(n as int, 10);
        assert(dec_value(dec_repr(n)) == 10 * (n / 10) + n % 10);
    }
}

/// A sequence of plain ASCII bytes is valid UTF-8.
proof fn lemma_ascii_valid_utf8(s: Seq<u8>)
    requires
        forall|i: int| 0 <= i < s.len() ==> #[trigger] s[i] < 0x80,
    ensures
        valid_utf8(s),
    decreases s.len(),
{
    if s.len() > 0 {
        let b0 = s[0];
        assert(is_leading_byte_width_1(b0));
        assert(b0 & 0x7f < 0xd800) by (bit_vector);
        assert(not_surrogate(decode_first_codepoint(s)));
        assert(valid_first_scalar(s));
        assert(length_of_first_scalar(s) == 1);
        lemma_ascii_valid_utf8(pop_first_scalar(s));
    }
}

/// Round trip: decoding the canonical encoding of any `u8` gives back
/// exactly that number.
pub proof fn lemma_decode_encode_roundtrip(n: u8)
    ensures
        decode_spec(dec_repr(n as nat)) == Ok::<u8, DecodeError>(n),
{
    lemma_dec_repr_digits(n as nat);
    lemma_dec_repr_value(n as nat);
    lemma_ascii_valid_utf8(dec_repr(n as nat));
}

} // verus!
