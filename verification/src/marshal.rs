//! Text across the native/managed boundary.
//!
//! The runtime hands out names (of classes, namespaces, fields) as borrowed
//! C strings: the bytes belong to the runtime and are only copied, never
//! released, on this side. Inbound bytes must be valid UTF-8 to become a
//! native [`String`]; a sequence that is not decodable is rejected as a
//! [`MarshalError`], never truncated or replaced. Outbound text becomes a
//! NUL-terminated byte vector, and text with an interior NUL byte is
//! rejected rather than silently cut short.

use vstd::prelude::*;
use vstd::utf8::*;
use crate::error::MarshalError;

verus! {

/// True when the UTF-8 encoding of `text` holds no NUL byte, so the text can
/// cross the boundary as a C string.
pub open spec fn nul_free(text: Seq<char>) -> bool {
    !encode_utf8(text).contains(0u8)
}

/// The C-string form of `text`: its UTF-8 encoding followed by one NUL
/// terminator.
pub open spec fn cstr_of(text: Seq<char>) -> Seq<u8> {
    encode_utf8(text).push(0u8)
}

/// Decides whether `bytes` form a valid UTF-8 encoding, in one pass.
pub fn check_utf8(bytes: &[u8]) -> (b: bool)
    ensures
        b == valid_utf8(bytes@),
{
    let n = bytes.len();
    let mut i: usize = 0;
    proof {
        assert(bytes@.skip(0) =~= bytes@);
    }
    while i < n
        invariant
            i <= n,
            n == bytes@.len(),
            valid_utf8(bytes@) <==> valid_utf8(bytes@.skip(i as int)),
        decreases n - i,
    {
        let ghost s = bytes@.skip(i as int);
        let b0 = bytes[i];
        let width: usize;
        if b0 <= 0x7f {
            // One-byte scalar: never overlong, below the surrogate range.
            proof {
                assert(s[0] == bytes@[i as int]);
                assert(valid_first_scalar(s));
                assert(length_of_first_scalar(s) == 1);
            }
            width = 1;
        } else if 0xc0 <= b0 && b0 <= 0xdf {
            if n - i < 2 {
                proof {
                    assert(s.len() == 1);
                    assert(!valid_leading_and_continuation_bytes_first_codepoint(s));
                    assert(!valid_utf8(s));
                }
                return false;
            }
            let b1 = bytes[i + 1];
            let ok = 0x80 <= b1 && b1 <= 0xbf;
            let cp: u32 = (((b0 & 0x1f) as u32) << 6) | ((b1 & 0x3f) as u32);
            if !(ok && 0x80 <= cp) {
                proof {
                    assert(s[0] == bytes@[i as int] && s[1] == bytes@[i + 1]);
                    assert(cp == codepoint_width_2(b0, b1));
                    assert(!valid_first_scalar(s));
                    assert(!valid_utf8(s));
                }
                return false;
            }
            proof {
                assert(s[0] == bytes@[i as int] && s[1] == bytes@[i + 1]);
                assert(cp == codepoint_width_2(b0, b1));
                assert(cp < 0xd800) by (bit_vector)
                    requires
                        cp == (((b0 & 0x1f) as u32) << 6) | ((b1 & 0x3f) as u32),
                ;
                assert(valid_first_scalar(s));
                assert(length_of_first_scalar(s) == 2);
            }
            width = 2;
        } else if 0xe0 <= b0 && b0 <= 0xef {
            if n - i < 3 {
                proof {
                    assert(s.len() <= 2);
                    assert(!valid_leading_and_continuation_bytes_first_codepoint(s));
                    assert(!valid_utf8(s));
                }
                return false;
            }
            let b1 = bytes[i + 1];
            let b2 = bytes[i + 2];
            let ok = 0x80 <= b1 && b1 <= 0xbf && 0x80 <= b2 && b2 <= 0xbf;
            let cp: u32 = (((b0 & 0x0f) as u32) << 12) | (((b1 & 0x3f) as u32) << 6) | ((b2
                & 0x3f) as u32);
            if !(ok && 0x800 <= cp && !(0xd800 <= cp && cp <= 0xdfff)) {
                proof {
                    assert(s[0] == bytes@[i as int] && s[1] == bytes@[i + 1] && s[2] == bytes@[i
                        + 2]);
                    assert(cp == codepoint_width_3(b0, b1, b2));
                    assert(!valid_first_scalar(s));
                    assert(!valid_utf8(s));
                }
                return false;
            }
            proof {
                assert(s[0] == bytes@[i as int] && s[1] == bytes@[i + 1] && s[2] == bytes@[i + 2]);
                assert(cp == codepoint_width_3(b0, b1, b2));
                assert(valid_first_scalar(s));
                assert(length_of_first_scalar(s) == 3);
            }
            width = 3;
        } else if 0xf0 <= b0 && b0 <= 0xf7 {
            if n - i < 4 {
                proof {
                    assert(s.len() <= 3);
                    assert(!valid_leading_and_continuation_bytes_first_codepoint(s));
                    assert(!valid_utf8(s));
                }
                return false;
            }
            let b1 = bytes[i + 1];
            let b2 = bytes[i + 2];
            let b3 = bytes[i + 3];
            let ok = 0x80 <= b1 && b1 <= 0xbf && 0x80 <= b2 && b2 <= 0xbf && 0x80 <= b3 && b3
                <= 0xbf;
            let cp: u32 = (((b0 & 0x07) as u32) << 18) | (((b1 & 0x3f) as u32) << 12) | (((b2
                & 0x3f) as u32) << 6) | ((b3 & 0x3f) as u32);
            if !(ok && 0x10000 <= cp && cp <= 0x10ffff) {
                proof {
                    assert(s[0] == bytes@[i as int] && s[1] == bytes@[i + 1] && s[2] == bytes@[i
                        + 2] && s[3] == bytes@[i + 3]);
                    assert(cp == codepoint_width_4(b0, b1, b2, b3));
                    assert(!valid_first_scalar(s));
                    assert(!valid_utf8(s));
                }
                return false;
            }
            proof {
                assert(s[0] == bytes@[i as int] && s[1] == bytes@[i + 1] && s[2] == bytes@[i + 2]
                    && s[3] == bytes@[i + 3]);
                assert(cp == codepoint_width_4(b0, b1, b2, b3));
                assert(valid_first_scalar(s));
                assert(length_of_first_scalar(s) == 4);
            }
            width = 4;
        } else {
            // A stray continuation byte, or a byte no encoding begins with.
            proof {
                assert(s[0] == bytes@[i as int]);
                assert(!valid_leading_and_continuation_bytes_first_codepoint(s));
                assert(!valid_utf8(s));
            }
            return false;
        }
        proof {
            assert(pop_first_scalar(s) =~= bytes@.skip(i + width as int));
            assert(valid_utf8(s) <==> valid_utf8(bytes@.skip(i + width as int)));
        }
        i = i + width;
    }
    proof {
        assert(bytes@.skip(n as int) =~= Seq::<u8>::empty());
        assert(valid_utf8(bytes@.skip(n as int)));
    }
    true
}

/// Relies on std's String::from_utf8: bytes already checked to be valid
/// UTF-8 become the string whose characters they encode.
#[verifier::external_body]
fn utf8_to_string(bytes: &Vec<u8>) -> (r: String)
    requires
        valid_utf8(bytes@),
    ensures
        r@ == decode_utf8(bytes@),
{
    String::from_utf8(bytes.clone()).expect("bytes were checked to be valid UTF-8")
}

/// Copies a borrowed foreign string into a natively owned one.
///
/// `bytes` are the bytes of the foreign string up to (and excluding) its NUL
/// terminator, copied from memory the runtime still owns; the foreign pointer
/// is never released on this side. Succeeds exactly when the bytes are valid
/// UTF-8, and then returns their decoding.
pub fn read_foreign_cstr(bytes: &Vec<u8>) -> (r: Result<String, MarshalError>)
    ensures
        r is Ok <==> valid_utf8(bytes@),
        r is Ok ==> r.unwrap()@ == decode_utf8(bytes@),
        r is Err ==> r.unwrap_err() == MarshalError::InvalidUtf8,
{
    if check_utf8(bytes.as_slice()) {
        Ok(utf8_to_string(bytes))
    } else {
        Err(MarshalError::InvalidUtf8)
    }
}

/// Encodes native text as a NUL-terminated byte vector for a foreign call.
///
/// Succeeds exactly when the encoding holds no interior NUL byte, and then
/// returns the encoding followed by a single NUL terminator.
pub fn to_cstring_bytes(s: &str) -> (r: Result<Vec<u8>, MarshalError>)
    ensures
        r is Ok <==> nul_free(s@),
        r is Ok ==> r.unwrap()@ == cstr_of(s@),
        r is Err ==> r.unwrap_err() == MarshalError::InteriorNul,
{
    let b = s.as_bytes();
    let n = b.len();
    let mut out: Vec<u8> = Vec::new();
    let mut i: usize = 0;
    while i < n
        invariant
            i <= n,
            n == b@.len(),
            b@ == encode_utf8(s@),
            out@ == b@.take(i as int),
            forall|k: int| 0 <= k < i ==> b@[k] != 0u8,
        decreases n - i,
    {
        let byte = b[i];
        if byte == 0 {
            proof {
                assert(encode_utf8(s@).contains(0u8)) by {
                    assert(encode_utf8(s@)[i as int] == 0u8);
                }
            }
            return Err(MarshalError::InteriorNul);
        }
        out.push(byte);
        proof {
            assert(out@ =~= b@.take(i + 1));
        }
        i = i + 1;
    }
    proof {
        assert(!encode_utf8(s@).contains(0u8));
        assert(out@ =~= b@);
    }
    out.push(0);
    Ok(out)
}

/// The text round trip across the boundary.
///
/// Sending text out with [`to_cstring_bytes`] and reading the produced bytes
/// back (without the terminator) with [`read_foreign_cstr`] yields the same
/// text: the encoding of any native text is valid UTF-8, and decoding it
/// gives the original characters back.
pub proof fn lemma_cstring_round_trip(text: Seq<char>)
    ensures
        valid_utf8(cstr_of(text).drop_last()),
        decode_utf8(cstr_of(text).drop_last()) == text,
{
    broadcast use encode_utf8_valid_utf8, encode_utf8_decode_utf8;

    assert(cstr_of(text).drop_last() =~= encode_utf8(text));
}

} // verus!
