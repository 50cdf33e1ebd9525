//! `Utf8Bytes`: an immutable byte buffer that is known to hold valid UTF-8.
//!
//! The invariant is established once, at construction: the fallible entry
//! points validate raw bytes, and the infallible ones start from string types
//! whose bytes are valid by construction. Later access reinterprets the bytes
//! without re-validation.

use crate::buffer::{
    bytes_as_slice, bytes_copy_from_slice, bytes_from_static, bytes_from_vec, bytes_len,
    bytes_view,
};
use vstd::prelude::*;
use vstd::utf8::{
    decode_first_codepoint, encode_utf8, encode_utf8_valid_utf8, pop_first_scalar,
    valid_first_scalar, valid_utf8,
};

verus! {

/// A UTF-8 payload. Its view is the byte sequence; every value of the type
/// satisfies `valid_utf8` of that sequence.
pub struct Utf8Bytes {
    bytes: bytes::Bytes,
}

impl View for Utf8Bytes {
    type V = Seq<u8>;

    closed spec fn view(&self) -> Seq<u8> {
        bytes_view(self.bytes)
    }
}

impl Utf8Bytes {
    /// The construction-time guarantee: the bytes are valid UTF-8.
    #[verifier::type_invariant]
    spec fn inv(self) -> bool {
        valid_utf8(bytes_view(self.bytes))
    }

    /// Fallible conversion from a raw buffer: succeeds exactly on valid
    /// UTF-8, and hands the buffer back unchanged otherwise.
    pub fn try_from_bytes(b: bytes::Bytes) -> (r: Result<Utf8Bytes, bytes::Bytes>)
        ensures
            valid_utf8(bytes_view(b)) ==> (r matches Ok(u) && u@ == bytes_view(b)),
            !valid_utf8(bytes_view(b)) ==> r == Err::<Utf8Bytes, bytes::Bytes>(b),
    {
        if is_valid_utf8(bytes_as_slice(&b)) {
            Ok(Utf8Bytes { bytes: b })
        } else {
            Err(b)
        }
    }

    /// Fallible conversion from raw bytes: succeeds exactly on valid UTF-8,
    /// and hands the bytes back unchanged otherwise.
    pub fn try_from_vec(v: Vec<u8>) -> (r: Result<Utf8Bytes, Vec<u8>>)
        ensures
            valid_utf8(v@) ==> (r matches Ok(u) && u@ == v@),
            !valid_utf8(v@) ==> (r matches Err(w) && w@ == v@),
    {
        if is_valid_utf8(v.as_slice()) {
            Ok(Utf8Bytes { bytes: bytes_from_vec(v) })
        } else {
            Err(v)
        }
    }

    /// Infallible conversion from an owned string: a string's bytes are valid
    /// by construction.
    pub fn from_string(s: String) -> (r: Utf8Bytes)
        ensures
            r@ == encode_utf8(s@),
    {
        let v = string_into_bytes(s);
        proof {
            encode_utf8_valid_utf8(s@);
        }
        Utf8Bytes { bytes: bytes_from_vec(v) }
    }

    /// Infallible conversion from a string slice.
    pub fn from_str(s: &str) -> (r: Utf8Bytes)
        ensures
            r@ == encode_utf8(s@),
    {
        let b = s.as_bytes();
        proof {
            encode_utf8_valid_utf8(s@);
        }
        Utf8Bytes { bytes: bytes_copy_from_slice(b) }
    }

    /// Infallible conversion from a static string slice, without copying.
    pub fn from_static(s: &'static str) -> (r: Utf8Bytes)
        ensures
            r@ == encode_utf8(s@),
    {
        let b = s.as_bytes();
        proof {
            encode_utf8_valid_utf8(s@);
        }
        Utf8Bytes { bytes: bytes_from_static(b) }
    }

    /// The payload as a string slice: a reinterpretation of the bytes, never
    /// a re-validation.
    pub fn as_str(&self) -> (r: &str)
        ensures
            encode_utf8(r@) == self@,
    {
        proof {
            use_type_invariant(self);
        }
        str_from_utf8(bytes_as_slice(&self.bytes))
    }

    /// Whether the payload reads as the given string: true exactly when the
    /// bytes are the string's UTF-8 encoding.
    pub fn eq_str(&self, other: &str) -> (r: bool)
        ensures
            r == (self@ == encode_utf8(other@)),
    {
        let a = bytes_as_slice(&self.bytes);
        let b = other.as_bytes();
        if a.len() != b.len() {
            return false;
        }
        let n = a.len();
        let mut j: usize = 0;
        while j < n
            invariant
                j <= n,
                n == a@.len(),
                n == b@.len(),
                a@ == self@,
                b@ == encode_utf8(other@),
                forall|i: int| 0 <= i < j ==> a@[i] == b@[i],
            decreases n - j,
        {
            if a[j] != b[j] {
                return false;
            }
            j = j + 1;
        }
        proof {
            assert(a@ =~= b@);
        }
        true
    }

    /// The payload's length in bytes.
    pub fn len(&self) -> (n: usize)
        ensures
            n == self@.len(),
    {
        bytes_len(&self.bytes)
    }

    /// Gives up the UTF-8 guarantee and hands out the underlying buffer.
    pub fn into_bytes(self) -> (b: bytes::Bytes)
        ensures
            bytes_view(b) == self@,
    {
        self.bytes
    }
}

/// Decides UTF-8 validity of a byte slice: one scalar encoding at a time,
/// checking the leading byte's class, the continuation bytes, the overlong
/// floor for each width, the surrogate range, and the scalar ceiling.
pub fn is_valid_utf8(v: &[u8]) -> (r: bool)
    ensures
        r == valid_utf8(v@),
{
    let n = v.len();
    let mut i: usize = 0;
    proof {
        assert(v@.skip(0) =~= v@);
    }
    loop
        invariant
            i <= n,
            n == v@.len(),
            valid_utf8(v@) == valid_utf8(v@.skip(i as int)),
        decreases n - i,
    {
        let ghost s = v@.skip(i as int);
        if i == n {
            proof {
                assert(s =~= Seq::<u8>::empty());
            }
            return true;
        }
        assert(s[0] == v@[i as int]);
        let b0 = v[i];
        let remaining = n - i;
        if b0 <= 0x7f {
            // a one-byte encoding is never overlong and never a surrogate
            assert(((b0 & 0x7f) as u32) <= 0x7f) by (bit_vector);
            assert(valid_first_scalar(s));
            proof {
                assert(pop_first_scalar(s) =~= v@.skip(i as int + 1));
            }
            i = i + 1;
        } else if 0xc0 <= b0 && b0 <= 0xdf {
            if remaining < 2 {
                assert(!valid_first_scalar(s));
                return false;
            }
            assert(s[1] == v@[i as int + 1]);
            let b1 = v[i + 1];
            if !(0x80 <= b1 && b1 <= 0xbf) {
                assert(!valid_first_scalar(s));
                return false;
            }
            let cp = (((b0 & 0x1f) as u32) << 6u32) | ((b1 & 0x3f) as u32);
            assert(cp == decode_first_codepoint(s));
            if !(0x80 <= cp) {
                assert(!valid_first_scalar(s));
                return false;
            }
            // a two-byte encoding tops out well below the surrogate range
            assert((((b0 & 0x1f) as u32) << 6u32) | ((b1 & 0x3f) as u32) <= 0x7ff) by (bit_vector);
            assert(valid_first_scalar(s));
            proof {
                assert(pop_first_scalar(s) =~= v@.skip(i as int + 2));
            }
            i = i + 2;
        } else if 0xe0 <= b0 && b0 <= 0xef {
            if remaining < 3 {
                assert(!valid_first_scalar(s));
                return false;
            }
            assert(s[1] == v@[i as int + 1]);
            assert(s[2] == v@[i as int + 2]);
            let b1 = v[i + 1];
            let b2 = v[i + 2];
            if !(0x80 <= b1 && b1 <= 0xbf) || !(0x80 <= b2 && b2 <= 0xbf) {
                assert(!valid_first_scalar(s));
                return false;
            }
            let cp = (((b0 & 0x0f) as u32) << 12u32) | (((b1 & 0x3f) as u32) << 6u32) | ((b2
                & 0x3f) as u32);
            assert(cp == decode_first_codepoint(s));
            if !(0x800 <= cp) {
                assert(!valid_first_scalar(s));
                return false;
            }
            if 0xd800 <= cp && cp <= 0xdfff {
                return false;
            }
            assert(valid_first_scalar(s));
            proof {
                assert(pop_first_scalar(s) =~= v@.skip(i as int + 3));
            }
            i = i + 3;
        } else if 0xf0 <= b0 && b0 <= 0xf7 {
            if remaining < 4 {
                assert(!valid_first_scalar(s));
                return false;
            }
            assert(s[1] == v@[i as int + 1]);
            assert(s[2] == v@[i as int + 2]);
            assert(s[3] == v@[i as int + 3]);
            let b1 = v[i + 1];
            let b2 = v[i + 2];
            let b3 = v[i + 3];
            if !(0x80 <= b1 && b1 <= 0xbf) || !(0x80 <= b2 && b2 <= 0xbf) || !(0x80 <= b3 && b3
                <= 0xbf) {
                assert(!valid_first_scalar(s));
                return false;
            }
            let cp = (((b0 & 0x07) as u32) << 18u32) | (((b1 & 0x3f) as u32) << 12u32) | (((b2
                & 0x3f) as u32) << 6u32) | ((b3 & 0x3f) as u32);
            assert(cp == decode_first_codepoint(s));
            if !(0x10000 <= cp && cp <= 0x10ffff) {
                assert(!valid_first_scalar(s));
                return false;
            }
            // past the scalar floor for four bytes, the surrogate range is out of reach
            assert(valid_first_scalar(s));
            proof {
                assert(pop_first_scalar(s) =~= v@.skip(i as int + 4));
            }
            i = i + 4;
        } else {
            // a stray continuation byte, or a byte no encoding uses
            assert(!valid_first_scalar(s));
            return false;
        }
    }
}

/// Relies on `core::str::from_utf8`: on bytes that are a valid UTF-8
/// encoding it returns the string slice that views exactly those bytes.
#[verifier::external_body]
pub(crate) fn str_from_utf8(v: &[u8]) -> (r: &str)
    requires
        valid_utf8(v@),
    ensures
        encode_utf8(r@) == v@,
{
    match core::str::from_utf8(v) {
        Ok(s) => s,
        Err(_) => "",
    }
}

/// Relies on `String::into_bytes`: it returns the string's UTF-8 bytes.
#[verifier::external_body]
fn string_into_bytes(s: String) -> (v: Vec<u8>)
    ensures
        v@ == encode_utf8(s@),
{
    s.into_bytes()
}

} // verus!
