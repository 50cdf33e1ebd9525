//! The connection handshake decisions: a two-state race with no retries.
//!
//! Opening the transport installs two single-shot signals, "opened" and
//! "errored"; exactly one fires for a given attempt. The caller reports which
//! one won, and the functions here decide the outcome. The subprotocol list
//! handed to the transport's constructor is built here as well.

use crate::error::{Error, UrlError};
use vstd::prelude::*;
use vstd::utf8::{
    encode_scalar, encode_utf8, encode_utf8_decode_utf8, encode_utf8_valid_utf8,
};

verus! {

/// The error a synchronous transport-construction failure surfaces as,
/// before any asynchronous waiting.
pub fn construction_failure() -> (e: Error)
    ensures
        e == Error::Url(UrlError::UnsupportedUrlScheme),
{
    Error::Url(UrlError::UnsupportedUrlScheme)
}

/// Outcome of the open/error race: success exactly when "opened" fired
/// first, and the one terminal handshake error otherwise.
pub fn handshake_result(opened_first: bool) -> (r: Result<(), Error>)
    ensures
        r == if opened_first {
            Ok::<(), Error>(())
        } else {
            Err::<(), Error>(Error::ConnectionClosed)
        },
{
    if opened_first {
        Ok(())
    } else {
        Err(Error::ConnectionClosed)
    }
}

/// The subprotocol names joined into one negotiation list, per the host
/// transport's convention: the names in order, a comma and a space between
/// each adjacent pair.
pub open spec fn joined_chars(parts: Seq<Seq<char>>) -> Seq<char>
    decreases parts.len(),
{
    if parts.len() == 0 {
        Seq::empty()
    } else if parts.len() == 1 {
        parts[0]
    } else {
        parts[0] + ", "@ + joined_chars(parts.drop_first())
    }
}

/// Joining one more name appends a separator (when anything precedes it) and
/// then the name.
proof fn lemma_joined_chars_push(parts: Seq<Seq<char>>, x: Seq<char>)
    ensures
        joined_chars(parts.push(x)) == if parts.len() == 0 {
            x
        } else {
            joined_chars(parts) + ", "@ + x
        },
    decreases parts.len(),
{
    let p = parts.push(x);
    if parts.len() == 0 {
        assert(p[0] == x);
    } else {
        assert(p.drop_first() =~= parts.drop_first().push(x));
        lemma_joined_chars_push(parts.drop_first(), x);
        if parts.len() == 1 {
            assert(joined_chars(p) == parts[0] + ", "@ + x);
        } else {
            assert(parts[0] + ", "@ + (joined_chars(parts.drop_first()) + ", "@ + x) =~= (parts[0]
                + ", "@ + joined_chars(parts.drop_first())) + ", "@ + x);
        }
    }
}

/// UTF-8 encoding distributes over concatenation of character sequences.
proof fn lemma_encode_utf8_concat(a: Seq<char>, b: Seq<char>)
    ensures
        encode_utf8(a + b) == encode_utf8(a) + encode_utf8(b),
    decreases a.len(),
{
    if a.len() == 0 {
        assert(a + b =~= b);
        assert(encode_utf8(a) + encode_utf8(b) =~= encode_utf8(b));
    } else {
        assert((a + b).drop_first() =~= a.drop_first() + b);
        lemma_encode_utf8_concat(a.drop_first(), b);
        assert((a + b)[0] == a[0]);
        assert(encode_scalar(a[0] as u32) + (encode_utf8(a.drop_first()) + encode_utf8(b)) =~= (
        encode_scalar(a[0] as u32) + encode_utf8(a.drop_first())) + encode_utf8(b));
    }
}

/// Appends a slice's bytes to a vector.
fn append_bytes(out: &mut Vec<u8>, b: &[u8])
    ensures
        final(out)@ == old(out)@ + b@,
{
    let n = b.len();
    let mut j: usize = 0;
    proof {
        assert(old(out)@ + b@.take(0) =~= old(out)@);
    }
    while j < n
        invariant
            j <= n,
            n == b@.len(),
            out@ == old(out)@ + b@.take(j as int),
        decreases n - j,
    {
        out.push(b[j]);
        proof {
            assert((old(out)@ + b@.take(j as int)).push(b@[j as int]) =~= old(out)@ + b@.take(
                j as int + 1,
            ));
        }
        j = j + 1;
    }
    proof {
        assert(old(out)@ + b@.take(n as int) =~= old(out)@ + b@);
    }
}

/// Builds the negotiation list: the given names in order, separated by a
/// comma and a space.
pub fn join_protocols(protocols: &[&str]) -> (r: String)
    ensures
        r@ == joined_chars(Seq::new(protocols@.len(), |i: int| protocols@[i]@)),
{
    let ghost parts = Seq::new(protocols@.len(), |i: int| protocols@[i]@);
    let m = protocols.len();
    let mut out: Vec<u8> = Vec::new();
    let mut k: usize = 0;
    proof {
        assert(parts.take(0) =~= Seq::<Seq<char>>::empty());
    }
    while k < m
        invariant
            k <= m,
            m == protocols@.len(),
            parts == Seq::new(protocols@.len(), |i: int| protocols@[i]@),
            out@ == encode_utf8(joined_chars(parts.take(k as int))),
        decreases m - k,
    {
        let ghost before = parts.take(k as int);
        if k > 0 {
            append_bytes(&mut out, ", ".as_bytes());
        }
        append_bytes(&mut out, protocols[k].as_bytes());
        proof {
            assert(parts.take(k as int + 1) =~= before.push(parts[k as int]));
            lemma_joined_chars_push(before, parts[k as int]);
            if k > 0 {
                lemma_encode_utf8_concat(joined_chars(before), ", "@);
                lemma_encode_utf8_concat(joined_chars(before) + ", "@, parts[k as int]);
            }
        }
        k = k + 1;
    }
    proof {
        assert(parts.take(m as int) =~= parts);
        encode_utf8_valid_utf8(joined_chars(parts));
    }
    let r = crate::text::str_from_utf8(out.as_slice());
    proof {
        encode_utf8_decode_utf8(r@);
        encode_utf8_decode_utf8(joined_chars(parts));
    }
    r.to_owned()
}

} // verus!
