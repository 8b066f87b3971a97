//! Wire-format primitives shared by the key codecs: the 4-byte big-endian
//! length prefix, length-prefixed byte and string fields, and the zeroing of
//! byte and string storage.

use vstd::prelude::*;
use vstd::slice::{slice_subrange, slice_to_vec};
use vstd::string::StrSliceExecFns;
use vstd::utf8::is_ascii_chars;

use crate::error::ProtoError;

verus! {

/// The 4-byte big-endian form of `n`.
#[verifier::opaque]
pub open spec fn spec_u32_to_be(n: u32) -> Seq<u8> {
    seq![
        ((n >> 24) & 0xff) as u8,
        ((n >> 16) & 0xff) as u8,
        ((n >> 8) & 0xff) as u8,
        (n & 0xff) as u8,
    ]
}

/// The value of 4 big-endian bytes.
#[verifier::opaque]
pub open spec fn spec_u32_from_be(b: Seq<u8>) -> u32
    recommends
        b.len() == 4,
{
    (((b[0] as u32) << 24) | ((b[1] as u32) << 16) | ((b[2] as u32) << 8) | (b[3] as u32)) as u32
}

/// The big-endian form of a value is 4 bytes long.
pub broadcast proof fn lemma_u32_be_len(n: u32)
    ensures
        (#[trigger] spec_u32_to_be(n)).len() == 4,
{
    reveal(spec_u32_to_be);
}

pub proof fn lemma_u32_be_round_trip(n: u32)
    ensures
        spec_u32_from_be(spec_u32_to_be(n)) == n,
{
    reveal(spec_u32_to_be);
    reveal(spec_u32_from_be);
    let b0: u8 = ((n >> 24) & 0xff) as u8;
    let b1: u8 = ((n >> 16) & 0xff) as u8;
    let b2: u8 = ((n >> 8) & 0xff) as u8;
    let b3: u8 = (n & 0xff) as u8;
    assert((((b0 as u32) << 24) | ((b1 as u32) << 16) | ((b2 as u32) << 8) | (b3 as u32))
        == n) by (bit_vector)
        requires
            b0 == ((n >> 24) & 0xff) as u8,
            b1 == ((n >> 16) & 0xff) as u8,
            b2 == ((n >> 8) & 0xff) as u8,
            b3 == (n & 0xff) as u8,
    ;
}

/// Appends the 4-byte big-endian form of `n` to `out`.
pub fn push_u32_be(out: &mut Vec<u8>, n: u32)
    ensures
        final(out)@ == old(out)@ + spec_u32_to_be(n),
{
    proof {
        reveal(spec_u32_to_be);
        assert((n >> 24) & 0xff < 256 && (n >> 16) & 0xff < 256 && (n >> 8) & 0xff < 256 && n
            & 0xff < 256) by (bit_vector);
    }
    out.push(((n >> 24) & 0xff) as u8);
    out.push(((n >> 16) & 0xff) as u8);
    out.push(((n >> 8) & 0xff) as u8);
    out.push((n & 0xff) as u8);
    assert(out@ =~= old(out)@ + spec_u32_to_be(n));
}

/// Reads the 4-byte big-endian value at `pos`.
pub fn read_u32_be(buf: &[u8], pos: usize) -> (n: u32)
    requires
        pos + 4 <= buf@.len(),
    ensures
        n == spec_u32_from_be(buf@.subrange(pos as int, pos + 4)),
{
    let b0: u8 = buf[pos];
    let b1: u8 = buf[pos + 1];
    let b2: u8 = buf[pos + 2];
    let b3: u8 = buf[pos + 3];
    let n: u32 = ((b0 as u32) << 24) | ((b1 as u32) << 16) | ((b2 as u32) << 8) | (b3 as u32);
    proof {
        reveal(spec_u32_from_be);
        let s = buf@.subrange(pos as int, pos + 4);
        assert(s[0] == b0 && s[1] == b1 && s[2] == b2 && s[3] == b3);
    }
    n
}

/// A length-prefixed field: the 4-byte big-endian length, then the payload.
/// MPInt fields, raw byte fields and strings all take this form on the wire.
pub open spec fn spec_lp(payload: Seq<u8>) -> Seq<u8>
    recommends
        payload.len() <= u32::MAX,
{
    spec_u32_to_be(payload.len() as u32) + payload
}

/// Reads one length-prefixed field from the front of `s`: the payload and
/// what remains after it, or `None` when the declared length runs past the
/// end.
pub open spec fn spec_parse_lp(s: Seq<u8>) -> Option<(Seq<u8>, Seq<u8>)> {
    if s.len() < 4 {
        None
    } else {
        let n = spec_u32_from_be(s.subrange(0, 4)) as int;
        if 4 + n > s.len() {
            None
        } else {
            Some((s.subrange(4, 4 + n), s.skip(4 + n)))
        }
    }
}

/// Parsing recovers exactly the payload that `spec_lp` put in front,
/// whatever follows it.
pub proof fn lemma_parse_lp_of_lp(payload: Seq<u8>, rest: Seq<u8>)
    requires
        payload.len() <= u32::MAX,
    ensures
        spec_parse_lp(spec_lp(payload) + rest) == Some((payload, rest)),
{
    broadcast use lemma_u32_be_len;

    let s = spec_lp(payload) + rest;
    let n32 = payload.len() as u32;
    assert(s.subrange(0, 4) =~= spec_u32_to_be(n32));
    lemma_u32_be_round_trip(n32);
    let n = spec_u32_from_be(s.subrange(0, 4)) as int;
    assert(n == payload.len());
    assert(s.subrange(4, 4 + n) =~= payload);
    assert(s.skip(4 + n) =~= rest);
}

/// Appends a length-prefixed byte field to `out`.
pub fn push_lp_bytes(out: &mut Vec<u8>, payload: &[u8])
    requires
        payload@.len() <= u32::MAX,
    ensures
        final(out)@ == old(out)@ + spec_lp(payload@),
{
    proof {
        broadcast use lemma_u32_be_len;

    }
    let n: u32 = payload.len() as u32;
    push_u32_be(out, n);
    let len: usize = payload.len();
    let mut i: usize = 0;
    while i < len
        invariant
            len == payload@.len(),
            i <= len,
            out@ == old(out)@ + spec_u32_to_be(len as u32) + payload@.subrange(0, i as int),
        decreases len - i,
    {
        out.push(payload[i]);
        assert(out@ =~= old(out)@ + spec_u32_to_be(len as u32) + payload@.subrange(
            0,
            i + 1 as int,
        ));
        i += 1;
    }
    assert(out@ =~= old(out)@ + spec_lp(payload@));
}

/// The bytes of an ASCII character sequence, one byte per character.
pub open spec fn str_bytes(s: Seq<char>) -> Seq<u8>
    recommends
        is_ascii_chars(s),
{
    s.map_values(|c: char| c as u8)
}

/// The characters of an ASCII byte sequence, one character per byte.
pub open spec fn bytes_chars(b: Seq<u8>) -> Seq<char> {
    b.map_values(|x: u8| x as char)
}

/// Appends a length-prefixed ASCII string field to `out`.
pub fn push_lp_str(out: &mut Vec<u8>, s: &str)
    requires
        s.is_ascii(),
        s@.len() <= u32::MAX,
    ensures
        final(out)@ == old(out)@ + spec_lp(str_bytes(s@)),
{
    let b: &[u8] = s.as_bytes();
    proof {
        broadcast use vstd::string::is_ascii_spec_bytes;

        assert(b@ =~= str_bytes(s@));
    }
    push_lp_bytes(out, b);
}

/// Encodes an MPInt: the 4-byte big-endian length, then the digit bytes as
/// stored. Any byte sequence is a valid MPInt payload, so this never fails.
pub fn encode_mpint(m: &Vec<u8>) -> (r: Vec<u8>)
    requires
        m@.len() <= u32::MAX,
    ensures
        r@ == spec_lp(m@),
{
    proof {
        broadcast use lemma_u32_be_len;

    }
    let mut out: Vec<u8> = Vec::new();
    push_lp_bytes(&mut out, m.as_slice());
    proof {
        assert(out@ =~= spec_lp(m@));
    }
    out
}

/// Decodes one MPInt (or raw byte field) at `pos`: the field's bytes and the
/// position just past it. Fails with `Truncated` when the declared length
/// exceeds what remains of the buffer.
pub fn decode_mpint(buf: &[u8], pos: usize) -> (r: Result<(Vec<u8>, usize), ProtoError>)
    requires
        pos <= buf@.len(),
    ensures
        match spec_parse_lp(buf@.skip(pos as int)) {
            Some(pr) => r is Ok && r->Ok_0.0@ == pr.0 && r->Ok_0.1 <= buf@.len() && buf@.skip(
                r->Ok_0.1 as int,
            ) == pr.1,
            None => r == Err::<(Vec<u8>, usize), ProtoError>(ProtoError::Truncated),
        },
{
    let ghost tail = buf@.skip(pos as int);
    if buf.len() - pos < 4 {
        return Err(ProtoError::Truncated);
    }
    let n: u32 = read_u32_be(buf, pos);
    proof {
        assert(tail.subrange(0, 4) =~= buf@.subrange(pos as int, pos + 4));
    }
    let rest: usize = buf.len() - (pos + 4);
    if n as usize > rest {
        return Err(ProtoError::Truncated);
    }
    let start: usize = pos + 4;
    let end: usize = start + n as usize;
    let field: Vec<u8> = slice_to_vec(slice_subrange(buf, start, end));
    proof {
        assert(field@ =~= tail.subrange(4, 4 + n as int));
        assert(buf@.skip(end as int) =~= tail.skip(4 + n as int));
    }
    Ok((field, end))
}

/// A copy of the bytes of `v`.
pub fn copy_bytes(v: &Vec<u8>) -> (r: Vec<u8>)
    ensures
        r@ == v@,
{
    slice_to_vec(v.as_slice())
}

/// True exactly when `b` holds the ASCII bytes of `s`.
pub fn bytes_eq_str(b: &Vec<u8>, s: &str) -> (r: bool)
    requires
        s.is_ascii(),
    ensures
        r == (b@ == str_bytes(s@)),
{
    let sb: &[u8] = s.as_bytes();
    proof {
        broadcast use vstd::string::is_ascii_spec_bytes;

        assert(sb@ =~= str_bytes(s@));
    }
    if b.len() != sb.len() {
        return false;
    }
    let len: usize = b.len();
    let mut i: usize = 0;
    while i < len
        invariant
            len == b@.len() == sb@.len(),
            i <= len,
            sb@ == str_bytes(s@),
            forall|j: int| 0 <= j < i ==> b@[j] == sb@[j],
        decreases len - i,
    {
        if b[i] != sb[i] {
            return false;
        }
        i += 1;
    }
    proof {
        assert(b@ =~= str_bytes(s@));
    }
    true
}

/// True exactly when the ASCII bytes of `s` are a prefix of `b`.
pub fn bytes_start_with_str(b: &Vec<u8>, s: &str) -> (r: bool)
    requires
        s.is_ascii(),
    ensures
        r == (b@.len() >= s@.len() && b@.subrange(0, s@.len() as int) == str_bytes(s@)),
{
    let sb: &[u8] = s.as_bytes();
    proof {
        broadcast use vstd::string::is_ascii_spec_bytes;

        assert(sb@ =~= str_bytes(s@));
    }
    if b.len() < sb.len() {
        return false;
    }
    let len: usize = sb.len();
    let mut i: usize = 0;
    while i < len
        invariant
            len == sb@.len() <= b@.len(),
            i <= len,
            sb@ == str_bytes(s@),
            forall|j: int| 0 <= j < i ==> b@[j] == sb@[j],
        decreases len - i,
    {
        if b[i] != sb[i] {
            proof {
                assert(b@.subrange(0, len as int)[i as int] != str_bytes(s@)[i as int]);
            }
            return false;
        }
        i += 1;
    }
    proof {
        assert(b@.subrange(0, len as int) =~= str_bytes(s@));
    }
    true
}

/// Every byte is an ASCII code point.
pub open spec fn ascii_bytes(b: Seq<u8>) -> bool {
    forall|i: int| 0 <= i < b.len() ==> b[i] < 128
}

/// True exactly when every byte of `b` is ASCII.
pub fn bytes_are_ascii(b: &Vec<u8>) -> (r: bool)
    ensures
        r == ascii_bytes(b@),
{
    let len: usize = b.len();
    let mut i: usize = 0;
    while i < len
        invariant
            len == b@.len(),
            i <= len,
            forall|j: int| 0 <= j < i ==> b@[j] < 128,
        decreases len - i,
    {
        if b[i] >= 128 {
            return false;
        }
        i += 1;
    }
    true
}

/// Relies on `String::push`: appends exactly the one character to the string.
#[verifier::external_body]
fn push_char(s: &mut String, c: char)
    ensures
        final(s)@ == old(s)@.push(c),
{
    s.push(c);
}

/// Builds the string whose characters are the given ASCII bytes.
pub fn string_of_ascii_bytes(b: &Vec<u8>) -> (s: String)
    requires
        ascii_bytes(b@),
    ensures
        s@ == bytes_chars(b@),
        is_ascii_chars(s@),
{
    let mut s: String = String::new();
    let len: usize = b.len();
    let mut i: usize = 0;
    while i < len
        invariant
            len == b@.len(),
            i <= len,
            forall|j: int| 0 <= j < b@.len() ==> b@[j] < 128,
            s@ == bytes_chars(b@.subrange(0, i as int)),
        decreases len - i,
    {
        push_char(&mut s, b[i] as char);
        assert(s@ =~= bytes_chars(b@.subrange(0, i + 1 as int)));
        i += 1;
    }
    proof {
        assert(s@ =~= bytes_chars(b@));
    }
    s
}

/// Overwrites every byte of `v` with zero, keeping its length.
pub fn zeroize(v: &mut Vec<u8>)
    ensures
        final(v)@.len() == old(v)@.len(),
        forall|i: int| 0 <= i < final(v)@.len() ==> final(v)@[i] == 0u8,
{
    let len: usize = v.len();
    let mut i: usize = 0;
    while i < len
        invariant
            len == v@.len(),
            i <= len,
            forall|j: int| 0 <= j < i ==> v@[j] == 0u8,
        decreases len - i,
    {
        v[i] = 0u8;
        i += 1;
    }
}

/// Overwrites every character of `s` with the NUL character, keeping its
/// length.
pub fn zeroize_string(s: &mut String)
    ensures
        final(s)@.len() == old(s)@.len(),
        forall|i: int| 0 <= i < final(s)@.len() ==> final(s)@[i] == '\0',
{
    let n: usize = s.as_str().unicode_len();
    *s = String::new();
    let mut i: usize = 0;
    while i < n
        invariant
            i <= n,
            s@.len() == i,
            forall|j: int| 0 <= j < i ==> s@[j] == '\0',
        decreases n - i,
    {
        push_char(s, '\0');
        i += 1;
    }
}

} // verus!
