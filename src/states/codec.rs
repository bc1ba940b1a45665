//! The fixed little-endian layout in which records and instruction payloads
//! are stored: integers as their bytes, least significant first; addresses as
//! their 32 bytes; text as a four-byte length followed by its UTF-8 bytes.
use crate::address::Address;
use vstd::prelude::*;
use vstd::arithmetic::div_mod::lemma_fundamental_div_mod;
use vstd::slice::{slice_subrange, slice_to_vec};
use vstd::utf8::{decode_utf8, encode_utf8, valid_utf8};

verus! {

broadcast use vstd::utf8::group_utf8_lib;

pub open spec fn u16_bytes(n: u16) -> Seq<u8> {
    seq![(n % 256) as u8, (n / 256) as u8]
}

pub open spec fn u32_bytes(n: nat) -> Seq<u8> {
    seq![
        (n % 256) as u8,
        (n / 256 % 256) as u8,
        (n / 256 / 256 % 256) as u8,
        (n / 256 / 256 / 256 % 256) as u8,
    ]
}

/// A text field: the byte length of its UTF-8 encoding, then that encoding.
pub open spec fn text_bytes(s: Seq<char>) -> Seq<u8> {
    u32_bytes(encode_utf8(s).len()) + encode_utf8(s)
}

/// Whether a text can be stored: its length fits in four bytes.
pub open spec fn text_fits(s: Seq<char>) -> bool {
    encode_utf8(s).len() <= u32::MAX
}

/// Each parser below reads one field from the front of `b` and gives its
/// value and the bytes after it, or `None` where `b` does not start with one.
pub open spec fn parse_u8(b: Seq<u8>) -> Option<(u8, Seq<u8>)> {
    if b.len() >= 1 {
        Some((b[0], b.subrange(1, b.len() as int)))
    } else {
        None
    }
}

pub open spec fn parse_u16(b: Seq<u8>) -> Option<(u16, Seq<u8>)> {
    if b.len() >= 2 {
        Some(((b[0] + 256 * b[1]) as u16, b.subrange(2, b.len() as int)))
    } else {
        None
    }
}

pub open spec fn parse_u32(b: Seq<u8>) -> Option<(nat, Seq<u8>)> {
    if b.len() >= 4 {
        Some(
            (
                (b[0] + 256 * b[1] + 65536 * b[2] + 16777216 * b[3]) as nat,
                b.subrange(4, b.len() as int),
            ),
        )
    } else {
        None
    }
}

pub open spec fn parse_address(b: Seq<u8>) -> Option<(Seq<u8>, Seq<u8>)> {
    if b.len() >= 32 {
        Some((b.subrange(0, 32), b.subrange(32, b.len() as int)))
    } else {
        None
    }
}

pub open spec fn parse_text(b: Seq<u8>) -> Option<(Seq<char>, Seq<u8>)> {
    match parse_u32(b) {
        Some((n, rest)) => if n <= rest.len() && valid_utf8(rest.subrange(0, n as int)) {
            Some((decode_utf8(rest.subrange(0, n as int)), rest.subrange(n as int, rest.len() as int)))
        } else {
            None
        },
        None => None,
    }
}

pub proof fn lemma_u16_round_trip(n: u16, rest: Seq<u8>)
    ensures
        parse_u16(u16_bytes(n) + rest) == Some((n, rest)),
{
    let b = u16_bytes(n) + rest;
    assert(b[0] == (n % 256) as u8 && b[1] == (n / 256) as u8);
    assert((n % 256) + 256 * (n / 256) == n) by (nonlinear_arith);
    assert(b.subrange(2, b.len() as int) =~= rest);
}

pub proof fn lemma_u32_round_trip(n: nat, rest: Seq<u8>)
    requires
        n <= u32::MAX,
    ensures
        parse_u32(u32_bytes(n) + rest) == Some((n, rest)),
{
    let b = u32_bytes(n) + rest;
    let q1 = n / 256;
    let q2 = q1 / 256;
    let q3 = q2 / 256;
    lemma_fundamental_div_mod(n as int, 256);
    lemma_fundamental_div_mod(q1 as int, 256);
    lemma_fundamental_div_mod(q2 as int, 256);
    assert(q3 < 256) by (nonlinear_arith)
        requires
            n == n % 256 + 256 * (q1 % 256 + 256 * (q2 % 256 + 256 * q3)),
            n <= 0xffff_ffff,
    ;
    assert(b[0] + 256 * b[1] + 65536 * b[2] + 16777216 * b[3] == n);
    assert(b.subrange(4, b.len() as int) =~= rest);
}

pub proof fn lemma_address_round_trip(a: Seq<u8>, rest: Seq<u8>)
    requires
        a.len() == 32,
    ensures
        parse_address(a + rest) == Some((a, rest)),
{
    let b = a + rest;
    assert(b.subrange(0, 32) =~= a);
    assert(b.subrange(32, b.len() as int) =~= rest);
}

pub proof fn lemma_u8_round_trip(n: u8, rest: Seq<u8>)
    ensures
        parse_u8(seq![n] + rest) == Some((n, rest)),
{
    let b = seq![n] + rest;
    assert(b.subrange(1, b.len() as int) =~= rest);
}

pub proof fn lemma_text_round_trip(s: Seq<char>, rest: Seq<u8>)
    requires
        text_fits(s),
    ensures
        parse_text(text_bytes(s) + rest) == Some((s, rest)),
{
    let e = encode_utf8(s);
    let b = text_bytes(s) + rest;
    assert(b =~= u32_bytes(e.len()) + (e + rest));
    lemma_u32_round_trip(e.len(), e + rest);
    let tail = e + rest;
    assert(tail.subrange(0, e.len() as int) =~= e);
    assert(tail.subrange(e.len() as int, tail.len() as int) =~= rest);
}

/// A text read from stored bytes can be stored again.
pub proof fn lemma_parsed_text_fits(b: Seq<u8>)
    requires
        parse_text(b) is Some,
    ensures
        text_fits(parse_text(b)->Some_0.0),
{
    let rest = b.subrange(4, b.len() as int);
    let n = (b[0] + 256 * b[1] + 65536 * b[2] + 16777216 * b[3]) as nat;
    let part = rest.subrange(0, n as int);
    vstd::utf8::decode_utf8_encode_utf8(part);
}

/// Appends `b` to `out`.
pub fn push_bytes(out: &mut Vec<u8>, b: &[u8])
    ensures
        final(out)@ == old(out)@ + b@,
{
    let mut i: usize = 0;
    while i < b.len()
        invariant
            0 <= i <= b@.len(),
            out@ == old(out)@ + b@.subrange(0, i as int),
        decreases b@.len() - i,
    {
        out.push(b[i]);
        i = i + 1;
        assert(out@ =~= old(out)@ + b@.subrange(0, i as int));
    }
    assert(b@.subrange(0, i as int) =~= b@);
}

pub fn push_u8(out: &mut Vec<u8>, n: u8)
    ensures
        final(out)@ == old(out)@ + seq![n],
{
    out.push(n);
    assert(out@ =~= old(out)@ + seq![n]);
}

pub fn push_u16(out: &mut Vec<u8>, n: u16)
    ensures
        final(out)@ == old(out)@ + u16_bytes(n),
{
    out.push((n % 256) as u8);
    out.push((n / 256) as u8);
    assert(out@ =~= old(out)@ + u16_bytes(n));
}

pub fn push_u32(out: &mut Vec<u8>, n: u32)
    ensures
        final(out)@ == old(out)@ + u32_bytes(n as nat),
{
    out.push((n % 256) as u8);
    out.push((n / 256 % 256) as u8);
    out.push((n / 256 / 256 % 256) as u8);
    out.push((n / 256 / 256 / 256 % 256) as u8);
    assert(out@ =~= old(out)@ + u32_bytes(n as nat));
}

pub fn push_address(out: &mut Vec<u8>, a: &Address)
    ensures
        final(out)@ == old(out)@ + a@,
{
    push_bytes(out, a.bytes.as_slice());
}

pub fn push_text(out: &mut Vec<u8>, s: &String)
    requires
        text_fits(s@),
    ensures
        final(out)@ == old(out)@ + text_bytes(s@),
{
    let b = s.as_str().as_bytes();
    push_u32(out, b.len() as u32);
    push_bytes(out, b);
    assert(out@ =~= old(out)@ + text_bytes(s@));
}

/// Relies on std's String::from_utf8: it succeeds exactly on valid UTF-8, and
/// the string it gives holds those bytes.
#[verifier::external_body]
fn string_from_utf8(b: Vec<u8>) -> (r: Option<String>)
    ensures
        r is Some <==> valid_utf8(b@),
        r matches Some(s) ==> encode_utf8(s@) == b@,
{
    String::from_utf8(b).ok()
}

/// The bytes of `b` from `pos` on.
pub open spec fn from(b: Seq<u8>, pos: int) -> Seq<u8> {
    b.subrange(pos, b.len() as int)
}

pub fn read_u8(b: &[u8], pos: usize) -> (r: Option<(u8, usize)>)
    requires
        pos <= b@.len(),
    ensures
        match r {
            Some((v, q)) => pos < q <= b@.len() && parse_u8(from(b@, pos as int)) == Some(
                (v, from(b@, q as int)),
            ),
            None => parse_u8(from(b@, pos as int)) is None,
        },
{
    if b.len() - pos < 1 {
        return None;
    }
    assert(from(from(b@, pos as int), 1) =~= from(b@, pos + 1));
    Some((b[pos], pos + 1))
}

pub fn read_u16(b: &[u8], pos: usize) -> (r: Option<(u16, usize)>)
    requires
        pos <= b@.len(),
    ensures
        match r {
            Some((v, q)) => pos < q <= b@.len() && parse_u16(from(b@, pos as int)) == Some(
                (v, from(b@, q as int)),
            ),
            None => parse_u16(from(b@, pos as int)) is None,
        },
{
    if b.len() - pos < 2 {
        return None;
    }
    let v: u16 = b[pos] as u16 + 256 * (b[pos + 1] as u16);
    assert(from(from(b@, pos as int), 2) =~= from(b@, pos + 2));
    Some((v, pos + 2))
}

pub fn read_u32(b: &[u8], pos: usize) -> (r: Option<(u32, usize)>)
    requires
        pos <= b@.len(),
    ensures
        match r {
            Some((v, q)) => pos < q <= b@.len() && parse_u32(from(b@, pos as int)) == Some(
                (v as nat, from(b@, q as int)),
            ),
            None => parse_u32(from(b@, pos as int)) is None,
        },
{
    if b.len() - pos < 4 {
        return None;
    }
    let v: u32 = b[pos] as u32 + 256 * (b[pos + 1] as u32) + 65536 * (b[pos + 2] as u32)
        + 16777216 * (b[pos + 3] as u32);
    assert(from(from(b@, pos as int), 4) =~= from(b@, pos + 4));
    Some((v, pos + 4))
}

pub fn read_address(b: &[u8], pos: usize) -> (r: Option<(Address, usize)>)
    requires
        pos <= b@.len(),
    ensures
        match r {
            Some((v, q)) => pos < q <= b@.len() && parse_address(from(b@, pos as int)) == Some(
                (v@, from(b@, q as int)),
            ),
            None => parse_address(from(b@, pos as int)) is None,
        },
{
    if b.len() - pos < 32 {
        return None;
    }
    let end: usize = pos + 32;
    let mut bytes: [u8; 32] = [0u8; 32];
    let mut i: usize = 0;
    while i < 32
        invariant
            0 <= i <= 32,
            end == pos + 32,
            end <= b@.len(),
            bytes@.len() == 32,
            forall|j: int| 0 <= j < i ==> bytes@[j] == b@[pos + j],
        decreases 32 - i,
    {
        bytes[i] = b[pos + i];
        i = i + 1;
    }
    let a = Address { bytes };
    assert(a@ =~= from(b@, pos as int).subrange(0, 32));
    assert(from(from(b@, pos as int), 32) =~= from(b@, pos + 32));
    Some((a, pos + 32))
}

pub fn read_text(b: &[u8], pos: usize) -> (r: Option<(String, usize)>)
    requires
        pos <= b@.len(),
    ensures
        match r {
            Some((v, q)) => pos < q <= b@.len() && parse_text(from(b@, pos as int)) == Some(
                (v@, from(b@, q as int)),
            ),
            None => parse_text(from(b@, pos as int)) is None,
        },
{
    let (n, p) = match read_u32(b, pos) {
        Some(x) => x,
        None => return None,
    };
    let ghost rest = from(b@, p as int);
    if (b.len() - p) < n as usize {
        return None;
    }
    let q: usize = p + n as usize;
    let part = slice_to_vec(slice_subrange(b, p, q));
    assert(part@ =~= rest.subrange(0, n as int));
    match string_from_utf8(part) {
        Some(s) => {
            proof {
                vstd::utf8::encode_utf8_decode_utf8(s@);
            }
            assert(rest.subrange(n as int, rest.len() as int) =~= from(b@, q as int));
            Some((s, q))
        },
        None => None,
    }
}

} // verus!
