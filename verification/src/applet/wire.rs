//! How single values are laid out inside a payload.
//!
//! Integers use bincode's standard configuration: little endian, variable
//! length. Bincode itself writes and reads them; this module states what it
//! writes and reads, and proves that reading undoes writing. Bit patterns of
//! measured lengths are four plain little-endian bytes.

use vstd::prelude::*;

verus! {

/// The variable-length layout of an unsigned integer: values up to 250 are one
/// byte; values up to 65535 are the marker 251 and two little-endian bytes;
/// all others are the marker 252 and four little-endian bytes.
pub open spec fn varint(v: u32) -> Seq<u8> {
    if v <= 250 {
        seq![v as u8]
    } else if v <= 0xffff {
        seq![251u8, (v % 256) as u8, (v / 256) as u8]
    } else {
        seq![
            252u8,
            (v % 256) as u8,
            (v / 256 % 256) as u8,
            (v / 256 / 256 % 256) as u8,
            (v / 256 / 256 / 256) as u8,
        ]
    }
}

/// The unsigned integer at the front of `s` and the number of bytes it takes
/// up, or `None` where `s` is too short or starts with a marker for a wider
/// type. A small value behind a wide marker is accepted as it stands.
pub open spec fn varint_front(s: Seq<u8>) -> Option<(u32, nat)> {
    if s.len() >= 1 && s[0] <= 250 {
        Some((s[0] as u32, 1nat))
    } else if s.len() >= 3 && s[0] == 251 {
        Some(((s[1] as int + 256 * (s[2] as int)) as u32, 3nat))
    } else if s.len() >= 5 && s[0] == 252 {
        Some(
            (
                (s[1] as int + 256 * (s[2] as int) + 65536 * (s[3] as int) + 16777216 * (
                s[4] as int)) as u32,
                5nat,
            ),
        )
    } else {
        None
    }
}

/// The unsigned integer that stands for a signed one: non-negative values map
/// to the even numbers, negative values to the odd ones.
pub open spec fn zigzag(v: i32) -> u32 {
    if v < 0 {
        (-2 * (v as int) - 1) as u32
    } else {
        (2 * (v as int)) as u32
    }
}

/// The signed integer that an unsigned one stands for.
pub open spec fn unzigzag(n: u32) -> i32 {
    if n % 2 == 0 {
        (n / 2) as i32
    } else {
        (-((n / 2) as int) - 1) as i32
    }
}

/// The signed integer at the front of `s` and the number of bytes it takes up.
pub open spec fn signed_front(s: Seq<u8>) -> Option<(i32, nat)> {
    match varint_front(s) {
        Some((n, used)) => Some((unzigzag(n), used)),
        None => None,
    }
}

/// Four little-endian bytes.
pub open spec fn fixed32(v: u32) -> Seq<u8> {
    seq![
        (v % 256) as u8,
        (v / 256 % 256) as u8,
        (v / 256 / 256 % 256) as u8,
        (v / 256 / 256 / 256) as u8,
    ]
}

/// The value of the four little-endian bytes at the front of `s`, or `None`
/// where `s` is shorter than that.
pub open spec fn fixed32_front(s: Seq<u8>) -> Option<(u32, nat)> {
    if s.len() >= 4 {
        Some(
            (
                (s[0] as int + 256 * (s[1] as int) + 65536 * (s[2] as int) + 16777216 * (
                s[3] as int)) as u32,
                4nat,
            ),
        )
    } else {
        None
    }
}

/// Reading a written unsigned integer gives it back, whatever follows it.
pub proof fn lemma_varint_round_trip(v: u32, rest: Seq<u8>)
    ensures
        varint_front(varint(v) + rest) == Some((v, varint(v).len())),
        1 <= varint(v).len() <= 5,
{
    let s = varint(v) + rest;
    if v <= 250 {
        assert(s[0] == v as u8);
    } else if v <= 0xffff {
        assert(s[0] == 251u8);
        assert(s[1] == (v % 256) as u8);
        assert(s[2] == (v / 256) as u8);
    } else {
        assert(s[0] == 252u8);
        assert(s[1] == (v % 256) as u8);
        assert(s[2] == (v / 256 % 256) as u8);
        assert(s[3] == (v / 256 / 256 % 256) as u8);
        assert(s[4] == (v / 256 / 256 / 256) as u8);
    }
}

/// Every signed integer is found again behind its unsigned stand-in.
pub proof fn lemma_zigzag_round_trip(v: i32)
    ensures
        unzigzag(zigzag(v)) == v,
{
}

/// Reading a written signed integer gives it back, whatever follows it.
pub proof fn lemma_signed_round_trip(v: i32, rest: Seq<u8>)
    ensures
        signed_front(varint(zigzag(v)) + rest) == Some((v, varint(zigzag(v)).len())),
        1 <= varint(zigzag(v)).len() <= 5,
{
    lemma_varint_round_trip(zigzag(v), rest);
    lemma_zigzag_round_trip(v);
}

/// Reading four written bytes gives the value back, whatever follows them.
pub proof fn lemma_fixed32_round_trip(v: u32, rest: Seq<u8>)
    ensures
        fixed32_front(fixed32(v) + rest) == Some((v, 4nat)),
        fixed32(v).len() == 4,
{
    let s = fixed32(v) + rest;
    assert(s[0] == (v % 256) as u8);
    assert(s[1] == (v / 256 % 256) as u8);
    assert(s[2] == (v / 256 / 256 % 256) as u8);
    assert(s[3] == (v / 256 / 256 / 256) as u8);
}

/// Why bincode refused to write a value. The library never meets one: writing
/// an integer into memory cannot fail.
#[verifier::external_type_specification]
#[verifier::external_body]
pub struct ExEncodeError(bincode::error::EncodeError);

/// Why bincode could not read a value: the bytes ended too early, or started
/// with a marker that does not fit the type asked for.
#[verifier::external_type_specification]
#[verifier::external_body]
pub struct ExDecodeError(bincode::error::DecodeError);

/// `bincode::encode_to_vec` on a `u32` with the standard configuration. It
/// always succeeds, and returns the variable-length layout of the value.
#[verifier::external_body]
fn bincode_encode_u32(v: u32) -> (r: Result<Vec<u8>, bincode::error::EncodeError>)
    ensures
        r is Ok,
        r matches Ok(bytes) ==> bytes@ == varint(v),
{
    bincode::encode_to_vec(v, bincode::config::standard())
}

/// `bincode::encode_to_vec` on an `i32` with the standard configuration. It
/// always succeeds, and returns the variable-length layout of the unsigned
/// stand-in of the value.
#[verifier::external_body]
fn bincode_encode_i32(v: i32) -> (r: Result<Vec<u8>, bincode::error::EncodeError>)
    ensures
        r is Ok,
        r matches Ok(bytes) ==> bytes@ == varint(zigzag(v)),
{
    bincode::encode_to_vec(v, bincode::config::standard())
}

/// `bincode::decode_from_slice` for a `u32` with the standard configuration.
/// It reads the integer at the front of `src` and says how many bytes that
/// took; it fails exactly where there is no such integer.
#[verifier::external_body]
fn bincode_decode_u32(src: &[u8]) -> (r: Result<(u32, usize), bincode::error::DecodeError>)
    ensures
        r is Ok <==> varint_front(src@) is Some,
        r matches Ok(got) ==> varint_front(src@) == Some((got.0, got.1 as nat)),
{
    bincode::decode_from_slice(src, bincode::config::standard())
}

/// `bincode::decode_from_slice` for an `i32` with the standard configuration.
/// It reads the integer at the front of `src` and says how many bytes that
/// took; it fails exactly where there is no such integer.
#[verifier::external_body]
fn bincode_decode_i32(src: &[u8]) -> (r: Result<(i32, usize), bincode::error::DecodeError>)
    ensures
        r is Ok <==> signed_front(src@) is Some,
        r matches Ok(got) ==> signed_front(src@) == Some((got.0, got.1 as nat)),
{
    bincode::decode_from_slice(src, bincode::config::standard())
}

/// Appends the layout of `v` to `out`.
pub fn put_u32(out: &mut Vec<u8>, v: u32)
    ensures
        final(out)@ == old(out)@ + varint(v),
{
    let mut bytes = bincode_encode_u32(v).unwrap();
    out.append(&mut bytes);
}

/// Appends the layout of the signed `v` to `out`.
pub fn put_i32(out: &mut Vec<u8>, v: i32)
    ensures
        final(out)@ == old(out)@ + varint(zigzag(v)),
{
    let mut bytes = bincode_encode_i32(v).unwrap();
    out.append(&mut bytes);
}

/// Appends `v` to `out` as four little-endian bytes.
pub fn put_fixed32(out: &mut Vec<u8>, v: u32)
    ensures
        final(out)@ == old(out)@ + fixed32(v),
{
    out.push((v % 256) as u8);
    out.push((v / 256 % 256) as u8);
    out.push((v / 256 / 256 % 256) as u8);
    out.push((v / 256 / 256 / 256) as u8);
    assert(out@ =~= old(out)@ + fixed32(v));
}

/// The unsigned integer that starts at `at`, and the position behind it.
#[verifier::opaque]
pub open spec fn u32_at(s: Seq<u8>, at: nat) -> Option<(u32, nat)> {
    if at > s.len() {
        None
    } else {
        match varint_front(s.skip(at as int)) {
            Some((v, used)) => Some((v, at + used)),
            None => None,
        }
    }
}

/// The signed integer that starts at `at`, and the position behind it.
#[verifier::opaque]
pub open spec fn i32_at(s: Seq<u8>, at: nat) -> Option<(i32, nat)> {
    if at > s.len() {
        None
    } else {
        match signed_front(s.skip(at as int)) {
            Some((v, used)) => Some((v, at + used)),
            None => None,
        }
    }
}

/// The four-byte value that starts at `at`, and the position behind it.
#[verifier::opaque]
pub open spec fn fixed32_at(s: Seq<u8>, at: nat) -> Option<(u32, nat)> {
    if at > s.len() {
        None
    } else {
        match fixed32_front(s.skip(at as int)) {
            Some((v, used)) => Some((v, at + used)),
            None => None,
        }
    }
}

/// Reads the unsigned integer that starts at `at`.
pub fn get_u32(bytes: &[u8], at: usize) -> (r: Option<(u32, usize)>)
    ensures
        r is Some <==> u32_at(bytes@, at as nat) is Some,
        r matches Some(got) ==> got.1 <= bytes@.len() && u32_at(bytes@, at as nat) == Some(
            (got.0, got.1 as nat),
        ),
{
    reveal(u32_at);
    if at > bytes.len() {
        return None;
    }
    let tail = vstd::slice::slice_subrange(bytes, at, bytes.len());
    assert(tail@ =~= bytes@.skip(at as int));
    match bincode_decode_u32(tail) {
        Ok((v, used)) => Some((v, at + used)),
        Err(_) => None,
    }
}

/// Reads the signed integer that starts at `at`.
pub fn get_i32(bytes: &[u8], at: usize) -> (r: Option<(i32, usize)>)
    ensures
        r is Some <==> i32_at(bytes@, at as nat) is Some,
        r matches Some(got) ==> got.1 <= bytes@.len() && i32_at(bytes@, at as nat) == Some(
            (got.0, got.1 as nat),
        ),
{
    reveal(i32_at);
    if at > bytes.len() {
        return None;
    }
    let tail = vstd::slice::slice_subrange(bytes, at, bytes.len());
    assert(tail@ =~= bytes@.skip(at as int));
    match bincode_decode_i32(tail) {
        Ok((v, used)) => Some((v, at + used)),
        Err(_) => None,
    }
}

/// Reads the four-byte value that starts at `at`.
pub fn get_fixed32(bytes: &[u8], at: usize) -> (r: Option<(u32, usize)>)
    ensures
        r is Some <==> fixed32_at(bytes@, at as nat) is Some,
        r matches Some(got) ==> got.1 <= bytes@.len() && fixed32_at(bytes@, at as nat) == Some(
            (got.0, got.1 as nat),
        ),
{
    reveal(fixed32_at);
    if at > bytes.len() || bytes.len() - at < 4 {
        return None;
    }
    let b0: u32 = bytes[at] as u32;
    let b1: u32 = bytes[at + 1] as u32;
    let b2: u32 = bytes[at + 2] as u32;
    let b3: u32 = bytes[at + 3] as u32;
    Some((b0 + 256 * b1 + 65536 * b2 + 16777216 * b3, at + 4))
}

} // verus!
