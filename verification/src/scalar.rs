//! Payload encodings for the scalar attribute values: fixed-width integers
//! in little-endian order, booleans as one byte, and strings as UTF-8 bytes
//! followed by one NUL terminator.
//!
//! Each decoder demands the exact byte count of its width and fails with
//! `MalformedScalar` otherwise.  String decoding strips one trailing NUL when
//! present and accepts an unterminated payload as peers commonly emit one;
//! bytes that are not valid UTF-8 fail with `MalformedScalar`.

use vstd::prelude::*;
use vstd::bytes::{
    lemma_auto_spec_u16_to_from_le_bytes, lemma_auto_spec_u32_to_from_le_bytes,
    lemma_auto_spec_u64_to_from_le_bytes, spec_u16_from_le_bytes, spec_u16_to_le_bytes,
    spec_u32_from_le_bytes, spec_u32_to_le_bytes, spec_u64_from_le_bytes, spec_u64_to_le_bytes,
    u16_from_le_bytes, u32_from_le_bytes, u64_from_le_bytes,
};
use vstd::slice::{slice_index_get, slice_subrange, slice_to_vec};
use vstd::utf8::{
    decode_utf8, encode_utf8, encode_utf8_decode_utf8, encode_utf8_valid_utf8, valid_utf8,
};
use crate::err::{ErrorKind, NlError};

verus! {

pub open spec fn spec_parse_u8(p: Seq<u8>) -> Result<u8, ErrorKind> {
    if p.len() == 1 {
        Ok(p[0])
    } else {
        Err(ErrorKind::MalformedScalar)
    }
}

pub open spec fn spec_parse_u16(p: Seq<u8>) -> Result<u16, ErrorKind> {
    if p.len() == 2 {
        Ok(spec_u16_from_le_bytes(p))
    } else {
        Err(ErrorKind::MalformedScalar)
    }
}

pub open spec fn spec_parse_u32(p: Seq<u8>) -> Result<u32, ErrorKind> {
    if p.len() == 4 {
        Ok(spec_u32_from_le_bytes(p))
    } else {
        Err(ErrorKind::MalformedScalar)
    }
}

pub open spec fn spec_parse_u64(p: Seq<u8>) -> Result<u64, ErrorKind> {
    if p.len() == 8 {
        Ok(spec_u64_from_le_bytes(p))
    } else {
        Err(ErrorKind::MalformedScalar)
    }
}

/// Reads a one-byte value; the payload must be exactly one byte.
pub fn parse_u8(p: &[u8]) -> (r: Result<u8, NlError>)
    ensures
        match r {
            Ok(v) => spec_parse_u8(p@) == Ok::<_, ErrorKind>(v),
            Err(e) => spec_parse_u8(p@) == Err::<u8, _>(e.kind),
        },
{
    if p.len() == 1 {
        Ok(*slice_index_get(p, 0))
    } else {
        Err(NlError::new(ErrorKind::MalformedScalar))
    }
}

/// Reads a little-endian `u16`; the payload must be exactly two bytes.
pub fn parse_u16(p: &[u8]) -> (r: Result<u16, NlError>)
    ensures
        match r {
            Ok(v) => spec_parse_u16(p@) == Ok::<_, ErrorKind>(v),
            Err(e) => spec_parse_u16(p@) == Err::<u16, _>(e.kind),
        },
{
    if p.len() == 2 {
        Ok(u16_from_le_bytes(p))
    } else {
        Err(NlError::new(ErrorKind::MalformedScalar))
    }
}

/// Reads a little-endian `u32`; the payload must be exactly four bytes.
pub fn parse_u32(p: &[u8]) -> (r: Result<u32, NlError>)
    ensures
        match r {
            Ok(v) => spec_parse_u32(p@) == Ok::<_, ErrorKind>(v),
            Err(e) => spec_parse_u32(p@) == Err::<u32, _>(e.kind),
        },
{
    if p.len() == 4 {
        Ok(u32_from_le_bytes(p))
    } else {
        Err(NlError::new(ErrorKind::MalformedScalar))
    }
}

/// Reads a little-endian `u64`; the payload must be exactly eight bytes.
pub fn parse_u64(p: &[u8]) -> (r: Result<u64, NlError>)
    ensures
        match r {
            Ok(v) => spec_parse_u64(p@) == Ok::<_, ErrorKind>(v),
            Err(e) => spec_parse_u64(p@) == Err::<u64, _>(e.kind),
        },
{
    if p.len() == 8 {
        Ok(u64_from_le_bytes(p))
    } else {
        Err(NlError::new(ErrorKind::MalformedScalar))
    }
}

pub proof fn lemma_u16_round_trip(v: u16)
    ensures
        spec_parse_u16(spec_u16_to_le_bytes(v)) == Ok::<_, ErrorKind>(v),
{
    lemma_auto_spec_u16_to_from_le_bytes();
}

pub proof fn lemma_u32_round_trip(v: u32)
    ensures
        spec_parse_u32(spec_u32_to_le_bytes(v)) == Ok::<_, ErrorKind>(v),
{
    lemma_auto_spec_u32_to_from_le_bytes();
}

pub proof fn lemma_u64_round_trip(v: u64)
    ensures
        spec_parse_u64(spec_u64_to_le_bytes(v)) == Ok::<_, ErrorKind>(v),
{
    lemma_auto_spec_u64_to_from_le_bytes();
}

/// The payload of a string value: its UTF-8 bytes plus one NUL terminator.
pub open spec fn spec_string_payload(s: Seq<char>) -> Seq<u8> {
    encode_utf8(s) + seq![0u8]
}

/// A decoded string payload with one trailing NUL stripped when present.
pub open spec fn spec_strip_nul(p: Seq<u8>) -> Seq<u8> {
    if p.len() > 0 && p[p.len() - 1] == 0 {
        p.drop_last()
    } else {
        p
    }
}

pub open spec fn spec_parse_string(p: Seq<u8>) -> Result<Seq<char>, ErrorKind> {
    if valid_utf8(spec_strip_nul(p)) {
        Ok(decode_utf8(spec_strip_nul(p)))
    } else {
        Err(ErrorKind::MalformedScalar)
    }
}

/// Relies on `String::from_utf8` of std, which vstd leaves unspecified: it
/// succeeds exactly on valid UTF-8 input and returns its decoding.
#[verifier::external_body]
fn vec_into_string(bytes: Vec<u8>) -> (r: Option<String>)
    ensures
        match r {
            Some(s) => valid_utf8(bytes@) && s@ == decode_utf8(bytes@),
            None => !valid_utf8(bytes@),
        },
{
    String::from_utf8(bytes).ok()
}

/// Decodes a string payload: strips one trailing NUL when present, then
/// checks UTF-8.
pub fn parse_string(p: &[u8]) -> (r: Result<String, NlError>)
    ensures
        match r {
            Ok(s) => spec_parse_string(p@) == Ok::<_, ErrorKind>(s@),
            Err(e) => spec_parse_string(p@) == Err::<Seq<char>, _>(e.kind),
        },
{
    let stripped: &[u8] = if p.len() > 0 && *slice_index_get(p, p.len() - 1) == 0 {
        slice_subrange(p, 0, p.len() - 1)
    } else {
        slice_subrange(p, 0, p.len())
    };
    proof {
        assert(stripped@ =~= spec_strip_nul(p@));
    }
    match vec_into_string(slice_to_vec(stripped)) {
        Some(s) => Ok(s),
        None => Err(NlError::new(ErrorKind::MalformedScalar)),
    }
}

/// Emits a string payload: the UTF-8 bytes of `s`, then one NUL.
pub fn string_payload(s: &str, out: &mut Vec<u8>)
    ensures
        final(out)@ == old(out)@ + spec_string_payload(s@),
{
    out.extend_from_slice(s.as_bytes());
    out.push(0u8);
    proof {
        assert(out@ =~= old(out)@ + spec_string_payload(s@));
    }
}

/// Decoding an emitted string payload gives back the string.
pub proof fn lemma_string_round_trip(s: Seq<char>)
    ensures
        spec_parse_string(spec_string_payload(s)) == Ok::<_, ErrorKind>(s),
{
    encode_utf8_valid_utf8(s);
    encode_utf8_decode_utf8(s);
    assert(spec_strip_nul(spec_string_payload(s)) =~= encode_utf8(s));
}

} // verus!
