//! Big-endian field codecs: the primitive conversions between byte
//! sequences and the 16-bit and 32-bit unsigned integers stored in the
//! header, together with the lemmas that make the two directions inverse.

use vstd::prelude::*;

use crate::error::{Error, ErrorSpec};

verus! {

/// The big-endian 16-bit integer held by `b[i]` and `b[i + 1]`.
pub open spec fn be16(b: Seq<u8>, i: int) -> int
    recommends
        0 <= i,
        i + 2 <= b.len(),
{
    (b[i] as int) * 0x100 + (b[i + 1] as int)
}

/// The big-endian 32-bit integer held by `b[i]` through `b[i + 3]`.
pub open spec fn be32(b: Seq<u8>, i: int) -> int
    recommends
        0 <= i,
        i + 4 <= b.len(),
{
    (b[i] as int) * 0x100_0000 + (b[i + 1] as int) * 0x1_0000 + (b[i + 2] as int) * 0x100 + (b[i
        + 3] as int)
}

/// The two big-endian bytes of `v`, for `0 <= v < 0x1_0000`.
pub open spec fn be16_bytes(v: int) -> Seq<u8> {
    seq![((v / 0x100) % 0x100) as u8, (v % 0x100) as u8]
}

/// The four big-endian bytes of `v`, for `0 <= v < 0x1_0000_0000`.
pub open spec fn be32_bytes(v: int) -> Seq<u8> {
    seq![
        ((v / 0x100_0000) % 0x100) as u8,
        ((v / 0x1_0000) % 0x100) as u8,
        ((v / 0x100) % 0x100) as u8,
        (v % 0x100) as u8,
    ]
}

pub proof fn lemma_be16_bounds(b: Seq<u8>, i: int)
    requires
        0 <= i,
        i + 2 <= b.len(),
    ensures
        0 <= be16(b, i) < 0x1_0000,
{
}

pub proof fn lemma_be32_bounds(b: Seq<u8>, i: int)
    requires
        0 <= i,
        i + 4 <= b.len(),
    ensures
        0 <= be32(b, i) < 0x1_0000_0000,
{
}

/// Reading back the two bytes written for `v` yields `v`.
pub proof fn lemma_be16_roundtrip(v: int)
    requires
        0 <= v < 0x1_0000,
    ensures
        be16(be16_bytes(v), 0) == v,
{
}

/// Reading back the four bytes written for `v` yields `v`.
pub proof fn lemma_be32_roundtrip(v: int)
    requires
        0 <= v < 0x1_0000_0000,
    ensures
        be32(be32_bytes(v), 0) == v,
{
}

/// Writing back the integer read from `b[i]..b[i + 2]` yields those bytes.
pub proof fn lemma_be16_bytes_of_be16(b: Seq<u8>, i: int)
    requires
        0 <= i,
        i + 2 <= b.len(),
    ensures
        be16_bytes(be16(b, i)) == b.subrange(i, i + 2),
{
    let v = be16(b, i);
    assert(v / 0x100 == b[i] && v % 0x100 == b[i + 1]) by (nonlinear_arith)
        requires
            v == (b[i] as int) * 0x100 + (b[i + 1] as int),
            0 <= b[i] < 0x100,
            0 <= b[i + 1] < 0x100,
    ;
    assert(be16_bytes(v) =~= b.subrange(i, i + 2));
}

/// Writing back the integer read from `b[i]..b[i + 4]` yields those bytes.
pub proof fn lemma_be32_bytes_of_be32(b: Seq<u8>, i: int)
    requires
        0 <= i,
        i + 4 <= b.len(),
    ensures
        be32_bytes(be32(b, i)) == b.subrange(i, i + 4),
{
    let v = be32(b, i);
    assert((v / 0x100_0000) % 0x100 == b[i] && (v / 0x1_0000) % 0x100 == b[i + 1] && (v / 0x100)
        % 0x100 == b[i + 2] && v % 0x100 == b[i + 3]) by (nonlinear_arith)
        requires
            v == (b[i] as int) * 0x100_0000 + (b[i + 1] as int) * 0x1_0000 + (b[i + 2] as int)
                * 0x100 + (b[i + 3] as int),
            0 <= b[i] < 0x100,
            0 <= b[i + 1] < 0x100,
            0 <= b[i + 2] < 0x100,
            0 <= b[i + 3] < 0x100,
    ;
    assert(be32_bytes(v) =~= b.subrange(i, i + 4));
}

/// Decodes a 2-byte big-endian slice into an unsigned 16-bit integer.
///
/// Any slice length other than exactly 2 is a `LengthMismatch`, kept
/// distinct from the semantic validation errors so that callers can tell a
/// malformed buffer from a well-formed but invalid header.
pub fn two_byte_slice_to_u16(slice: &[u8]) -> (r: Result<u16, Error>)
    ensures
        r is Ok <==> slice@.len() == 2,
        r matches Ok(v) ==> v as int == be16(slice@, 0),
        r matches Err(e) ==> e@ == (ErrorSpec::LengthMismatch { found: slice@.len() as int }),
{
    if slice.len() == 2 {
        Ok((slice[0] as u16) * 0x100 + (slice[1] as u16))
    } else {
        Err(Error::LengthMismatch { found: slice.len() })
    }
}

/// Decodes a 4-byte big-endian slice into an unsigned 32-bit integer.
///
/// Any slice length other than exactly 4 is a `LengthMismatch`.
pub fn four_byte_slice_to_u32(slice: &[u8]) -> (r: Result<u32, Error>)
    ensures
        r is Ok <==> slice@.len() == 4,
        r matches Ok(v) ==> v as int == be32(slice@, 0),
        r matches Err(e) ==> e@ == (ErrorSpec::LengthMismatch { found: slice@.len() as int }),
{
    if slice.len() == 4 {
        Ok((slice[0] as u32) * 0x100_0000 + (slice[1] as u32) * 0x1_0000 + (slice[2] as u32)
            * 0x100 + (slice[3] as u32))
    } else {
        Err(Error::LengthMismatch { found: slice.len() })
    }
}

/// Reads the big-endian 16-bit integer at offset `off` of `bytes`.
pub fn read_u16_at(bytes: &[u8], off: usize) -> (r: u16)
    requires
        off + 2 <= bytes@.len(),
    ensures
        r as int == be16(bytes@, off as int),
{
    let n: usize = bytes.len();
    assert(off + 2 <= n);
    let slice = &bytes[off..off + 2];
    match two_byte_slice_to_u16(slice) {
        Ok(v) => v,
        Err(_) => vstd::pervasive::unreached(),
    }
}

/// Reads the big-endian 32-bit integer at offset `off` of `bytes`.
pub fn read_u32_at(bytes: &[u8], off: usize) -> (r: u32)
    requires
        off + 4 <= bytes@.len(),
    ensures
        r as int == be32(bytes@, off as int),
{
    let n: usize = bytes.len();
    assert(off + 4 <= n);
    let slice = &bytes[off..off + 4];
    match four_byte_slice_to_u32(slice) {
        Ok(v) => v,
        Err(_) => vstd::pervasive::unreached(),
    }
}

/// Appends the two big-endian bytes of `x` to `v`.
pub fn push_be16(v: &mut Vec<u8>, x: u16)
    ensures
        final(v)@ == old(v)@ + be16_bytes(x as int),
{
    v.push((x / 0x100) as u8);
    v.push((x % 0x100) as u8);
    proof {
        assert(v@ =~= old(v)@ + be16_bytes(x as int));
    }
}

/// Appends the four big-endian bytes of `x` to `v`.
pub fn push_be32(v: &mut Vec<u8>, x: u32)
    ensures
        final(v)@ == old(v)@ + be32_bytes(x as int),
{
    v.push((x / 0x100_0000) as u8);
    v.push((x / 0x1_0000 % 0x100) as u8);
    v.push((x / 0x100 % 0x100) as u8);
    v.push((x % 0x100) as u8);
    proof {
        assert(v@ =~= old(v)@ + be32_bytes(x as int));
    }
}

} // verus!
