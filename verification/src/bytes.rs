//! Little-endian integer codecs and byte-range comparison, shared by the
//! voucher codec and the signature-instruction parser.

use vstd::prelude::*;

verus! {

/// Value of two bytes read as a little-endian 16-bit integer.
pub open spec fn u16_le(b0: u8, b1: u8) -> int {
    b0 + 256 * b1
}

/// The eight little-endian bytes of a 64-bit unsigned integer.
pub open spec fn u64_le_bytes(n: u64) -> Seq<u8> {
    seq![
        (n % 256) as u8,
        ((n / 256) % 256) as u8,
        ((n / 65536) % 256) as u8,
        ((n / 16777216) % 256) as u8,
        ((n / 4294967296) % 256) as u8,
        ((n / 1099511627776) % 256) as u8,
        ((n / 281474976710656) % 256) as u8,
        ((n / 72057594037927936) % 256) as u8,
    ]
}

/// The four little-endian bytes of a 32-bit unsigned integer.
pub open spec fn u32_le_bytes(n: u32) -> Seq<u8> {
    seq![
        (n % 256) as u8,
        ((n / 256) % 256) as u8,
        ((n / 65536) % 256) as u8,
        ((n / 16777216) % 256) as u8,
    ]
}

/// Value of eight little-endian bytes as an unsigned integer.
pub open spec fn u64_from_le(b: Seq<u8>) -> int
    recommends
        b.len() == 8,
{
    b[0] + 256 * b[1] + 65536 * b[2] + 16777216 * b[3] + 4294967296 * b[4]
        + 1099511627776 * b[5] + 281474976710656 * b[6] + 72057594037927936 * b[7]
}

/// Value of four little-endian bytes as an unsigned integer.
pub open spec fn u32_from_le(b: Seq<u8>) -> int
    recommends
        b.len() == 4,
{
    b[0] + 256 * b[1] + 65536 * b[2] + 16777216 * b[3]
}

/// The two's-complement image of a signed 64-bit integer in an unsigned
/// 64-bit word, as an unbounded integer.
pub open spec fn i64_as_u64(n: i64) -> int {
    if n >= 0 {
        n as int
    } else {
        n + 0x1_0000_0000_0000_0000
    }
}

/// The signed 64-bit integer whose two's-complement image is `u`.
pub open spec fn u64_as_i64(u: int) -> i64
    recommends
        0 <= u < 0x1_0000_0000_0000_0000,
{
    if u < 0x8000_0000_0000_0000 {
        u as i64
    } else {
        (u - 0x1_0000_0000_0000_0000) as i64
    }
}

/// The two's-complement image is invertible on signed 64-bit integers.
pub proof fn lemma_i64_round_trip(n: i64)
    ensures
        u64_as_i64(i64_as_u64(n)) == n,
{
}

/// Encoding a 64-bit integer and reading the bytes back gives the integer.
pub proof fn lemma_u64_le_round_trip(n: u64)
    ensures
        u64_from_le(u64_le_bytes(n)) == n,
{
    assert(u64_from_le(u64_le_bytes(n)) == n) by {
        assert(n % 256 + 256 * ((n / 256) % 256) + 65536 * ((n / 65536) % 256)
            + 16777216 * ((n / 16777216) % 256) + 4294967296 * ((n / 4294967296) % 256)
            + 1099511627776 * ((n / 1099511627776) % 256)
            + 281474976710656 * ((n / 281474976710656) % 256)
            + 72057594037927936 * ((n / 72057594037927936) % 256) == n) by (bit_vector);
    }
}

/// Encoding a 32-bit integer and reading the bytes back gives the integer.
pub proof fn lemma_u32_le_round_trip(n: u32)
    ensures
        u32_from_le(u32_le_bytes(n)) == n,
{
    assert(u32_from_le(u32_le_bytes(n)) == n) by {
        assert(n % 256 + 256 * ((n / 256) % 256) + 65536 * ((n / 65536) % 256)
            + 16777216 * ((n / 16777216) % 256) == n) by (bit_vector);
    }
}

/// Appends the eight little-endian bytes of `n` to `out`.
pub fn push_u64_le(out: &mut Vec<u8>, n: u64)
    ensures
        final(out)@ == old(out)@ + u64_le_bytes(n),
{
    out.push((n % 256) as u8);
    out.push(((n / 256) % 256) as u8);
    out.push(((n / 65536) % 256) as u8);
    out.push(((n / 16777216) % 256) as u8);
    out.push(((n / 4294967296) % 256) as u8);
    out.push(((n / 1099511627776) % 256) as u8);
    out.push(((n / 281474976710656) % 256) as u8);
    out.push(((n / 72057594037927936) % 256) as u8);
    assert(out@ =~= old(out)@ + u64_le_bytes(n));
}

/// Appends the four little-endian bytes of `n` to `out`.
pub fn push_u32_le(out: &mut Vec<u8>, n: u32)
    ensures
        final(out)@ == old(out)@ + u32_le_bytes(n),
{
    out.push((n % 256) as u8);
    out.push(((n / 256) % 256) as u8);
    out.push(((n / 65536) % 256) as u8);
    out.push(((n / 16777216) % 256) as u8);
    assert(out@ =~= old(out)@ + u32_le_bytes(n));
}

/// Reads the little-endian 64-bit unsigned integer at `data[i..i + 8]`.
pub fn read_u64_le(data: &[u8], i: usize) -> (r: u64)
    requires
        i + 8 <= data@.len(),
    ensures
        r == u64_from_le(data@.subrange(i as int, i + 8)),
{
    let r = (data[i] as u64) + 256 * (data[i + 1] as u64) + 65536 * (data[i + 2] as u64)
        + 16777216 * (data[i + 3] as u64) + 4294967296 * (data[i + 4] as u64)
        + 1099511627776 * (data[i + 5] as u64) + 281474976710656 * (data[i + 6] as u64)
        + 72057594037927936 * (data[i + 7] as u64);
    assert(data@.subrange(i as int, i + 8)[0] == data@[i as int]);
    r
}

/// Reads the little-endian 32-bit unsigned integer at `data[i..i + 4]`.
pub fn read_u32_le(data: &[u8], i: usize) -> (r: u32)
    requires
        i + 4 <= data@.len(),
    ensures
        r == u32_from_le(data@.subrange(i as int, i + 4)),
{
    let r = (data[i] as u32) + 256 * (data[i + 1] as u32) + 65536 * (data[i + 2] as u32)
        + 16777216 * (data[i + 3] as u32);
    assert(data@.subrange(i as int, i + 4)[0] == data@[i as int]);
    r
}

/// Reads the little-endian 16-bit unsigned integer at `data[i..i + 2]`.
pub fn read_u16_le(data: &[u8], i: usize) -> (r: u16)
    requires
        i + 2 <= data@.len(),
    ensures
        r == u16_le(data@[i as int], data@[i + 1]),
{
    (data[i] as u16) + 256 * (data[i + 1] as u16)
}

/// Converts a signed 64-bit integer to its two's-complement unsigned image.
pub fn i64_to_u64(n: i64) -> (r: u64)
    ensures
        r == i64_as_u64(n),
{
    if n >= 0 {
        n as u64
    } else {
        0xffff_ffff_ffff_ffffu64 - ((-(n + 1)) as u64)
    }
}

/// Converts a two's-complement unsigned image back to the signed integer.
pub fn u64_to_i64(u: u64) -> (r: i64)
    ensures
        r == u64_as_i64(u as int),
        i64_as_u64(r) == u,
{
    if u < 0x8000_0000_0000_0000u64 {
        u as i64
    } else {
        -((0xffff_ffff_ffff_ffffu64 - u) as i64) - 1
    }
}

/// True exactly when `data[offset..offset + expected.len()]` equals `expected`.
pub fn bytes_match(data: &[u8], offset: usize, expected: &[u8]) -> (r: bool)
    requires
        offset + expected@.len() <= data@.len(),
    ensures
        r == (data@.subrange(offset as int, offset + expected@.len()) =~= expected@),
{
    let n = expected.len();
    let dlen = data.len();
    let mut k: usize = 0;
    while k < n
        invariant
            n == expected@.len(),
            dlen == data@.len(),
            offset + n <= dlen,
            k <= n,
            forall|j: int| 0 <= j < k ==> data@[offset + j] == expected@[j],
        decreases n - k,
    {
        if data[offset + k] != expected[k] {
            assert(data@.subrange(offset as int, offset + expected@.len())[k as int]
                != expected@[k as int]);
            return false;
        }
        k += 1;
    }
    assert(data@.subrange(offset as int, offset + expected@.len()) =~= expected@);
    true
}

} // verus!
