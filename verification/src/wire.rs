//! Little-endian integers on the wire, as sequences of bytes.
//!
//! The layouts are stated arithmetically: byte `k` of a number is its `k`-th
//! digit in base 256, lowest digit first.

use vstd::arithmetic::div_mod::lemma_fundamental_div_mod_converse;
use vstd::prelude::*;

verus! {

/// The four bytes of `x`, lowest first.
#[verifier::opaque]
pub open spec fn u32_le(x: u32) -> Seq<u8> {
    seq![
        (x % 256) as u8,
        (x / 256 % 256) as u8,
        (x / 65536 % 256) as u8,
        (x / 16777216) as u8,
    ]
}

/// The number whose little-endian bytes are the first four of `bytes`.
#[verifier::opaque]
pub open spec fn u32_from_le(bytes: Seq<u8>) -> u32
    recommends
        bytes.len() >= 4,
{
    (bytes[0] as nat + 256 * bytes[1] as nat + 65536 * bytes[2] as nat + 16777216
        * bytes[3] as nat) as u32
}

/// The eight bytes of `x`, lowest first: the low half, then the high half.
#[verifier::opaque]
pub open spec fn u64_le(x: u64) -> Seq<u8> {
    u32_le((x % 0x1_0000_0000) as u32) + u32_le((x / 0x1_0000_0000) as u32)
}

/// The number whose little-endian bytes are the first eight of `bytes`.
#[verifier::opaque]
pub open spec fn u64_from_le(bytes: Seq<u8>) -> u64
    recommends
        bytes.len() >= 8,
{
    (u32_from_le(bytes.subrange(0, 4)) as nat + 0x1_0000_0000 * u32_from_le(
        bytes.subrange(4, 8),
    ) as nat) as u64
}

/// The digits of a number in base 256 are found again by dividing.
proof fn lemma_base_256_digits(d0: int, d1: int, d2: int, d3: int)
    requires
        0 <= d0 < 256,
        0 <= d1 < 256,
        0 <= d2 < 256,
        0 <= d3 < 256,
    ensures
        ({
            let x = d0 + 256 * d1 + 65536 * d2 + 16777216 * d3;
            &&& 0 <= x <= u32::MAX
            &&& x % 256 == d0
            &&& x / 256 % 256 == d1
            &&& x / 65536 % 256 == d2
            &&& x / 16777216 == d3
        }),
{
    let x = d0 + 256 * d1 + 65536 * d2 + 16777216 * d3;
    lemma_fundamental_div_mod_converse(x, 256, d1 + 256 * d2 + 65536 * d3, d0);
    lemma_fundamental_div_mod_converse(x / 256, 256, d2 + 256 * d3, d1);
    lemma_fundamental_div_mod_converse(x, 65536, d2 + 256 * d3, d0 + 256 * d1);
    lemma_fundamental_div_mod_converse(x / 65536, 256, d3, d2);
    lemma_fundamental_div_mod_converse(x, 16777216, d3, d0 + 256 * d1 + 65536 * d2);
}

/// Reading back the bytes of a number gives the number, whatever follows them.
pub proof fn lemma_u32_le_round_trip(x: u32, rest: Seq<u8>)
    ensures
        u32_le(x).len() == 4,
        u32_from_le(u32_le(x) + rest) == x,
{
    reveal(u32_le);
    reveal(u32_from_le);
}

/// Four bytes are the layout of the number they are read as: the layout is
/// one to one.
pub proof fn lemma_u32_from_le_inverse(bytes: Seq<u8>)
    requires
        bytes.len() >= 4,
    ensures
        u32_le(u32_from_le(bytes)) == bytes.subrange(0, 4),
{
    reveal(u32_le);
    reveal(u32_from_le);
    lemma_base_256_digits(bytes[0] as int, bytes[1] as int, bytes[2] as int, bytes[3] as int);
}

/// Reading back the bytes of a number gives the number, whatever follows them.
pub proof fn lemma_u64_le_round_trip(x: u64, rest: Seq<u8>)
    ensures
        u64_le(x).len() == 8,
        u64_from_le(u64_le(x) + rest) == x,
{
    reveal(u64_le);
    reveal(u64_from_le);
    let low = (x % 0x1_0000_0000) as u32;
    let high = (x / 0x1_0000_0000) as u32;
    let b = u64_le(x) + rest;
    lemma_u32_le_round_trip(low, Seq::empty());
    lemma_u32_le_round_trip(high, Seq::empty());
    assert(b.subrange(0, 4) =~= u32_le(low) + Seq::<u8>::empty());
    assert(b.subrange(4, 8) =~= u32_le(high) + Seq::<u8>::empty());
}

/// Eight bytes are the layout of the number they are read as.
pub proof fn lemma_u64_from_le_inverse(bytes: Seq<u8>)
    requires
        bytes.len() >= 8,
    ensures
        u64_le(u64_from_le(bytes)) == bytes.subrange(0, 8),
{
    reveal(u64_le);
    reveal(u64_from_le);
    let low = u32_from_le(bytes.subrange(0, 4));
    let high = u32_from_le(bytes.subrange(4, 8));
    lemma_u32_from_le_inverse(bytes.subrange(0, 4));
    lemma_u32_from_le_inverse(bytes.subrange(4, 8));
    let x = low as int + 0x1_0000_0000 * high as int;
    lemma_fundamental_div_mod_converse(x, 0x1_0000_0000, high as int, low as int);
}

/// Appends the four bytes of `x` to `out`.
pub fn put_u32_le(out: &mut Vec<u8>, x: u32)
    ensures
        final(out)@ == old(out)@ + u32_le(x),
{
    out.push((x % 256) as u8);
    out.push((x / 256 % 256) as u8);
    out.push((x / 65536 % 256) as u8);
    out.push((x / 16777216) as u8);
    proof {
        reveal(u32_le);
    }
}

/// Reads the number laid out in the four bytes of `bytes` that start at `at`.
pub fn get_u32_le(bytes: &[u8], at: usize) -> (x: u32)
    requires
        at + 4 <= bytes.len(),
    ensures
        x == u32_from_le(bytes@.subrange(at as int, at + 4)),
{
    let b0: u32 = bytes[at] as u32;
    let b1: u32 = bytes[at + 1] as u32;
    let b2: u32 = bytes[at + 2] as u32;
    let b3: u32 = bytes[at + 3] as u32;
    proof {
        reveal(u32_from_le);
    }
    b0 + 256 * b1 + 65536 * b2 + 16777216 * b3
}

/// Appends the eight bytes of `x` to `out`.
pub fn put_u64_le(out: &mut Vec<u8>, x: u64)
    ensures
        final(out)@ == old(out)@ + u64_le(x),
{
    put_u32_le(out, (x % 0x1_0000_0000) as u32);
    put_u32_le(out, (x / 0x1_0000_0000) as u32);
    proof {
        reveal(u64_le);
    }
}

/// Reads the number laid out in the eight bytes of `bytes` that start at `at`.
pub fn get_u64_le(bytes: &[u8], at: usize) -> (x: u64)
    requires
        at + 8 <= bytes.len(),
    ensures
        x == u64_from_le(bytes@.subrange(at as int, at + 8)),
{
    let low: u64 = get_u32_le(bytes, at) as u64;
    let high: u64 = get_u32_le(bytes, at + 4) as u64;
    proof {
        reveal(u64_from_le);
        let window = bytes@.subrange(at as int, at + 8);
        assert(window.subrange(0, 4) =~= bytes@.subrange(at as int, at + 4));
        assert(window.subrange(4, 8) =~= bytes@.subrange(at + 4, at + 8));
    }
    low + 0x1_0000_0000 * high
}

} // verus!
