//! Big-endian reads at fixed offsets of a byte window.
use vstd::prelude::*;

use crate::types::Vec2;

verus! {

/// The byte at `i` of `s`.
pub open spec fn u8_at(s: Seq<u8>, i: int) -> u8 {
    s[i]
}

/// The big-endian 16-bit value at `i` of `s`.
pub open spec fn u16_at(s: Seq<u8>, i: int) -> u16 {
    ((s[i] as u16) << 8u16) | (s[i + 1] as u16)
}

/// The big-endian 32-bit value at `i` of `s`.
pub open spec fn u32_at(s: Seq<u8>, i: int) -> u32 {
    ((s[i] as u32) << 24u32) | ((s[i + 1] as u32) << 16u32) | ((s[i + 2] as u32) << 8u32) | (
    s[i + 3] as u32)
}

/// The big-endian two's-complement 32-bit value at `i` of `s`.
pub open spec fn i32_at(s: Seq<u8>, i: int) -> i32 {
    u32_at(s, i) as i32
}

/// True where `n` bytes can be read at `i` of `s`.
pub open spec fn fits(s: Seq<u8>, i: int, n: int) -> bool {
    0 <= i && i + n <= s.len()
}

pub fn get_u8(b: &[u8], i: usize) -> (r: u8)
    requires
        i < b@.len(),
    ensures
        r == u8_at(b@, i as int),
{
    b[i]
}

pub fn get_i8(b: &[u8], i: usize) -> (r: i8)
    requires
        i < b@.len(),
    ensures
        r == u8_at(b@, i as int) as i8,
{
    b[i] as i8
}

pub fn get_u16(b: &[u8], i: usize) -> (r: u16)
    requires
        fits(b@, i as int, 2),
    ensures
        r == u16_at(b@, i as int),
{
    ((b[i] as u16) << 8u16) | (b[i + 1] as u16)
}

pub fn get_u32(b: &[u8], i: usize) -> (r: u32)
    requires
        fits(b@, i as int, 4),
    ensures
        r == u32_at(b@, i as int),
{
    ((b[i] as u32) << 24u32) | ((b[i + 1] as u32) << 16u32) | ((b[i + 2] as u32) << 8u32) | (b[i
        + 3] as u32)
}

pub fn get_i32(b: &[u8], i: usize) -> (r: i32)
    requires
        fits(b@, i as int, 4),
    ensures
        r == i32_at(b@, i as int),
{
    get_u32(b, i) as i32
}

/// The pair of 32-bit values at `i` of `s`.
pub open spec fn vec2_at(s: Seq<u8>, i: int) -> Vec2 {
    Vec2 { x: u32_at(s, i), y: u32_at(s, i + 4) }
}

/// Reads the pair of 32-bit values at `i`.
pub fn get_vec2(b: &[u8], i: usize) -> (r: Vec2)
    requires
        i + 8 <= b@.len(),
        i <= 1000,
    ensures
        r == vec2_at(b@, i as int),
{
    Vec2 { x: get_u32(b, i), y: get_u32(b, i + 4) }
}

/// The bytes of `s` before its first zero byte, or all of `s` where it holds none.
pub open spec fn until_zero(s: Seq<u8>) -> Seq<u8>
    decreases s.len(),
{
    if s.len() == 0 {
        s
    } else if s[0] == 0 {
        Seq::empty()
    } else {
        seq![s[0]].add(until_zero(s.drop_first()))
    }
}

/// Copies the field of `n` bytes at `i` of `b` up to its first zero byte.
pub fn zero_terminated(b: &[u8], i: usize, n: usize) -> (r: Vec<u8>)
    requires
        fits(b@, i as int, n as int),
    ensures
        r@ == until_zero(b@.subrange(i as int, i + n)),
{
    let len = b.len();
    let mut out: Vec<u8> = Vec::new();
    let mut k: usize = 0;
    while k < n
        invariant
            len == b@.len(),
            fits(b@, i as int, n as int),
            k <= n,
            out@.add(until_zero(b@.subrange(i + k, i + n))) == until_zero(b@.subrange(i as int, i + n)),
        decreases n - k,
    {
        let c = b[i + k];
        proof {
            let rest = b@.subrange(i + k, i + n);
            assert(rest.drop_first() =~= b@.subrange(i + k + 1, i + n));
        }
        if c == 0 {
            proof {
                assert(out@.add(Seq::<u8>::empty()) =~= out@);
            }
            return out;
        }
        out.push(c);
        proof {
            let rest = b@.subrange(i + k, i + n);
            assert(out@.add(until_zero(b@.subrange(i + k + 1, i + n))) =~= out@.drop_last().add(
                until_zero(rest),
            ));
        }
        k = k + 1;
    }
    proof {
        assert(b@.subrange(i + k, i + n) =~= Seq::<u8>::empty());
        assert(out@.add(Seq::<u8>::empty()) =~= out@);
    }
    out
}

} // verus!
