//! Little-endian encoding of integers, as address seeds and instruction data
//! carry them.

use vstd::prelude::*;

verus! {

/// The `width` low bytes of `value`, lowest byte first.
pub open spec fn le_bytes(value: nat, width: nat) -> Seq<u8>
    decreases width,
{
    if width == 0 {
        Seq::empty()
    } else {
        seq![(value % 256) as u8] + le_bytes(value / 256, (width - 1) as nat)
    }
}

/// A signed 32-bit value as the unsigned value with the same bits.
pub open spec fn as_unsigned_32(value: i32) -> nat {
    if value >= 0 {
        value as nat
    } else {
        (value + 0x1_0000_0000) as nat
    }
}

/// An encoding has as many bytes as its width.
pub proof fn lemma_le_bytes_len(value: nat, width: nat)
    ensures
        le_bytes(value, width).len() == width,
    decreases width,
{
    if width > 0 {
        lemma_le_bytes_len(value / 256, (width - 1) as nat);
    }
}

/// Append the `width` low bytes of `value` to `out`, lowest byte first.
pub fn push_le(out: &mut Vec<u8>, value: u128, width: usize)
    ensures
        final(out)@ == old(out)@ + le_bytes(value as nat, width as nat),
{
    let mut rest: u128 = value;
    let mut i: usize = 0;
    while i < width
        invariant
            i <= width,
            out@ + le_bytes(rest as nat, (width - i) as nat) == old(out)@ + le_bytes(
                value as nat,
                width as nat,
            ),
        decreases width - i,
    {
        let ghost before: Seq<u8> = out@;
        out.push((rest % 256) as u8);
        proof {
            let tail: Seq<u8> = le_bytes((rest / 256) as nat, (width - i - 1) as nat);
            assert(le_bytes(rest as nat, (width - i) as nat) == seq![(rest % 256) as u8] + tail);
            assert(before.push((rest % 256) as u8) + tail == before + (seq![(rest % 256) as u8]
                + tail));
        }
        rest = rest / 256;
        i = i + 1;
    }
    assert(out@ + Seq::<u8>::empty() == out@);
}

/// The two bytes of a 16-bit value, lowest first.
pub fn u16_le_bytes(value: u16) -> (r: Vec<u8>)
    ensures
        r@ == le_bytes(value as nat, 2),
{
    let mut out: Vec<u8> = Vec::new();
    push_le(&mut out, value as u128, 2);
    assert(Seq::<u8>::empty() + le_bytes(value as nat, 2) == le_bytes(value as nat, 2));
    out
}

/// The four bytes of a 32-bit value, lowest first.
pub fn u32_le_bytes(value: u32) -> (r: Vec<u8>)
    ensures
        r@ == le_bytes(value as nat, 4),
{
    let mut out: Vec<u8> = Vec::new();
    push_le(&mut out, value as u128, 4);
    assert(Seq::<u8>::empty() + le_bytes(value as nat, 4) == le_bytes(value as nat, 4));
    out
}

/// The four bytes of a signed 32-bit value in two's complement, lowest first.
pub fn i32_le_bytes(value: i32) -> (r: Vec<u8>)
    ensures
        r@ == le_bytes(as_unsigned_32(value), 4),
{
    let unsigned: u32 = if value >= 0 {
        value as u32
    } else {
        ((value as i64) + 0x1_0000_0000) as u32
    };
    u32_le_bytes(unsigned)
}

/// The eight bytes of a 64-bit value, lowest first.
pub fn u64_le_bytes(value: u64) -> (r: Vec<u8>)
    ensures
        r@ == le_bytes(value as nat, 8),
{
    let mut out: Vec<u8> = Vec::new();
    push_le(&mut out, value as u128, 8);
    assert(Seq::<u8>::empty() + le_bytes(value as nat, 8) == le_bytes(value as nat, 8));
    out
}

/// The sixteen bytes of a 128-bit value, lowest first.
pub fn u128_le_bytes(value: u128) -> (r: Vec<u8>)
    ensures
        r@ == le_bytes(value as nat, 16),
{
    let mut out: Vec<u8> = Vec::new();
    push_le(&mut out, value, 16);
    assert(Seq::<u8>::empty() + le_bytes(value as nat, 16) == le_bytes(value as nat, 16));
    out
}

/// Append every byte of `bytes` to `out`.
pub fn push_bytes(out: &mut Vec<u8>, bytes: &[u8])
    ensures
        final(out)@ == old(out)@ + bytes@,
{
    let mut i: usize = 0;
    while i < bytes.len()
        invariant
            i <= bytes@.len(),
            out@ == old(out)@ + bytes@.take(i as int),
        decreases bytes@.len() - i,
    {
        let ghost before: Seq<u8> = out@;
        out.push(bytes[i]);
        assert(bytes@.take(i + 1) == bytes@.take(i as int).push(bytes@[i as int]));
        i = i + 1;
    }
    assert(bytes@.take(bytes@.len() as int) == bytes@);
}

} // verus!
