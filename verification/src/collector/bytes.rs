//! Little-endian integers as they lie in a device buffer.

use vstd::prelude::*;

verus! {

/// The number that `bytes` spells when read least significant byte first.
pub open spec fn le_value(bytes: Seq<u8>) -> nat
    decreases bytes.len(),
{
    if bytes.len() == 0 {
        0
    } else {
        bytes[0] as nat + 256 * le_value(bytes.skip(1))
    }
}

/// `256` raised to the power `n`: one more than the largest number that `n` bytes spell.
pub open spec fn radix_pow(n: nat) -> nat
    decreases n,
{
    if n == 0 {
        1
    } else {
        256 * radix_pow((n - 1) as nat)
    }
}

/// A number spelled by `n` bytes is below `256^n`.
pub proof fn le_value_bound(bytes: Seq<u8>)
    ensures
        le_value(bytes) < radix_pow(bytes.len()),
    decreases bytes.len(),
{
    if bytes.len() > 0 {
        le_value_bound(bytes.skip(1));
    }
}

/// Reads `width` bytes of `buf`, starting at `offset`, as one little-endian number.
pub fn read_le(buf: &[u8], offset: usize, width: usize) -> (value: u128)
    requires
        width <= 16,
        offset + width <= buf@.len(),
    ensures
        value == le_value(buf@.subrange(offset as int, offset + width)),
{
    let len: usize = buf.len();
    let mut value: u128 = 0;
    let mut i: usize = width;
    while i > 0
        invariant
            i <= width <= 16,
            offset + width <= buf@.len() == len,
            value == le_value(buf@.subrange(offset + i, offset + width)),
            value < radix_pow((width - i) as nat),
        decreases i,
    {
        i = i - 1;
        proof {
            let rest = buf@.subrange(offset + i + 1, offset + width);
            let more = buf@.subrange(offset + i, offset + width);
            assert(more.skip(1) =~= rest);
            assert(more[0] == buf@[offset + i]);
            radix_pow_grows((width - i - 1) as nat, 15);
            radix_pow_values();
        }
        value = value * 256 + buf[offset + i] as u128;
    }
    proof {
        assert(buf@.subrange(offset + width, offset + width) =~= Seq::<u8>::empty());
    }
    value
}

/// The powers of `256` for the widths that the log page uses.
pub proof fn radix_pow_values()
    ensures
        radix_pow(2) == 0x1_0000,
        radix_pow(4) == 0x1_0000_0000,
        radix_pow(8) == 0x1_0000_0000_0000_0000,
        radix_pow(16) == 0x1_0000_0000_0000_0000_0000_0000_0000_0000,
{
    reveal_with_fuel(radix_pow, 17);
}

/// `256^n` does not shrink as `n` grows.
pub proof fn radix_pow_grows(n: nat, m: nat)
    requires
        n <= m,
    ensures
        radix_pow(n) <= radix_pow(m),
    decreases m,
{
    if n < m {
        radix_pow_grows(n, (m - 1) as nat);
    }
}

/// The little-endian number that lies in the `width` bytes of `buf` from `offset` on.
pub open spec fn le_at(buf: Seq<u8>, offset: int, width: int) -> nat {
    le_value(buf.subrange(offset, offset + width))
}

/// A wide counter cut down to its low 64 bits: what is above them is dropped,
/// so a counter that has passed `u64::MAX` starts again from zero.
pub open spec fn narrowed(value: nat) -> u64 {
    (value % 0x1_0000_0000_0000_0000) as u64
}

/// The byte at `offset`, widened.
pub fn read_u8(buf: &[u8], offset: usize) -> (value: u64)
    requires
        offset < buf@.len(),
    ensures
        value == buf@[offset as int],
{
    buf[offset] as u64
}

/// The 16-bit little-endian number at `offset`, widened.
pub fn read_le16(buf: &[u8], offset: usize) -> (value: u64)
    requires
        offset + 2 <= buf@.len(),
    ensures
        value == le_at(buf@, offset as int, 2),
        value <= 0xFFFF,
{
    let wide = read_le(buf, offset, 2);
    proof {
        le_value_bound(buf@.subrange(offset as int, offset + 2));
        radix_pow_values();
    }
    wide as u64
}

/// The 32-bit little-endian number at `offset`, widened.
pub fn read_le32(buf: &[u8], offset: usize) -> (value: u64)
    requires
        offset + 4 <= buf@.len(),
    ensures
        value == le_at(buf@, offset as int, 4),
        value <= 0xFFFF_FFFF,
{
    let wide = read_le(buf, offset, 4);
    proof {
        le_value_bound(buf@.subrange(offset as int, offset + 4));
        radix_pow_values();
    }
    wide as u64
}

/// The 128-bit little-endian counter at `offset`, narrowed to 64 bits.
pub fn read_counter(buf: &[u8], offset: usize) -> (value: u64)
    requires
        offset + 16 <= buf@.len(),
    ensures
        value == narrowed(le_at(buf@, offset as int, 16)),
{
    let wide = read_le(buf, offset, 16);
    assert(wide as u64 == wide % 0x1_0000_0000_0000_0000) by (bit_vector);
    #[verifier::truncate]
    (wide as u64)
}

/// Converts a 16-byte little-endian counter into a `u128`.
pub fn le_16_to_u128(bytes: &[u8; 16]) -> (value: u128)
    ensures
        value == le_value(bytes@),
{
    assert(bytes@.subrange(0, 16) =~= bytes@);
    read_le(bytes.as_slice(), 0, 16)
}

/// Converts a 32-bit little-endian counter into a `u64`.
pub fn le32_to_u64(bytes: &[u8; 4]) -> (value: u64)
    ensures
        value == le_value(bytes@),
        value <= 0xFFFF_FFFF,
{
    assert(bytes@.subrange(0, 4) =~= bytes@);
    read_le32(bytes.as_slice(), 0)
}

/// Numbers spelled by a sequence of bytes split where the sequence splits:
/// the later bytes count `256^k` times, `k` being the length of the earlier part.
pub proof fn le_value_concat(low: Seq<u8>, high: Seq<u8>)
    ensures
        le_value(low + high) == le_value(low) + radix_pow(low.len()) * le_value(high),
    decreases low.len(),
{
    if low.len() == 0 {
        assert(low + high =~= high);
    } else {
        let tail = low.skip(1);
        assert((low + high).skip(1) =~= tail + high);
        assert((low + high)[0] == low[0]);
        le_value_concat(tail, high);
        let p = radix_pow(tail.len()) as int;
        let h = le_value(high) as int;
        let t = le_value(tail) as int;
        assert(radix_pow(low.len()) == 256 * p);
        assert(256 * (t + p * h) == 256 * t + (256 * p) * h) by (nonlinear_arith);
    }
}

/// Bytes that are all zero spell zero.
pub proof fn le_value_of_zeros(bytes: Seq<u8>)
    requires
        forall|i: int| 0 <= i < bytes.len() ==> bytes[i] == 0,
    ensures
        le_value(bytes) == 0,
    decreases bytes.len(),
{
    if bytes.len() > 0 {
        le_value_of_zeros(bytes.skip(1));
    }
}

/// Narrowing a 128-bit counter keeps exactly its low eight bytes.
pub proof fn narrowed_keeps_low_bytes(bytes: Seq<u8>)
    requires
        bytes.len() == 16,
    ensures
        narrowed(le_value(bytes)) == le_value(bytes.take(8)),
{
    let low = bytes.take(8);
    let high = bytes.skip(8);
    assert(low + high =~= bytes);
    le_value_concat(low, high);
    le_value_bound(low);
    radix_pow_values();
    let l = le_value(low) as int;
    let h = le_value(high) as int;
    assert((l + 0x1_0000_0000_0000_0000 * h) % 0x1_0000_0000_0000_0000 == l) by (nonlinear_arith)
        requires
            0 <= l < 0x1_0000_0000_0000_0000,
            0 <= h,
    ;
}

} // verus!
