//! The encodings of the primitive values that the records and the
//! instructions are made of: integers least significant byte first, a truth
//! value as one byte that is 0 or 1.

use vstd::prelude::*;

verus! {

/// 256 to the power `n`.
pub open spec fn pow256(n: nat) -> nat
    decreases n,
{
    if n == 0 {
        1
    } else {
        256 * pow256((n - 1) as nat)
    }
}

/// The `width` low bytes of `value`, least significant first.
pub open spec fn le_bytes(value: nat, width: nat) -> Seq<u8>
    decreases width,
{
    if width == 0 {
        Seq::empty()
    } else {
        seq![(value % 256) as u8] + le_bytes(value / 256, (width - 1) as nat)
    }
}

/// The number that `bytes` spell, least significant byte first.
pub open spec fn le_value(bytes: Seq<u8>) -> nat
    decreases bytes.len(),
{
    if bytes.len() == 0 {
        0
    } else {
        bytes[0] as nat + 256 * le_value(bytes.drop_first())
    }
}

/// The two's complement of a signed 64-bit number, as a number below 2^64.
pub open spec fn i64_bits(value: i64) -> nat {
    if value >= 0 {
        value as nat
    } else {
        (value + 0x1_0000_0000_0000_0000) as nat
    }
}

/// The signed number whose two's complement is `bits`.
pub open spec fn i64_of_bits(bits: nat) -> i64 {
    if bits < 0x8000_0000_0000_0000 {
        bits as i64
    } else {
        (bits - 0x1_0000_0000_0000_0000) as i64
    }
}

/// The byte that stands for a truth value.
pub open spec fn bool_byte(b: bool) -> u8 {
    if b {
        1
    } else {
        0
    }
}

/// `buf` with its first bytes replaced by `bytes`.
pub open spec fn overwrite(buf: Seq<u8>, bytes: Seq<u8>) -> Seq<u8> {
    bytes + buf.subrange(bytes.len() as int, buf.len() as int)
}

/// The powers of 256 up to the eighth.
pub proof fn lemma_pow256_values()
    ensures
        pow256(0) == 1,
        pow256(1) == 0x100,
        pow256(2) == 0x1_0000,
        pow256(3) == 0x100_0000,
        pow256(4) == 0x1_0000_0000,
        pow256(5) == 0x100_0000_0000,
        pow256(6) == 0x1_0000_0000_0000,
        pow256(7) == 0x100_0000_0000_0000,
        pow256(8) == 0x1_0000_0000_0000_0000,
{
    reveal_with_fuel(pow256, 10);
}

/// An encoding has as many bytes as were asked for.
pub proof fn lemma_le_bytes_len(value: nat, width: nat)
    ensures
        le_bytes(value, width).len() == width,
    decreases width,
{
    if width > 0 {
        lemma_le_bytes_len(value / 256, (width - 1) as nat);
    }
}

/// Bytes spell a number below 256 to the power of their count.
pub proof fn lemma_le_value_bound(bytes: Seq<u8>)
    ensures
        le_value(bytes) < pow256(bytes.len()),
    decreases bytes.len(),
{
    if bytes.len() > 0 {
        lemma_le_value_bound(bytes.drop_first());
    }
}

/// Decoding the encoding of a number that fits gives the number back.
pub proof fn lemma_le_value_of_bytes(value: nat, width: nat)
    requires
        value < pow256(width),
    ensures
        le_value(le_bytes(value, width)) == value,
    decreases width,
{
    if width > 0 {
        let rest = le_bytes(value / 256, (width - 1) as nat);
        let all = le_bytes(value, width);
        lemma_le_bytes_len(value / 256, (width - 1) as nat);
        assert(all.drop_first() =~= rest);
        lemma_le_value_of_bytes(value / 256, (width - 1) as nat);
    }
}

/// Encoding the number that bytes spell, at their width, gives the bytes back.
pub proof fn lemma_le_bytes_of_value(bytes: Seq<u8>)
    ensures
        le_bytes(le_value(bytes), bytes.len()) == bytes,
    decreases bytes.len(),
{
    if bytes.len() > 0 {
        lemma_le_bytes_of_value(bytes.drop_first());
    }
}

/// The two's complement of a signed number is below 2^64 and gives the number
/// back.
pub proof fn lemma_i64_bits(value: i64)
    ensures
        i64_bits(value) < pow256(8),
        i64_of_bits(i64_bits(value)) == value,
{
    lemma_pow256_values();
}

/// A number below 2^64 is the two's complement of the signed number it stands
/// for.
pub proof fn lemma_i64_of_bits(bits: nat)
    requires
        bits < pow256(8),
    ensures
        i64_bits(i64_of_bits(bits)) == bits,
{
    lemma_pow256_values();
}

/// Appends the eight bytes of `value`, least significant first.
pub fn push_u64(out: &mut Vec<u8>, value: u64)
    ensures
        final(out)@ == old(out)@ + le_bytes(value as nat, 8),
{
    let mut rest: u64 = value;
    let mut i: usize = 0;
    while i < 8
        invariant
            i <= 8,
            old(out)@ + le_bytes(value as nat, 8) == out@ + le_bytes(rest as nat, (8 - i) as nat),
        decreases 8 - i,
    {
        out.push((rest % 256) as u8);
        rest = rest / 256;
        i += 1;
    }
}

/// The two's complement of `value` as an unsigned number.
pub fn i64_to_bits(value: i64) -> (bits: u64)
    ensures
        bits == i64_bits(value),
{
    if value >= 0 {
        value as u64
    } else {
        let low: i64 = value - i64::MIN;
        (low as u64) + 0x8000_0000_0000_0000u64
    }
}

/// The signed number whose two's complement is `bits`.
pub fn i64_from_bits(bits: u64) -> (value: i64)
    ensures
        value == i64_of_bits(bits as nat),
{
    if bits < 0x8000_0000_0000_0000u64 {
        bits as i64
    } else {
        let low: u64 = bits - 0x8000_0000_0000_0000u64;
        (low as i64) + i64::MIN
    }
}

/// Appends the eight bytes of the two's complement of `value`, least
/// significant first.
pub fn push_i64(out: &mut Vec<u8>, value: i64)
    ensures
        final(out)@ == old(out)@ + le_bytes(i64_bits(value), 8),
{
    push_u64(out, i64_to_bits(value));
}

/// Appends the byte that stands for `b`.
pub fn push_bool(out: &mut Vec<u8>, b: bool)
    ensures
        final(out)@ == old(out)@.push(bool_byte(b)),
{
    if b {
        out.push(1);
    } else {
        out.push(0);
    }
}

/// Appends the 32 bytes of `bytes`.
pub fn push_bytes32(out: &mut Vec<u8>, bytes: &[u8; 32])
    ensures
        final(out)@ == old(out)@ + bytes@,
{
    let mut i: usize = 0;
    while i < 32
        invariant
            i <= 32,
            out@ == old(out)@ + bytes@.subrange(0, i as int),
        decreases 32 - i,
    {
        out.push(bytes[i]);
        i += 1;
    }
}

/// The number that the eight bytes of `src` from `at` on spell.
pub fn read_u64(src: &[u8], at: usize) -> (value: u64)
    requires
        at + 8 <= src.len(),
    ensures
        value == le_value(src@.subrange(at as int, at + 8)),
{
    let mut value: u64 = 0;
    let mut i: usize = 8;
    proof {
        lemma_pow256_values();
    }
    while i > 0
        invariant
            i <= 8,
            at + 8 <= src.len(),
            value == le_value(src@.subrange(at + i, at + 8)),
            value < pow256((8 - i) as nat),
        decreases i,
    {
        i -= 1;
        proof {
            let part = src@.subrange(at + i, at + 8);
            assert(part.drop_first() =~= src@.subrange(at + i + 1, at + 8));
            assert(pow256((8 - i) as nat) <= pow256(8)) by {
                reveal_with_fuel(pow256, 10);
            }
        }
        value = value * 256 + src[at + i] as u64;
    }
    value
}

/// The signed number that the eight bytes of `src` from `at` on spell in
/// two's complement.
pub fn read_i64(src: &[u8], at: usize) -> (value: i64)
    requires
        at + 8 <= src.len(),
    ensures
        value == i64_of_bits(le_value(src@.subrange(at as int, at + 8))),
{
    i64_from_bits(read_u64(src, at))
}

/// The truth value that the byte of `src` at `at` stands for, if it is 0 or 1.
pub fn read_bool(src: &[u8], at: usize) -> (b: Option<bool>)
    requires
        at < src.len(),
    ensures
        match b {
            Some(v) => src@[at as int] == bool_byte(v),
            None => src@[at as int] > 1,
        },
{
    let byte = src[at];
    if byte == 0 {
        Some(false)
    } else if byte == 1 {
        Some(true)
    } else {
        None
    }
}

/// The 32 bytes of `src` from `at` on.
pub fn read_bytes32(src: &[u8], at: usize) -> (bytes: [u8; 32])
    requires
        at + 32 <= src.len(),
    ensures
        bytes@ == src@.subrange(at as int, at + 32),
{
    let mut bytes: [u8; 32] = [0u8; 32];
    let mut i: usize = 0;
    while i < 32
        invariant
            i <= 32,
            at + 32 <= src.len(),
            forall|j: int| 0 <= j < i ==> bytes@[j] == src@[at + j],
        decreases 32 - i,
    {
        bytes[i] = src[at + i];
        i += 1;
    }
    bytes
}

/// Replaces the first bytes of `dst` by `bytes`.
pub fn write_prefix(dst: &mut [u8], bytes: &Vec<u8>)
    requires
        bytes.len() <= old(dst).len(),
    ensures
        final(dst)@ == overwrite(old(dst)@, bytes@),
{
    let mut i: usize = 0;
    while i < bytes.len()
        invariant
            i <= bytes.len(),
            bytes.len() <= dst.len(),
            dst@.len() == old(dst)@.len(),
            forall|j: int| 0 <= j < i ==> dst@[j] == bytes@[j],
            forall|j: int| i <= j < dst@.len() ==> dst@[j] == old(dst)@[j],
        decreases bytes.len() - i,
    {
        dst[i] = bytes[i];
        i += 1;
    }
}

} // verus!
