//! Fixed-width little-endian integers as sequences of bytes.

use vstd::prelude::*;

verus! {

/// The number of values that `width` bytes can tell apart: 256 to the power `width`.
pub open spec fn radix_pow(width: nat) -> nat
    decreases width,
{
    if width == 0 {
        1
    } else {
        256 * radix_pow((width - 1) as nat)
    }
}

/// The `width` low-order base-256 digits of `value`, least significant first.
pub open spec fn le_bytes(value: nat, width: nat) -> Seq<u8>
    decreases width,
{
    if width == 0 {
        Seq::empty()
    } else {
        seq![(value % 256) as u8] + le_bytes(value / 256, (width - 1) as nat)
    }
}

/// The number whose base-256 digits, least significant first, are `bytes`.
pub open spec fn le_value(bytes: Seq<u8>) -> nat
    decreases bytes.len(),
{
    if bytes.len() == 0 {
        0
    } else {
        bytes[0] as nat + 256 * le_value(bytes.drop_first())
    }
}

/// The two's-complement representative of `value` in `width` bytes.
pub open spec fn to_unsigned(value: int, width: nat) -> nat {
    if value < 0 {
        (value + radix_pow(width)) as nat
    } else {
        value as nat
    }
}

/// The signed number that `raw` stands for in `width`-byte two's complement.
pub open spec fn to_signed(raw: nat, width: nat) -> int {
    if 2 * raw >= radix_pow(width) {
        raw - radix_pow(width)
    } else {
        raw as int
    }
}

/// Wire form of an unsigned 64-bit field: eight bytes, least significant first.
pub open spec fn u64_wire(value: u64) -> Seq<u8> {
    le_bytes(value as nat, 8)
}

/// Wire form of a signed 64-bit field: eight bytes of two's complement, least significant first.
pub open spec fn i64_wire(value: i64) -> Seq<u8> {
    le_bytes(to_unsigned(value as int, 8), 8)
}

/// Wire form of a signed 32-bit field: four bytes of two's complement, least significant first.
pub open spec fn i32_wire(value: i32) -> Seq<u8> {
    le_bytes(to_unsigned(value as int, 4), 4)
}

/// The unsigned 64-bit field held in eight wire bytes.
pub open spec fn u64_field(bytes: Seq<u8>) -> u64 {
    le_value(bytes) as u64
}

/// The signed 64-bit field held in eight wire bytes.
pub open spec fn i64_field(bytes: Seq<u8>) -> i64 {
    to_signed(le_value(bytes), 8) as i64
}

/// The signed 32-bit field held in four wire bytes.
pub open spec fn i32_field(bytes: Seq<u8>) -> i32 {
    to_signed(le_value(bytes), 4) as i32
}

/// Four bytes tell apart 2^32 values, eight bytes 2^64.
pub proof fn lemma_radix_pow_widths()
    ensures
        radix_pow(4) == 0x1_0000_0000,
        radix_pow(8) == 0x1_0000_0000_0000_0000,
{
    reveal_with_fuel(radix_pow, 9);
}

/// `le_bytes` yields exactly `width` bytes.
pub proof fn lemma_le_bytes_len(value: nat, width: nat)
    ensures
        le_bytes(value, width).len() == width,
    decreases width,
{
    if width > 0 {
        lemma_le_bytes_len(value / 256, (width - 1) as nat);
    }
}

/// Reading back the digits of a number that fits in `width` bytes gives the number.
pub proof fn lemma_le_value_of_le_bytes(value: nat, width: nat)
    requires
        value < radix_pow(width),
    ensures
        le_value(le_bytes(value, width)) == value,
    decreases width,
{
    if width > 0 {
        let rest: nat = value / 256;
        let below: nat = (width - 1) as nat;
        lemma_le_bytes_len(rest, below);
        lemma_le_value_of_le_bytes(rest, below);
        assert(le_bytes(value, width).drop_first() =~= le_bytes(rest, below));
    }
}

/// An unsigned 64-bit field survives the wire.
pub proof fn lemma_u64_round_trip(value: u64)
    ensures
        u64_wire(value).len() == 8,
        u64_field(u64_wire(value)) == value,
{
    lemma_radix_pow_widths();
    lemma_le_bytes_len(value as nat, 8);
    lemma_le_value_of_le_bytes(value as nat, 8);
}

/// A signed 64-bit field survives the wire.
pub proof fn lemma_i64_round_trip(value: i64)
    ensures
        i64_wire(value).len() == 8,
        i64_field(i64_wire(value)) == value,
{
    lemma_radix_pow_widths();
    let raw = to_unsigned(value as int, 8);
    lemma_le_bytes_len(raw, 8);
    lemma_le_value_of_le_bytes(raw, 8);
}

/// A signed 32-bit field survives the wire.
pub proof fn lemma_i32_round_trip(value: i32)
    ensures
        i32_wire(value).len() == 4,
        i32_field(i32_wire(value)) == value,
{
    lemma_radix_pow_widths();
    let raw = to_unsigned(value as int, 4);
    lemma_le_bytes_len(raw, 4);
    lemma_le_value_of_le_bytes(raw, 4);
}

} // verus!
