//! The borsh primitives that the record codecs are built from.
//!
//! Every function here is a thin call into borsh whose contract is taken on
//! trust from borsh's source; nothing in this file is proved.

use anchor_lang::prelude::borsh::{BorshDeserialize, BorshSerialize};
use anchor_lang::prelude::Pubkey;
use vstd::prelude::*;
use crate::wire::{i32_field, i32_wire, i64_field, i64_wire, u64_field, u64_wire};

verus! {

/// borsh's `BorshSerialize::serialize` for `u8`, writing into a `Vec<u8>`.
/// Trusted: the byte is appended as it is. A `Vec` accepts every write, so
/// the call cannot fail.
#[verifier::external_body]
pub(crate) fn write_u8(value: u8, out: &mut Vec<u8>)
    ensures
        final(out)@ == old(out)@.push(value),
{
    let _ = BorshSerialize::serialize(&value, out);
}

/// borsh's `BorshSerialize::serialize` for `i32`, writing into a `Vec<u8>`.
/// Trusted: the four bytes of `i32::to_le_bytes` are appended.
#[verifier::external_body]
pub(crate) fn write_i32(value: i32, out: &mut Vec<u8>)
    ensures
        final(out)@ == old(out)@ + i32_wire(value),
{
    let _ = BorshSerialize::serialize(&value, out);
}

/// borsh's `BorshSerialize::serialize` for `i64`, writing into a `Vec<u8>`.
/// Trusted: the eight bytes of `i64::to_le_bytes` are appended.
#[verifier::external_body]
pub(crate) fn write_i64(value: i64, out: &mut Vec<u8>)
    ensures
        final(out)@ == old(out)@ + i64_wire(value),
{
    let _ = BorshSerialize::serialize(&value, out);
}

/// borsh's `BorshSerialize::serialize` for `u64`, writing into a `Vec<u8>`.
/// Trusted: the eight bytes of `u64::to_le_bytes` are appended.
#[verifier::external_body]
pub(crate) fn write_u64(value: u64, out: &mut Vec<u8>)
    ensures
        final(out)@ == old(out)@ + u64_wire(value),
{
    let _ = BorshSerialize::serialize(&value, out);
}

/// borsh's `BorshSerialize::serialize` for `Pubkey`, writing into a `Vec<u8>`;
/// the key is made from its bytes with `Pubkey::new_from_array`.
/// Trusted: the thirty-two bytes of the key are appended in order.
#[verifier::external_body]
pub(crate) fn write_pubkey(key: &[u8; 32], out: &mut Vec<u8>)
    ensures
        final(out)@ == old(out)@ + key@,
{
    let _ = BorshSerialize::serialize(&Pubkey::new_from_array(*key), out);
}

/// borsh's `BorshDeserialize::deserialize` for `u8`.
/// Trusted: with a byte at hand it is returned and the cursor moves past it;
/// on an empty cursor the call fails, and nothing is said of the cursor.
#[verifier::external_body]
pub(crate) fn read_u8(buf: &mut &[u8]) -> (r: Option<u8>)
    ensures
        old(buf)@.len() >= 1 ==> r == Some(old(buf)@[0]) && final(buf)@ == old(buf)@.skip(1),
        old(buf)@.len() < 1 ==> r is None,
{
    <u8 as BorshDeserialize>::deserialize(buf).ok()
}

/// borsh's `BorshDeserialize::deserialize` for `i32`.
/// Trusted: with four bytes at hand they are read with `i32::from_le_bytes`
/// and the cursor moves past them; with fewer the call fails, and nothing is
/// said of the cursor.
#[verifier::external_body]
pub(crate) fn read_i32(buf: &mut &[u8]) -> (r: Option<i32>)
    ensures
        old(buf)@.len() >= 4 ==> r == Some(i32_field(old(buf)@.take(4))) && final(buf)@ == old(buf)@.skip(4),
        old(buf)@.len() < 4 ==> r is None,
{
    <i32 as BorshDeserialize>::deserialize(buf).ok()
}

/// borsh's `BorshDeserialize::deserialize` for `i64`.
/// Trusted: with eight bytes at hand they are read with `i64::from_le_bytes`
/// and the cursor moves past them; with fewer the call fails, and nothing is
/// said of the cursor.
#[verifier::external_body]
pub(crate) fn read_i64(buf: &mut &[u8]) -> (r: Option<i64>)
    ensures
        old(buf)@.len() >= 8 ==> r == Some(i64_field(old(buf)@.take(8))) && final(buf)@ == old(buf)@.skip(8),
        old(buf)@.len() < 8 ==> r is None,
{
    <i64 as BorshDeserialize>::deserialize(buf).ok()
}

/// borsh's `BorshDeserialize::deserialize` for `u64`.
/// Trusted: with eight bytes at hand they are read with `u64::from_le_bytes`
/// and the cursor moves past them; with fewer the call fails, and nothing is
/// said of the cursor.
#[verifier::external_body]
pub(crate) fn read_u64(buf: &mut &[u8]) -> (r: Option<u64>)
    ensures
        old(buf)@.len() >= 8 ==> r == Some(u64_field(old(buf)@.take(8))) && final(buf)@ == old(buf)@.skip(8),
        old(buf)@.len() < 8 ==> r is None,
{
    <u64 as BorshDeserialize>::deserialize(buf).ok()
}

/// borsh's `BorshDeserialize::deserialize` for `Pubkey`; the key is handed
/// back as its bytes, from `Pubkey::to_bytes`.
/// Trusted: with thirty-two bytes at hand they become the key and the cursor
/// moves past them; with fewer the call fails, and nothing is said of the
/// cursor.
#[verifier::external_body]
pub(crate) fn read_pubkey(buf: &mut &[u8]) -> (r: Option<[u8; 32]>)
    ensures
        old(buf)@.len() >= 32 ==> r is Some && r->Some_0@ == old(buf)@.take(32) && final(buf)@
            == old(buf)@.skip(32),
        old(buf)@.len() < 32 ==> r is None,
{
    match <Pubkey as BorshDeserialize>::deserialize(buf) {
        Ok(key) => Some(key.to_bytes()),
        Err(_) => None,
    }
}

} // verus!
