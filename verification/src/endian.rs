//! Big-endian integers: what a run of bytes spells, and how to read it.

use vstd::prelude::*;
use byteorder::{BigEndian, ByteOrder};

verus! {

/// 256 to the power `n`: one more than the largest number that `n` bytes spell.
pub open spec fn pow256(n: nat) -> nat
    decreases n,
{
    if n == 0 {
        1
    } else {
        256 * pow256((n - 1) as nat)
    }
}

/// The number that `bytes` spell, most significant byte first.
pub open spec fn be_uint(bytes: Seq<u8>) -> nat
    decreases bytes.len(),
{
    if bytes.len() == 0 {
        0
    } else {
        be_uint(bytes.drop_last()) * 256 + bytes.last() as nat
    }
}

/// The `width` bytes that spell the low `width` bytes of `value`, most
/// significant byte first.
pub open spec fn be_bytes(value: nat, width: nat) -> Seq<u8>
    decreases width,
{
    if width == 0 {
        Seq::empty()
    } else {
        be_bytes(value / 256, (width - 1) as nat).push((value % 256) as u8)
    }
}

/// The limits of the three widths that the protocol uses.
pub proof fn lemma_pow256_values()
    ensures
        pow256(2) == 0x1_0000,
        pow256(4) == 0x1_0000_0000,
        pow256(16) == 0x1_0000_0000_0000_0000_0000_0000_0000_0000,
{
    reveal_with_fuel(pow256, 17);
}

/// `be_bytes` gives as many bytes as it is asked for.
pub proof fn lemma_be_bytes_len(value: nat, width: nat)
    ensures
        be_bytes(value, width).len() == width,
    decreases width,
{
    if width > 0 {
        lemma_be_bytes_len(value / 256, (width - 1) as nat);
    }
}

/// What `n` bytes spell is below 256 to the power `n`.
pub proof fn lemma_be_uint_bound(bytes: Seq<u8>)
    ensures
        be_uint(bytes) < pow256(bytes.len()),
    decreases bytes.len(),
{
    if bytes.len() > 0 {
        lemma_be_uint_bound(bytes.drop_last());
    }
}

/// Reading the bytes of a number that fits the width gives the number back.
pub proof fn lemma_be_uint_of_be_bytes(value: nat, width: nat)
    requires
        value < pow256(width),
    ensures
        be_uint(be_bytes(value, width)) == value,
    decreases width,
{
    if width > 0 {
        let rest = be_bytes(value / 256, (width - 1) as nat);
        lemma_be_uint_of_be_bytes(value / 256, (width - 1) as nat);
        assert(rest.push((value % 256) as u8).drop_last() =~= rest);
    }
}

/// Writing the number that the bytes spell, in as many bytes, gives the bytes
/// back.
pub proof fn lemma_be_bytes_of_be_uint(bytes: Seq<u8>)
    ensures
        be_bytes(be_uint(bytes), bytes.len()) == bytes,
    decreases bytes.len(),
{
    if bytes.len() > 0 {
        lemma_be_bytes_of_be_uint(bytes.drop_last());
        assert(bytes.drop_last().push(bytes.last()) =~= bytes);
    }
}

/// Two bytes spell the first times 256 plus the second.
pub proof fn lemma_be_uint_2(bytes: Seq<u8>)
    requires
        bytes.len() == 2,
    ensures
        be_uint(bytes) == bytes[0] as nat * 256 + bytes[1] as nat,
{
    reveal_with_fuel(be_uint, 3);
    assert(bytes.drop_last().drop_last().len() == 0);
}

/// `byteorder::BigEndian::read_u16`: the 16-bit number that the first two
/// bytes of `buf` spell, most significant byte first. The call panics on a
/// shorter buffer, which `requires` leaves out.
#[verifier::external_body]
pub(crate) fn read_u16be(buf: &[u8]) -> (value: u16)
    requires
        buf@.len() >= 2,
    ensures
        value as nat == be_uint(buf@.subrange(0, 2)),
{
    BigEndian::read_u16(buf)
}

/// `byteorder::BigEndian::read_u32`: the 32-bit number that the first four
/// bytes of `buf` spell, most significant byte first. The call panics on a
/// shorter buffer, which `requires` leaves out.
#[verifier::external_body]
pub(crate) fn read_u32be(buf: &[u8]) -> (value: u32)
    requires
        buf@.len() >= 4,
    ensures
        value as nat == be_uint(buf@.subrange(0, 4)),
{
    BigEndian::read_u32(buf)
}

/// `byteorder::BigEndian::read_u128`: the 128-bit number that the first
/// sixteen bytes of `buf` spell, most significant byte first. The call panics
/// on a shorter buffer, which `requires` leaves out.
#[verifier::external_body]
pub(crate) fn read_u128be(buf: &[u8]) -> (value: u128)
    requires
        buf@.len() >= 16,
    ensures
        value as nat == be_uint(buf@.subrange(0, 16)),
{
    BigEndian::read_u128(buf)
}

} // verus!
