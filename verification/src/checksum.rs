//! The block check character that closes a packet.
//!
//! It is a running 16-bit sum over the bytes of the packet. Bytes at even
//! offsets (the first, the third, ...) count 256 times, the others once, and
//! the sum wraps at 16 bits.

use vstd::prelude::*;

verus! {

/// What a byte at offset `index` is multiplied by before it is added.
pub open spec fn byte_weight(index: int) -> int {
    if index % 2 == 0 {
        256
    } else {
        1
    }
}

/// The weighted sum of `bytes`, without wrapping.
pub open spec fn weighted_sum(bytes: Seq<u8>) -> int
    decreases bytes.len(),
{
    if bytes.len() == 0 {
        0
    } else {
        weighted_sum(bytes.drop_last()) + byte_weight(bytes.len() - 1) * bytes.last()
    }
}

/// The block check character of `bytes`: their weighted sum, wrapped at 16
/// bits.
pub open spec fn block_check(bytes: Seq<u8>) -> u16 {
    (weighted_sum(bytes) % 0x1_0000) as u16
}

/// The checksum of a whole packet, whose last two bytes hold the checksum
/// itself and are left out of the sum.
pub open spec fn packet_checksum(packet: Seq<u8>) -> u16 {
    block_check(packet.take(packet.len() - 2))
}

/// Replacing one byte moves the weighted sum by the weight of its offset
/// times the change.
pub proof fn lemma_weighted_sum_update(bytes: Seq<u8>, index: int, byte: u8)
    requires
        0 <= index < bytes.len(),
    ensures
        weighted_sum(bytes.update(index, byte)) == weighted_sum(bytes) + byte_weight(index) * (byte
            - bytes[index]),
    decreases bytes.len(),
{
    let changed = bytes.update(index, byte);
    if index == bytes.len() - 1 {
        assert(changed.drop_last() =~= bytes.drop_last());
    } else {
        lemma_weighted_sum_update(bytes.drop_last(), index, byte);
        assert(changed.drop_last() =~= bytes.drop_last().update(index, byte));
    }
}

/// Equal bytes have equal checksums, and the checksum tells any two buffers
/// apart that differ in exactly one byte.
pub proof fn lemma_block_check_detects_byte_change(bytes: Seq<u8>, index: int, byte: u8)
    requires
        0 <= index < bytes.len(),
        byte != bytes[index],
    ensures
        block_check(bytes.update(index, byte)) != block_check(bytes),
{
    lemma_weighted_sum_update(bytes, index, byte);
    let before = weighted_sum(bytes);
    let after = weighted_sum(bytes.update(index, byte));
    let change = byte_weight(index) * (byte - bytes[index]);
    assert(after == before + change);
    assert(-0x1_0000 < change < 0x1_0000 && change != 0);
    assert(before % 0x1_0000 != after % 0x1_0000);
}

/// The checksum is a function of the bytes alone: the same bytes always give
/// the same value.
pub proof fn lemma_block_check_deterministic(first: Seq<u8>, second: Seq<u8>)
    requires
        first =~= second,
    ensures
        block_check(first) == block_check(second),
{
}

/// Appending a byte adds its weighted value, wrapping at 16 bits.
pub proof fn lemma_block_check_push(bytes: Seq<u8>, byte: u8)
    ensures
        block_check(bytes.push(byte)) as int == (block_check(bytes) + byte_weight(
            bytes.len() as int,
        ) * byte) % 0x1_0000,
{
    assert(bytes.push(byte).drop_last() =~= bytes);
}

} // verus!
