//! Big-endian integers of any width.
//!
//! The wire format stores every number most significant byte first. This
//! module says what number a run of bytes spells, unsigned and in two's
//! complement, and loads such a run into a machine integer whenever the
//! number fits.

use bitvec::field::BitField;
use bitvec::order::Msb0;
use bitvec::view::BitView;
use vstd::prelude::*;
use vstd::slice::slice_subrange;

verus! {

/// 256 to the power `n`: the weight of a byte that has `n` bytes after it.
pub open spec fn pow256(n: nat) -> nat
    decreases n,
{
    if n == 0 {
        1
    } else {
        256 * pow256((n - 1) as nat)
    }
}

/// The unsigned number that `s` spells, most significant byte first. The
/// empty sequence spells zero.
pub open spec fn be_value(s: Seq<u8>) -> nat
    decreases s.len(),
{
    if s.len() == 0 {
        0
    } else {
        be_value(s.drop_last()) * 256 + s.last() as nat
    }
}

/// The number that `s` spells as a two's-complement integer of `8 * s.len()`
/// bits: the unsigned number, less 256^len when the top bit is set.
pub open spec fn be_signed_value(s: Seq<u8>) -> int {
    if s.len() > 0 && s[0] >= 128 {
        be_value(s) - pow256(s.len())
    } else {
        be_value(s) as int
    }
}

/// Whether `first` only repeats the sign that `second` already carries, so
/// that a two's-complement number loses nothing when `first` is dropped.
pub open spec fn is_sign_padding(first: u8, second: u8) -> bool {
    (first == 0 && second < 128) || (first == 255 && second >= 128)
}

/// Every power of 256 is at least 1.
pub proof fn lemma_pow256_positive(n: nat)
    ensures
        pow256(n) >= 1,
    decreases n,
{
    if n > 0 {
        lemma_pow256_positive((n - 1) as nat);
    }
}

/// A larger exponent gives no smaller power.
pub proof fn lemma_pow256_monotone(a: nat, b: nat)
    requires
        a <= b,
    ensures
        pow256(a) <= pow256(b),
    decreases b,
{
    if a < b {
        lemma_pow256_monotone(a, (b - 1) as nat);
        lemma_pow256_positive((b - 1) as nat);
    }
}

/// The powers of 256 at the widths of the machine integers.
pub proof fn lemma_pow256_widths()
    ensures
        pow256(0) == 1,
        pow256(1) == 0x100,
        pow256(2) == 0x1_0000,
        pow256(4) == 0x1_0000_0000,
        pow256(7) == 0x100_0000_0000_0000,
        pow256(8) == 0x1_0000_0000_0000_0000,
{
    reveal_with_fuel(pow256, 9);
}

/// A run of `n` bytes spells a number below 256^n.
pub proof fn lemma_be_value_bound(s: Seq<u8>)
    ensures
        be_value(s) < pow256(s.len()),
    decreases s.len(),
{
    if s.len() > 0 {
        lemma_be_value_bound(s.drop_last());
    }
}

/// The first byte weighs 256^(len - 1); the rest spell the remainder.
pub proof fn lemma_be_value_head(s: Seq<u8>)
    requires
        s.len() > 0,
    ensures
        be_value(s) == s[0] * pow256((s.len() - 1) as nat) + be_value(s.skip(1)),
    decreases s.len(),
{
    let front = s.drop_last();
    let rest = s.skip(1);
    if s.len() == 1 {
        assert(be_value(front) == 0);
        assert(be_value(rest) == 0);
        assert(be_value(s) == s[0]);
        let weight = pow256((s.len() - 1) as nat) as int;
        assert(s[0] * weight == s[0]) by (nonlinear_arith)
            requires
                weight == 1,
        ;
    } else {
        lemma_be_value_head(front);
        assert(front.skip(1) =~= rest.drop_last());
        let head = s[0] as int;
        let weight = pow256((s.len() - 2) as nat) as int;
        let mid = be_value(front.skip(1)) as int;
        let last = s.last() as int;
        assert(be_value(front) == head * weight + mid);
        assert(be_value(rest) == mid * 256 + last);
        assert(pow256((s.len() - 1) as nat) == 256 * weight);
        assert((head * weight + mid) * 256 + last == head * (256 * weight) + (mid * 256 + last))
            by (nonlinear_arith);
    }
}

/// A leading zero byte changes nothing in the unsigned reading.
pub proof fn lemma_be_value_leading_zero(s: Seq<u8>)
    requires
        s.len() > 0,
        s[0] == 0,
    ensures
        be_value(s) == be_value(s.skip(1)),
{
    lemma_be_value_head(s);
    assert(0 * pow256((s.len() - 1) as nat) == 0) by (nonlinear_arith);
}

/// A run that starts with a non-zero byte spells at least 256^(len - 1).
pub proof fn lemma_be_value_lower_bound(s: Seq<u8>)
    requires
        s.len() > 0,
        s[0] != 0,
    ensures
        be_value(s) >= pow256((s.len() - 1) as nat),
{
    lemma_be_value_head(s);
    let head = s[0] as int;
    let weight = pow256((s.len() - 1) as nat) as int;
    assert(head * weight >= weight) by (nonlinear_arith)
        requires
            head >= 1,
            weight >= 0,
    ;
}

/// A two's-complement run of `n` bytes spells a number of `8 * n` bits.
pub proof fn lemma_be_signed_value_range(s: Seq<u8>)
    requires
        s.len() > 0,
    ensures
        -(pow256(s.len()) / 2) <= be_signed_value(s) < pow256(s.len()) / 2,
{
    lemma_be_value_head(s);
    lemma_be_value_bound(s.skip(1));
    let weight = pow256((s.len() - 1) as nat) as int;
    let head = s[0] as int;
    assert(pow256(s.len()) == 256 * weight);
    if head >= 128 {
        assert(128 * weight <= head * weight <= 255 * weight) by (nonlinear_arith)
            requires
                128 <= head <= 255,
                weight >= 0,
        ;
    } else {
        assert(0 <= head * weight <= 127 * weight) by (nonlinear_arith)
            requires
                0 <= head <= 127,
                weight >= 0,
        ;
    }
}

/// Dropping a byte of sign padding keeps the two's-complement reading.
pub proof fn lemma_be_signed_value_padding(s: Seq<u8>)
    requires
        s.len() >= 2,
        is_sign_padding(s[0], s[1]),
    ensures
        be_signed_value(s) == be_signed_value(s.skip(1)),
{
    lemma_be_value_head(s);
    let weight = pow256((s.len() - 1) as nat) as int;
    assert(s.skip(1)[0] == s[1]);
    if s[0] == 0 {
        assert(0 * weight == 0) by (nonlinear_arith);
    } else {
        assert(255 * weight - 256 * weight == -weight) by (nonlinear_arith);
    }
}

/// A two's-complement run of nine bytes or more without sign padding at its
/// front spells a number outside the range of `i64`.
pub proof fn lemma_be_signed_value_wide(s: Seq<u8>)
    requires
        s.len() >= 9,
        !is_sign_padding(s[0], s[1]),
    ensures
        be_signed_value(s) < i64::MIN || be_signed_value(s) > i64::MAX,
{
    let n = s.len();
    let rest = s.skip(1);
    lemma_be_value_head(s);
    lemma_be_value_head(rest);
    lemma_be_value_bound(rest);
    lemma_be_value_bound(rest.skip(1));
    lemma_pow256_monotone(7, (n - 2) as nat);
    lemma_pow256_widths();
    let head = s[0] as int;
    let next = s[1] as int;
    let low = pow256((n - 2) as nat) as int;
    let tail = be_value(rest.skip(1)) as int;
    assert(rest[0] == s[1]);
    assert(pow256((n - 1) as nat) == 256 * low);
    assert(pow256(n) == 256 * (256 * low));
    assert(be_value(s) == head * (256 * low) + (next * low + tail));
    if head < 128 {
        // Not negative, and at least 128 * low, which is 2^63 or more.
        assert(head * (256 * low) + next * low >= 128 * low) by (nonlinear_arith)
            requires
                low >= 0,
                0 <= head,
                0 <= next,
                head >= 1 || next >= 128,
        ;
    } else {
        // Negative, and below -128 * low, which is -2^63 or less.
        assert(head * (256 * low) + next * low + low - 256 * (256 * low) <= -128 * low)
            by (nonlinear_arith)
            requires
                low >= 0,
                head <= 255,
                next <= 255,
                head <= 254 || next <= 127,
        ;
    }
}

/// `load_be` of bitvec's `BitField`, on the bits of `bytes` in `Msb0` order,
/// into a `u64`. For one to eight whole bytes it returns the unsigned number
/// that they spell, most significant byte first. An empty run or one of more
/// than 64 bits makes it panic, so neither is admitted.
#[verifier::external_body]
pub(crate) fn load_be_u64(bytes: &[u8]) -> (value: u64)
    requires
        1 <= bytes@.len() <= 8,
    ensures
        value == be_value(bytes@),
{
    bytes.view_bits::<Msb0>().load_be::<u64>()
}

/// `load_be` of bitvec's `BitField`, on the bits of `bytes` in `Msb0` order,
/// into an `i64`. For one to eight whole bytes it returns the number that
/// they spell, most significant byte first, with the top loaded bit extended
/// as the sign. An empty run or one of more than 64 bits makes it panic, so
/// neither is admitted.
#[verifier::external_body]
pub(crate) fn load_be_i64(bytes: &[u8]) -> (value: i64)
    requires
        1 <= bytes@.len() <= 8,
    ensures
        value == be_signed_value(bytes@),
{
    bytes.view_bits::<Msb0>().load_be::<i64>()
}

/// Loads the unsigned big-endian number that `bytes` spells, whatever their
/// count; `None` when it does not fit in 64 bits.
pub fn load_unsigned(bytes: &[u8]) -> (loaded: Option<u64>)
    ensures
        loaded == if be_value(bytes@) <= u64::MAX {
            Some(be_value(bytes@) as u64)
        } else {
            None
        },
{
    let n: usize = bytes.len();
    let mut start: usize = 0;
    assert(bytes@.skip(0) =~= bytes@);
    while start < n && bytes[start] == 0
        invariant
            start <= n,
            n == bytes@.len(),
            be_value(bytes@.skip(start as int)) == be_value(bytes@),
        decreases n - start,
    {
        proof {
            lemma_be_value_leading_zero(bytes@.skip(start as int));
            assert(bytes@.skip(start as int).skip(1) =~= bytes@.skip(start + 1));
        }
        start += 1;
    }
    if start == n {
        assert(bytes@.skip(start as int).len() == 0);
        return Some(0);
    }
    if n - start > 8 {
        proof {
            let kept = bytes@.skip(start as int);
            lemma_be_value_lower_bound(kept);
            lemma_pow256_monotone(8, (kept.len() - 1) as nat);
            lemma_pow256_widths();
        }
        return None;
    }
    let kept = slice_subrange(bytes, start, n);
    assert(kept@ =~= bytes@.skip(start as int));
    Some(load_be_u64(kept))
}

/// Loads the two's-complement big-endian number that `bytes` spells,
/// whatever their count; `None` when it does not fit in 64 bits.
pub fn load_signed(bytes: &[u8]) -> (loaded: Option<i64>)
    ensures
        loaded == if i64::MIN <= be_signed_value(bytes@) <= i64::MAX {
            Some(be_signed_value(bytes@) as i64)
        } else {
            None
        },
{
    let n: usize = bytes.len();
    if n == 0 {
        return Some(0);
    }
    let mut start: usize = 0;
    assert(bytes@.skip(0) =~= bytes@);
    while n - start > 1 && ((bytes[start] == 0 && bytes[start + 1] < 128) || (bytes[start] == 255
        && bytes[start + 1] >= 128))
        invariant
            start < n,
            n == bytes@.len(),
            be_signed_value(bytes@.skip(start as int)) == be_signed_value(bytes@),
        decreases n - start,
    {
        proof {
            let kept = bytes@.skip(start as int);
            assert(kept[0] == bytes@[start as int]);
            assert(kept[1] == bytes@[start + 1]);
            lemma_be_signed_value_padding(kept);
            assert(kept.skip(1) =~= bytes@.skip(start + 1));
        }
        start += 1;
    }
    if n - start > 8 {
        proof {
            let kept = bytes@.skip(start as int);
            assert(kept[0] == bytes@[start as int]);
            assert(kept[1] == bytes@[start + 1]);
            lemma_be_signed_value_wide(kept);
        }
        return None;
    }
    let kept = slice_subrange(bytes, start, n);
    assert(kept@ =~= bytes@.skip(start as int));
    Some(load_be_i64(kept))
}

} // verus!
