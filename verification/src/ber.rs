//! BER integers: the variable-length numbers that carry tag numbers and
//! lengths.
//!
//! A first byte below 128 is the number itself (short form). A first byte of
//! 128 + n announces n further bytes that spell the number, most significant
//! byte first (long form).

use crate::big_endian::be_value;
use crate::Errors;
use vstd::prelude::*;

verus! {

/// A number read from a buffer, and the offset of the byte after it.
pub struct BerRead {
    pub value: usize,
    pub next: int,
}

/// The BER integer that starts at offset `at` of `bytes`.
///
/// There is none where the buffer ends before the first byte or before the
/// last of the announced bytes (`OutOfData`), nor where the number is too
/// large for a `usize` (`ValueOutOfBounds`).
pub open spec fn ber_decode(bytes: Seq<u8>, at: int) -> Result<BerRead, Errors> {
    if at < 0 || at >= bytes.len() {
        Err(Errors::OutOfData)
    } else if bytes[at] < 128 {
        Ok(BerRead { value: bytes[at] as usize, next: at + 1 })
    } else {
        let count = bytes[at] - 128;
        if at + 1 + count > bytes.len() {
            Err(Errors::OutOfData)
        } else {
            let value = be_value(bytes.subrange(at + 1, at + 1 + count));
            if value > usize::MAX {
                Err(Errors::ValueOutOfBounds)
            } else {
                Ok(BerRead { value: value as usize, next: at + 1 + count })
            }
        }
    }
}

/// A read consumes at least one byte and never goes past the end.
pub proof fn lemma_ber_decode_advances(bytes: Seq<u8>, at: int)
    ensures
        ber_decode(bytes, at) matches Ok(read) ==> at < read.next <= bytes.len() && 0 <= at,
{
}

/// Short form: a byte below 128 decodes to itself and is the only byte read.
pub proof fn lemma_ber_short_form(before: Seq<u8>, value: u8, after: Seq<u8>)
    requires
        value < 128,
    ensures
        ber_decode(before + seq![value] + after, before.len() as int) == Ok::<BerRead, Errors>(
            BerRead { value: value as usize, next: before.len() as int + 1 },
        ),
{
}

/// Long form: a byte of 128 + n followed by n bytes that spell a number
/// decodes to that number, and all n + 1 bytes are read.
pub proof fn lemma_ber_long_form(before: Seq<u8>, digits: Seq<u8>, after: Seq<u8>)
    requires
        digits.len() <= 127,
        be_value(digits) <= usize::MAX,
    ensures
        ber_decode(
            before + seq![(128 + digits.len()) as u8] + digits + after,
            before.len() as int,
        ) == Ok::<BerRead, Errors>(
            BerRead { value: be_value(digits) as usize, next: before.len() as int + 1 + digits.len() },
        ),
{
    let bytes = before + seq![(128 + digits.len()) as u8] + digits + after;
    let at = before.len() as int;
    assert(bytes[at] == (128 + digits.len()) as u8);
    assert(bytes.subrange(at + 1, at + 1 + digits.len()) =~= digits);
}

/// A long form cut short, or no byte at all, is out of data.
pub proof fn lemma_ber_truncated(bytes: Seq<u8>, at: int)
    requires
        0 <= at,
        at >= bytes.len() || (bytes[at] >= 128 && at + 1 + (bytes[at] - 128) > bytes.len()),
    ensures
        ber_decode(bytes, at) == Err::<BerRead, Errors>(Errors::OutOfData),
{
}

} // verus!
