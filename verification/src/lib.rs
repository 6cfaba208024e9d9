//! Decoder for the MISB ST 0601 UAS Datalink Local Set.
//!
//! A packet is the 16-byte universal key, a BER length, and a run of
//! tag / length / value triples that ends with a checksum. The decoder turns
//! a buffer that holds such a packet into a list of typed fields, or says why
//! it cannot.

use crate::klv_value::KlvValueType;
use vstd::prelude::*;

pub mod ber;
pub mod big_endian;
pub mod checksum;
pub mod cursor;
pub mod format;
pub mod klv;
pub mod klv_packet;
pub mod klv_value;
pub mod search;
pub mod tag;

verus! {

/// Why a decode attempt failed.
#[derive(Debug, Clone, Copy, PartialEq, Eq, Structural)]
pub enum Errors {
    /// The universal key is not where the search looked for it.
    NoKLVPacket,
    /// A number does not fit the integer that has to hold it, or a value of
    /// fixed width came with another count of bytes.
    ValueOutOfBounds,
    /// The tag number names no element that can be decoded.
    UnsupportedTag(usize),
    /// The packet carries no checksum, or not the one its bytes add up to.
    InvalidChecksum,
    /// The buffer ends before the bytes that a field announces.
    OutOfData,
    /// Bytes declared as text are not UTF-8.
    InvalidUtf8,
    /// The value has an encoding whose decoding is deferred, and the caller
    /// asked for that to be an error.
    Unimplemented(KlvValueType),
}

} // verus!
