//! Typed values and the decoder that reads them from raw bytes.

use crate::big_endian::{
    be_signed_value, be_value, lemma_be_signed_value_range, lemma_be_value_bound,
    lemma_pow256_widths, load_be_i64, load_be_u64, load_signed, load_unsigned,
};
use crate::tag::Tag;
use crate::Errors;
use vstd::prelude::*;
use vstd::string::StringSliceAdditionalSpecFns;
use vstd::utf8::{decode_utf8, encode_utf8_decode_utf8, valid_utf8};

verus! {

/// How the bytes of a value are to be read. Every tag declares one.
#[derive(Clone, Copy, Debug, PartialEq, Eq, Structural)]
pub enum KlvValueType {
    /// The tag is unknown.
    Unknown,
    /// The tag has been deprecated.
    Deprecated,
    /// The marker that stands in for a value whose encoding is not decoded.
    Unimplemented,
    /// Two's-complement integer of any width.
    Int,
    /// 8-bit two's-complement integer.
    Int8,
    /// 16-bit two's-complement integer.
    Int16,
    /// 32-bit two's-complement integer.
    Int32,
    /// Unsigned integer of any width.
    Uint,
    /// 8-bit unsigned integer.
    Uint8,
    /// 16-bit unsigned integer.
    Uint16,
    /// 32-bit unsigned integer.
    Uint32,
    /// 64-bit unsigned integer.
    Uint64,
    /// Floating-point number mapped onto an integer range (IMAPB).
    IMAPB,
    /// One or more bytes of bit flags.
    Byte,
    /// Defined-length pack.
    DLP,
    /// Variable-length pack.
    VLP,
    /// Floating-length pack.
    FLP,
    /// Nested local set.
    LocalSet,
    /// UTF-8 text.
    Utf8,
}


/// What to do with a value whose encoding is not decoded (nested sets, the
/// three packs, IMAPB numbers and raw bytes).
#[derive(Clone, Copy, Debug, PartialEq, Eq, Structural)]
pub enum Tolerance {
    /// Fail, so that the caller learns of the deferred encoding.
    Strict,
    /// Put the `Unimplemented` marker in place of the value and go on.
    Tolerant,
}

/// A decoded value. The encodings that are not decoded carry no payload.
#[derive(Debug, PartialEq, Eq)]
pub enum KlvValue {
    Unknown,
    Deprecated,
    /// Stands in for a value whose encoding is not decoded.
    Unimplemented,
    Int(i64),
    Int8(i8),
    Int16(i16),
    Int32(i32),
    Uint(u64),
    Uint8(u8),
    Uint16(u16),
    Uint32(u32),
    Uint64(u64),
    IMAPB,
    Byte,
    DLP,
    VLP,
    FLP,
    LocalSet,
    Utf8(String),
}

/// The mathematical reading of a [`KlvValue`]: the same variants, with text
/// as a sequence of characters.
pub enum KlvValueView {
    Unknown,
    Deprecated,
    Unimplemented,
    Int(i64),
    Int8(i8),
    Int16(i16),
    Int32(i32),
    Uint(u64),
    Uint8(u8),
    Uint16(u16),
    Uint32(u32),
    Uint64(u64),
    IMAPB,
    Byte,
    DLP,
    VLP,
    FLP,
    LocalSet,
    Utf8(Seq<char>),
}

impl KlvValueView {
    /// The encoding whose name the variant bears.
    pub open spec fn value_type(self) -> KlvValueType {
        match self {
            KlvValueView::Unknown => KlvValueType::Unknown,
            KlvValueView::Deprecated => KlvValueType::Deprecated,
            KlvValueView::Unimplemented => KlvValueType::Unimplemented,
            KlvValueView::Int(_) => KlvValueType::Int,
            KlvValueView::Int8(_) => KlvValueType::Int8,
            KlvValueView::Int16(_) => KlvValueType::Int16,
            KlvValueView::Int32(_) => KlvValueType::Int32,
            KlvValueView::Uint(_) => KlvValueType::Uint,
            KlvValueView::Uint8(_) => KlvValueType::Uint8,
            KlvValueView::Uint16(_) => KlvValueType::Uint16,
            KlvValueView::Uint32(_) => KlvValueType::Uint32,
            KlvValueView::Uint64(_) => KlvValueType::Uint64,
            KlvValueView::IMAPB => KlvValueType::IMAPB,
            KlvValueView::Byte => KlvValueType::Byte,
            KlvValueView::DLP => KlvValueType::DLP,
            KlvValueView::VLP => KlvValueType::VLP,
            KlvValueView::FLP => KlvValueType::FLP,
            KlvValueView::LocalSet => KlvValueType::LocalSet,
            KlvValueView::Utf8(_) => KlvValueType::Utf8,
        }
    }
}

impl View for KlvValue {
    type V = KlvValueView;

    open spec fn view(&self) -> KlvValueView {
        match self {
            KlvValue::Unknown => KlvValueView::Unknown,
            KlvValue::Deprecated => KlvValueView::Deprecated,
            KlvValue::Unimplemented => KlvValueView::Unimplemented,
            KlvValue::Int(v) => KlvValueView::Int(*v),
            KlvValue::Int8(v) => KlvValueView::Int8(*v),
            KlvValue::Int16(v) => KlvValueView::Int16(*v),
            KlvValue::Int32(v) => KlvValueView::Int32(*v),
            KlvValue::Uint(v) => KlvValueView::Uint(*v),
            KlvValue::Uint8(v) => KlvValueView::Uint8(*v),
            KlvValue::Uint16(v) => KlvValueView::Uint16(*v),
            KlvValue::Uint32(v) => KlvValueView::Uint32(*v),
            KlvValue::Uint64(v) => KlvValueView::Uint64(*v),
            KlvValue::IMAPB => KlvValueView::IMAPB,
            KlvValue::Byte => KlvValueView::Byte,
            KlvValue::DLP => KlvValueView::DLP,
            KlvValue::VLP => KlvValueView::VLP,
            KlvValue::FLP => KlvValueView::FLP,
            KlvValue::LocalSet => KlvValueView::LocalSet,
            KlvValue::Utf8(text) => KlvValueView::Utf8(text@),
        }
    }
}

impl Clone for KlvValue {
    fn clone(&self) -> (copy: Self)
        ensures
            copy == *self,
    {
        match self {
            KlvValue::Unknown => KlvValue::Unknown,
            KlvValue::Deprecated => KlvValue::Deprecated,
            KlvValue::Unimplemented => KlvValue::Unimplemented,
            KlvValue::Int(v) => KlvValue::Int(*v),
            KlvValue::Int8(v) => KlvValue::Int8(*v),
            KlvValue::Int16(v) => KlvValue::Int16(*v),
            KlvValue::Int32(v) => KlvValue::Int32(*v),
            KlvValue::Uint(v) => KlvValue::Uint(*v),
            KlvValue::Uint8(v) => KlvValue::Uint8(*v),
            KlvValue::Uint16(v) => KlvValue::Uint16(*v),
            KlvValue::Uint32(v) => KlvValue::Uint32(*v),
            KlvValue::Uint64(v) => KlvValue::Uint64(*v),
            KlvValue::IMAPB => KlvValue::IMAPB,
            KlvValue::Byte => KlvValue::Byte,
            KlvValue::DLP => KlvValue::DLP,
            KlvValue::VLP => KlvValue::VLP,
            KlvValue::FLP => KlvValue::FLP,
            KlvValue::LocalSet => KlvValue::LocalSet,
            KlvValue::Utf8(text) => KlvValue::Utf8(text.clone()),
        }
    }
}

/// Whether values of this encoding are left undecoded.
pub open spec fn is_deferred(value_type: KlvValueType) -> bool {
    value_type is IMAPB || value_type is Byte || value_type is DLP || value_type is VLP
        || value_type is FLP || value_type is LocalSet
}

/// The outcome of a decode, read mathematically.
pub open spec fn result_view(result: Result<KlvValue, Errors>) -> Result<KlvValueView, Errors> {
    match result {
        Ok(value) => Ok(value@),
        Err(error) => Err(error),
    }
}

/// What the raw `bytes` of a field of `tag` decode to.
///
/// Integers are big-endian. One of fixed width takes exactly its width in
/// bytes. One of variable width takes any count of bytes and must fit 64
/// bits. Text must be UTF-8. A deferred encoding gives the marker or an
/// error, as `tolerance` says. A tag without an encoding is refused.
pub open spec fn decode_value(tag: Tag, bytes: Seq<u8>, tolerance: Tolerance) -> Result<
    KlvValueView,
    Errors,
> {
    match tag.spec_tag_type() {
        KlvValueType::Int => if i64::MIN <= be_signed_value(bytes) <= i64::MAX {
            Ok(KlvValueView::Int(be_signed_value(bytes) as i64))
        } else {
            Err(Errors::ValueOutOfBounds)
        },
        KlvValueType::Int8 => if bytes.len() == 1 {
            Ok(KlvValueView::Int8(be_signed_value(bytes) as i8))
        } else {
            Err(Errors::ValueOutOfBounds)
        },
        KlvValueType::Int16 => if bytes.len() == 2 {
            Ok(KlvValueView::Int16(be_signed_value(bytes) as i16))
        } else {
            Err(Errors::ValueOutOfBounds)
        },
        KlvValueType::Int32 => if bytes.len() == 4 {
            Ok(KlvValueView::Int32(be_signed_value(bytes) as i32))
        } else {
            Err(Errors::ValueOutOfBounds)
        },
        KlvValueType::Uint => if be_value(bytes) <= u64::MAX {
            Ok(KlvValueView::Uint(be_value(bytes) as u64))
        } else {
            Err(Errors::ValueOutOfBounds)
        },
        KlvValueType::Uint8 => if bytes.len() == 1 {
            Ok(KlvValueView::Uint8(be_value(bytes) as u8))
        } else {
            Err(Errors::ValueOutOfBounds)
        },
        KlvValueType::Uint16 => if bytes.len() == 2 {
            Ok(KlvValueView::Uint16(be_value(bytes) as u16))
        } else {
            Err(Errors::ValueOutOfBounds)
        },
        KlvValueType::Uint32 => if bytes.len() == 4 {
            Ok(KlvValueView::Uint32(be_value(bytes) as u32))
        } else {
            Err(Errors::ValueOutOfBounds)
        },
        KlvValueType::Uint64 => if bytes.len() == 8 {
            Ok(KlvValueView::Uint64(be_value(bytes) as u64))
        } else {
            Err(Errors::ValueOutOfBounds)
        },
        KlvValueType::Utf8 => if valid_utf8(bytes) {
            Ok(KlvValueView::Utf8(decode_utf8(bytes)))
        } else {
            Err(Errors::InvalidUtf8)
        },
        KlvValueType::IMAPB
        | KlvValueType::Byte
        | KlvValueType::DLP
        | KlvValueType::VLP
        | KlvValueType::FLP
        | KlvValueType::LocalSet => match tolerance {
            Tolerance::Strict => Err(Errors::Unimplemented(tag.spec_tag_type())),
            Tolerance::Tolerant => Ok(KlvValueView::Unimplemented),
        },
        KlvValueType::Unknown | KlvValueType::Deprecated | KlvValueType::Unimplemented => Err(
            Errors::UnsupportedTag(tag.spec_id()),
        ),
    }
}

/// `core::str::from_utf8`. It accepts exactly the byte runs that are valid
/// UTF-8, and the text it returns is made of the very bytes it was given.
#[verifier::external_body]
fn str_from_utf8(bytes: &[u8]) -> (text: Option<&str>)
    ensures
        text is Some <==> valid_utf8(bytes@),
        text matches Some(t) ==> t.spec_bytes() == bytes@,
{
    match core::str::from_utf8(bytes) {
        Ok(text) => Some(text),
        Err(_) => None,
    }
}

impl KlvValue {
    /// Decodes the raw bytes of a field of `tag`, failing on an encoding
    /// whose decoding is deferred.
    pub fn from_bytes(tag: Tag, bytes: &Box<[u8]>) -> (decoded: Result<KlvValue, Errors>)
        ensures
            result_view(decoded) == decode_value(tag, bytes@, Tolerance::Strict),
    {
        Self::from_bytes_with(tag, bytes, Tolerance::Strict)
    }

    /// Decodes the raw bytes of a field of `tag`; `tolerance` settles what
    /// becomes of an encoding whose decoding is deferred.
    pub fn from_bytes_with(tag: Tag, bytes: &[u8], tolerance: Tolerance) -> (decoded: Result<
        KlvValue,
        Errors,
    >)
        ensures
            result_view(decoded) == decode_value(tag, bytes@, tolerance),
    {
        let value_type = tag.tag_type();
        match value_type {
            KlvValueType::Int => Self::int_wide(bytes),
            KlvValueType::Int8 => Self::int8(bytes),
            KlvValueType::Int16 => Self::int16(bytes),
            KlvValueType::Int32 => Self::int32(bytes),
            KlvValueType::Uint => Self::uint(bytes),
            KlvValueType::Uint8 => Self::uint8(bytes),
            KlvValueType::Uint16 => Self::uint16(bytes),
            KlvValueType::Uint32 => Self::uint32(bytes),
            KlvValueType::Uint64 => Self::uint64(bytes),
            KlvValueType::Utf8 => Self::utf8(bytes),
            KlvValueType::IMAPB => Self::imapb(tolerance),
            KlvValueType::LocalSet => Self::set(tolerance),
            KlvValueType::Byte => Self::byte(tolerance),
            KlvValueType::DLP => Self::dlp(tolerance),
            KlvValueType::VLP => Self::vlp(tolerance),
            KlvValueType::FLP => Self::flp(tolerance),
            _ => Err(Errors::UnsupportedTag(tag.id())),
        }
    }

    fn int_wide(bytes: &[u8]) -> (decoded: Result<KlvValue, Errors>)
        ensures
            decoded == if i64::MIN <= be_signed_value(bytes@) <= i64::MAX {
                Ok::<KlvValue, Errors>(KlvValue::Int(be_signed_value(bytes@) as i64))
            } else {
                Err(Errors::ValueOutOfBounds)
            },
    {
        match load_signed(bytes) {
            Some(value) => Ok(KlvValue::Int(value)),
            None => Err(Errors::ValueOutOfBounds),
        }
    }

    fn int8(bytes: &[u8]) -> (decoded: Result<KlvValue, Errors>)
        ensures
            decoded == if bytes@.len() == 1 {
                Ok::<KlvValue, Errors>(KlvValue::Int8(be_signed_value(bytes@) as i8))
            } else {
                Err(Errors::ValueOutOfBounds)
            },
    {
        if bytes.len() != 1 {
            return Err(Errors::ValueOutOfBounds);
        }
        proof {
            lemma_be_signed_value_range(bytes@);
            lemma_pow256_widths();
        }
        Ok(KlvValue::Int8(load_be_i64(bytes) as i8))
    }

    fn int16(bytes: &[u8]) -> (decoded: Result<KlvValue, Errors>)
        ensures
            decoded == if bytes@.len() == 2 {
                Ok::<KlvValue, Errors>(KlvValue::Int16(be_signed_value(bytes@) as i16))
            } else {
                Err(Errors::ValueOutOfBounds)
            },
    {
        if bytes.len() != 2 {
            return Err(Errors::ValueOutOfBounds);
        }
        proof {
            lemma_be_signed_value_range(bytes@);
            lemma_pow256_widths();
        }
        Ok(KlvValue::Int16(load_be_i64(bytes) as i16))
    }

    fn int32(bytes: &[u8]) -> (decoded: Result<KlvValue, Errors>)
        ensures
            decoded == if bytes@.len() == 4 {
                Ok::<KlvValue, Errors>(KlvValue::Int32(be_signed_value(bytes@) as i32))
            } else {
                Err(Errors::ValueOutOfBounds)
            },
    {
        if bytes.len() != 4 {
            return Err(Errors::ValueOutOfBounds);
        }
        proof {
            lemma_be_signed_value_range(bytes@);
            lemma_pow256_widths();
        }
        Ok(KlvValue::Int32(load_be_i64(bytes) as i32))
    }

    fn uint(bytes: &[u8]) -> (decoded: Result<KlvValue, Errors>)
        ensures
            decoded == if be_value(bytes@) <= u64::MAX {
                Ok::<KlvValue, Errors>(KlvValue::Uint(be_value(bytes@) as u64))
            } else {
                Err(Errors::ValueOutOfBounds)
            },
    {
        match load_unsigned(bytes) {
            Some(value) => Ok(KlvValue::Uint(value)),
            None => Err(Errors::ValueOutOfBounds),
        }
    }

    fn uint8(bytes: &[u8]) -> (decoded: Result<KlvValue, Errors>)
        ensures
            decoded == if bytes@.len() == 1 {
                Ok::<KlvValue, Errors>(KlvValue::Uint8(be_value(bytes@) as u8))
            } else {
                Err(Errors::ValueOutOfBounds)
            },
    {
        if bytes.len() != 1 {
            return Err(Errors::ValueOutOfBounds);
        }
        proof {
            lemma_be_value_bound(bytes@);
            lemma_pow256_widths();
        }
        Ok(KlvValue::Uint8(load_be_u64(bytes) as u8))
    }

    fn uint16(bytes: &[u8]) -> (decoded: Result<KlvValue, Errors>)
        ensures
            decoded == if bytes@.len() == 2 {
                Ok::<KlvValue, Errors>(KlvValue::Uint16(be_value(bytes@) as u16))
            } else {
                Err(Errors::ValueOutOfBounds)
            },
    {
        if bytes.len() != 2 {
            return Err(Errors::ValueOutOfBounds);
        }
        proof {
            lemma_be_value_bound(bytes@);
            lemma_pow256_widths();
        }
        Ok(KlvValue::Uint16(load_be_u64(bytes) as u16))
    }

    fn uint32(bytes: &[u8]) -> (decoded: Result<KlvValue, Errors>)
        ensures
            decoded == if bytes@.len() == 4 {
                Ok::<KlvValue, Errors>(KlvValue::Uint32(be_value(bytes@) as u32))
            } else {
                Err(Errors::ValueOutOfBounds)
            },
    {
        if bytes.len() != 4 {
            return Err(Errors::ValueOutOfBounds);
        }
        proof {
            lemma_be_value_bound(bytes@);
            lemma_pow256_widths();
        }
        Ok(KlvValue::Uint32(load_be_u64(bytes) as u32))
    }

    fn uint64(bytes: &[u8]) -> (decoded: Result<KlvValue, Errors>)
        ensures
            decoded == if bytes@.len() == 8 {
                Ok::<KlvValue, Errors>(KlvValue::Uint64(be_value(bytes@) as u64))
            } else {
                Err(Errors::ValueOutOfBounds)
            },
    {
        if bytes.len() != 8 {
            return Err(Errors::ValueOutOfBounds);
        }
        Ok(KlvValue::Uint64(load_be_u64(bytes)))
    }

    fn utf8(bytes: &[u8]) -> (decoded: Result<KlvValue, Errors>)
        ensures
            result_view(decoded) == if valid_utf8(bytes@) {
                Ok::<KlvValueView, Errors>(KlvValueView::Utf8(decode_utf8(bytes@)))
            } else {
                Err(Errors::InvalidUtf8)
            },
    {
        match str_from_utf8(bytes) {
            Some(text) => {
                proof {
                    encode_utf8_decode_utf8(text@);
                }
                Ok(KlvValue::Utf8(text.to_owned()))
            },
            None => Err(Errors::InvalidUtf8),
        }
    }

    fn imapb(tolerance: Tolerance) -> (decoded: Result<KlvValue, Errors>)
        ensures
            decoded == Self::deferred(KlvValueType::IMAPB, tolerance),
    {
        Self::klv_unimplemented(KlvValueType::IMAPB, tolerance)
    }

    fn set(tolerance: Tolerance) -> (decoded: Result<KlvValue, Errors>)
        ensures
            decoded == Self::deferred(KlvValueType::LocalSet, tolerance),
    {
        Self::klv_unimplemented(KlvValueType::LocalSet, tolerance)
    }

    fn byte(tolerance: Tolerance) -> (decoded: Result<KlvValue, Errors>)
        ensures
            decoded == Self::deferred(KlvValueType::Byte, tolerance),
    {
        Self::klv_unimplemented(KlvValueType::Byte, tolerance)
    }

    fn dlp(tolerance: Tolerance) -> (decoded: Result<KlvValue, Errors>)
        ensures
            decoded == Self::deferred(KlvValueType::DLP, tolerance),
    {
        Self::klv_unimplemented(KlvValueType::DLP, tolerance)
    }

    fn vlp(tolerance: Tolerance) -> (decoded: Result<KlvValue, Errors>)
        ensures
            decoded == Self::deferred(KlvValueType::VLP, tolerance),
    {
        Self::klv_unimplemented(KlvValueType::VLP, tolerance)
    }

    fn flp(tolerance: Tolerance) -> (decoded: Result<KlvValue, Errors>)
        ensures
            decoded == Self::deferred(KlvValueType::FLP, tolerance),
    {
        Self::klv_unimplemented(KlvValueType::FLP, tolerance)
    }

    /// What stands for a value of a deferred encoding: an error that names
    /// the encoding, or the marker.
    pub open spec fn deferred(value_type: KlvValueType, tolerance: Tolerance) -> Result<
        KlvValue,
        Errors,
    > {
        match tolerance {
            Tolerance::Strict => Err(Errors::Unimplemented(value_type)),
            Tolerance::Tolerant => Ok(KlvValue::Unimplemented),
        }
    }

    fn klv_unimplemented(value_type: KlvValueType, tolerance: Tolerance) -> (decoded: Result<
        KlvValue,
        Errors,
    >)
        ensures
            decoded == Self::deferred(value_type, tolerance),
    {
        match tolerance {
            Tolerance::Strict => Err(Errors::Unimplemented(value_type)),
            Tolerance::Tolerant => Ok(KlvValue::Unimplemented),
        }
    }
}

} // verus!
