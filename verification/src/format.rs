//! The wire format of a packet, as a function on bytes.
//!
//! A packet is the universal key, a BER length, and triples of BER tag
//! number, BER length and value bytes up to the declared end. This module
//! says what fields a buffer decodes to, or which failure it meets first, and
//! states what follows from that.

use crate::ber::{ber_decode, BerRead};
use crate::checksum::block_check;
use crate::klv::{decode_field, lemma_decode_field_well_typed, KlvView};
use crate::klv_packet::universal_label;
use crate::klv_value::{KlvValueView, Tolerance};
use crate::search::{
    lemma_search_from_is_first, lemma_search_finds_first, locate, occurs_at, KeySearch,
};
use crate::tag::Tag;
use crate::Errors;
use vstd::prelude::*;

verus! {

/// The offset of the first field, `from` or above, whose tag has number
/// `id`.
pub open spec fn index_from(fields: Seq<KlvView>, id: usize, from: int) -> Option<int>
    decreases fields.len() - from,
{
    if from < 0 || from >= fields.len() {
        None
    } else if fields[from].tag.spec_id() == id {
        Some(from)
    } else {
        index_from(fields, id, from + 1)
    }
}

/// The first field, in wire order, whose tag has number `id`.
pub open spec fn first_with_id(fields: Seq<KlvView>, id: usize) -> Option<KlvView> {
    match index_from(fields, id, 0) {
        Some(index) => Some(fields[index]),
        None => None,
    }
}

/// The checksum that a list of fields declares: the value of its first
/// `Checksum` field.
pub open spec fn declared_checksum(fields: Seq<KlvView>) -> Option<u16> {
    match first_with_id(fields, Tag::Checksum.spec_id()) {
        Some(field) => match field.value {
            KlvValueView::Uint16(value) => Some(value),
            _ => None,
        },
        None => None,
    }
}

/// What one triple gives: a field, or none where its length is zero, and the
/// offset of the byte after it.
pub struct Triple {
    pub field: Option<KlvView>,
    pub next: int,
}

/// The triple that starts at offset `at`.
///
/// A tag number above the largest known one is refused, whatever follows
/// it. A length of zero gives no field. A value that the buffer does not
/// hold in full, or that does not decode, is a failure.
pub open spec fn read_triple(bytes: Seq<u8>, at: int, tolerance: Tolerance) -> Result<
    Triple,
    Errors,
> {
    match ber_decode(bytes, at) {
        Err(error) => Err(error),
        Ok(tag) => if tag.value > Tag::spec_max_known_id() {
            Err(Errors::UnsupportedTag(tag.value))
        } else {
            match ber_decode(bytes, tag.next) {
                Err(error) => Err(error),
                Ok(length) => if length.value == 0 {
                    Ok(Triple { field: None, next: length.next })
                } else if length.next + length.value > bytes.len() {
                    Err(Errors::OutOfData)
                } else {
                    match decode_field(
                        tag.value,
                        bytes.subrange(length.next, length.next + length.value),
                        tolerance,
                    ) {
                        Err(error) => Err(error),
                        Ok(field) => Ok(
                            Triple { field: Some(field), next: length.next + length.value },
                        ),
                    }
                },
            }
        },
    }
}

/// The fields decoded so far, followed by what the rest of the buffer gives.
pub open spec fn prepend(done: Seq<KlvView>, rest: Result<Seq<KlvView>, Errors>) -> Result<
    Seq<KlvView>,
    Errors,
> {
    match rest {
        Ok(fields) => Ok(done + fields),
        Err(error) => Err(error),
    }
}

/// The fields that the triples from offset `at` on decode to. Triples are
/// read for as long as the offset lies before `end`; the first failure is
/// the outcome.
pub open spec fn parse_fields(bytes: Seq<u8>, at: int, end: int, tolerance: Tolerance) -> Result<
    Seq<KlvView>,
    Errors,
>
    decreases bytes.len() - at,
{
    if at >= end {
        Ok(Seq::empty())
    } else {
        match read_triple(bytes, at, tolerance) {
            Err(error) => Err(error),
            Ok(triple) => match triple.field {
                Some(field) => prepend(
                    seq![field],
                    parse_fields(bytes, triple.next, end, tolerance),
                ),
                None => parse_fields(bytes, triple.next, end, tolerance),
            },
        }
    }
}

/// The fields of a packet that spans the offsets from `start` to `end`, once
/// their checksum is verified: they must declare the block check character
/// of the bytes of the span, less the last two.
pub open spec fn verify_checksum(
    bytes: Seq<u8>,
    start: int,
    end: int,
    fields: Result<Seq<KlvView>, Errors>,
) -> Result<Seq<KlvView>, Errors> {
    match fields {
        Err(error) => Err(error),
        Ok(fields) => if declared_checksum(fields) == Some(
            block_check(bytes.subrange(start, end - 2)),
        ) {
            Ok(fields)
        } else {
            Err(Errors::InvalidChecksum)
        },
    }
}

/// The packet that `bytes` hold.
///
/// The universal key is located as `search` says. The BER length after it
/// counts the bytes from the first tag through the value of the checksum.
/// The fields are those of the triples in that span, and the checksum that
/// they declare must be the one that the bytes of the packet add up to.
pub open spec fn parse(bytes: Seq<u8>, search: KeySearch, tolerance: Tolerance) -> Result<
    Seq<KlvView>,
    Errors,
> {
    match locate(bytes, universal_label(), search) {
        None => Err(Errors::NoKLVPacket),
        Some(start) => match ber_decode(bytes, start + universal_label().len()) {
            Err(error) => Err(error),
            Ok(length) => {
                let end = length.next + length.value;
                verify_checksum(
                    bytes,
                    start,
                    end,
                    parse_fields(bytes, length.next, end, tolerance),
                )
            },
        },
    }
}

/// The walk over the triples that starts at offset `from` comes to stand at
/// offset `to`: every triple before `to` lies before `end` and decodes.
pub open spec fn reaches(bytes: Seq<u8>, from: int, to: int, end: int, tolerance: Tolerance) -> bool
    decreases bytes.len() - from,
{
    from == to || (from < end && (read_triple(bytes, from, tolerance) matches Ok(triple)
        && reaches(bytes, triple.next, to, end, tolerance)))
}

/// A triple that decodes ends after its start and within the buffer.
pub proof fn lemma_read_triple_advances(bytes: Seq<u8>, at: int, tolerance: Tolerance)
    ensures
        read_triple(bytes, at, tolerance) matches Ok(triple) ==> 0 <= at < triple.next
            <= bytes.len(),
{
}

/// A lookup returns the first field, in wire order, whose tag has the number
/// asked for, and nothing only where no field has it.
pub proof fn lemma_index_from_is_first(fields: Seq<KlvView>, id: usize, from: int)
    requires
        0 <= from,
    ensures
        match index_from(fields, id, from) {
            Some(index) => {
                &&& from <= index < fields.len()
                &&& fields[index].tag.spec_id() == id
                &&& forall|earlier: int|
                    from <= earlier < index ==> fields[earlier].tag.spec_id() != id
            },
            None => forall|index: int|
                from <= index < fields.len() ==> fields[index].tag.spec_id() != id,
        },
    decreases fields.len() - from,
{
    if from < fields.len() && fields[from].tag.spec_id() != id {
        lemma_index_from_is_first(fields, id, from + 1);
    }
}

/// Fields that share a tag coexist, and a lookup returns the earliest.
pub proof fn lemma_first_of_duplicates(fields: Seq<KlvView>, first: int, second: int)
    requires
        0 <= first < second < fields.len(),
        fields[first].tag == fields[second].tag,
        forall|earlier: int|
            0 <= earlier < first ==> fields[earlier].tag.spec_id() != fields[first].tag.spec_id(),
    ensures
        first_with_id(fields, fields[second].tag.spec_id()) == Some(fields[first]),
{
    lemma_index_from_is_first(fields, fields[second].tag.spec_id(), 0);
}

/// Every field of a decoded list is well typed: its value has the encoding
/// that its tag declares.
pub proof fn lemma_parse_fields_well_typed(
    bytes: Seq<u8>,
    at: int,
    end: int,
    tolerance: Tolerance,
)
    ensures
        parse_fields(bytes, at, end, tolerance) matches Ok(fields) ==> forall|index: int|
            0 <= index < fields.len() ==> (#[trigger] fields[index]).well_typed(),
    decreases bytes.len() - at,
{
    if at < end {
        if let Ok(triple) = read_triple(bytes, at, tolerance) {
            lemma_parse_fields_well_typed(bytes, triple.next, end, tolerance);
            if triple.field is Some {
                let tag = ber_decode(bytes, at)->Ok_0;
                let length = ber_decode(bytes, tag.next)->Ok_0;
                lemma_decode_field_well_typed(
                    tag.value,
                    bytes.subrange(length.next, length.next + length.value),
                    tolerance,
                );
            }
        }
    }
}

/// A packet that parses declares a checksum and holds well-typed fields.
pub proof fn lemma_parse_valid(bytes: Seq<u8>, search: KeySearch, tolerance: Tolerance)
    ensures
        parse(bytes, search, tolerance) matches Ok(fields) ==> {
            &&& declared_checksum(fields) is Some
            &&& forall|index: int|
                0 <= index < fields.len() ==> (#[trigger] fields[index]).well_typed()
        },
{
    if let Some(start) = locate(bytes, universal_label(), search) {
        if let Ok(length) = ber_decode(bytes, start + universal_label().len()) {
            lemma_parse_fields_well_typed(
                bytes,
                length.next,
                length.next + length.value,
                tolerance,
            );
        }
    }
}

/// A failure is final: where the walk reaches a triple that fails, the whole
/// list fails with that failure, whatever was decoded before.
pub proof fn lemma_failed_triple_fails_fields(
    bytes: Seq<u8>,
    from: int,
    at: int,
    end: int,
    tolerance: Tolerance,
    error: Errors,
)
    requires
        reaches(bytes, from, at, end, tolerance),
        at < end,
        read_triple(bytes, at, tolerance) == Err::<Triple, Errors>(error),
    ensures
        parse_fields(bytes, from, end, tolerance) == Err::<Seq<KlvView>, Errors>(error),
    decreases bytes.len() - from,
{
    if from != at {
        let triple = read_triple(bytes, from, tolerance)->Ok_0;
        lemma_failed_triple_fails_fields(bytes, triple.next, at, end, tolerance, error);
    }
}

/// A failure is final: a packet in which the walk reaches a triple that
/// fails does not parse, and the failure of the triple is the outcome.
pub proof fn lemma_failed_triple_fails_parse(
    bytes: Seq<u8>,
    search: KeySearch,
    tolerance: Tolerance,
    start: int,
    length: BerRead,
    at: int,
    error: Errors,
)
    requires
        locate(bytes, universal_label(), search) == Some(start),
        ber_decode(bytes, start + universal_label().len()) == Ok::<BerRead, Errors>(length),
        reaches(bytes, length.next, at, length.next + length.value, tolerance),
        at < length.next + length.value,
        read_triple(bytes, at, tolerance) == Err::<Triple, Errors>(error),
    ensures
        parse(bytes, search, tolerance) == Err::<Seq<KlvView>, Errors>(error),
{
    lemma_failed_triple_fails_fields(
        bytes,
        length.next,
        at,
        length.next + length.value,
        tolerance,
        error,
    );
}

/// A tag number above the largest known one fails its triple, whatever its
/// length: the field is not skipped.
pub proof fn lemma_unknown_tag_rejected(bytes: Seq<u8>, at: int, tolerance: Tolerance, tag: BerRead)
    requires
        ber_decode(bytes, at) == Ok::<BerRead, Errors>(tag),
        tag.value > Tag::spec_max_known_id(),
    ensures
        read_triple(bytes, at, tolerance) == Err::<Triple, Errors>(
            Errors::UnsupportedTag(tag.value),
        ),
{
}

/// A triple of length zero gives no field and no failure, and the walk goes
/// on behind its length.
pub proof fn lemma_zero_length_skipped(
    bytes: Seq<u8>,
    at: int,
    end: int,
    tolerance: Tolerance,
    tag: BerRead,
    length: BerRead,
)
    requires
        ber_decode(bytes, at) == Ok::<BerRead, Errors>(tag),
        tag.value <= Tag::spec_max_known_id(),
        ber_decode(bytes, tag.next) == Ok::<BerRead, Errors>(length),
        length.value == 0,
    ensures
        read_triple(bytes, at, tolerance) == Ok::<Triple, Errors>(
            Triple { field: None, next: length.next },
        ),
        at < end ==> parse_fields(bytes, at, end, tolerance) == parse_fields(
            bytes,
            length.next,
            end,
            tolerance,
        ),
{
}

/// A value whose declared length exceeds the bytes that are left fails its
/// triple; no field is made of what is there.
pub proof fn lemma_truncated_value_rejected(
    bytes: Seq<u8>,
    at: int,
    tolerance: Tolerance,
    tag: BerRead,
    length: BerRead,
)
    requires
        ber_decode(bytes, at) == Ok::<BerRead, Errors>(tag),
        tag.value <= Tag::spec_max_known_id(),
        ber_decode(bytes, tag.next) == Ok::<BerRead, Errors>(length),
        length.next + length.value > bytes.len(),
    ensures
        read_triple(bytes, at, tolerance) == Err::<Triple, Errors>(Errors::OutOfData),
{
}

/// Triples that are announced to run up to an offset past the end of the
/// buffer never decode.
pub proof fn lemma_parse_fields_truncated(bytes: Seq<u8>, at: int, end: int, tolerance: Tolerance)
    requires
        at <= bytes.len(),
        end > bytes.len(),
    ensures
        parse_fields(bytes, at, end, tolerance) is Err,
    decreases bytes.len() - at,
{
    if let Ok(triple) = read_triple(bytes, at, tolerance) {
        lemma_parse_fields_truncated(bytes, triple.next, end, tolerance);
    }
}

/// A packet whose declared length reaches past the end of the buffer does
/// not parse.
pub proof fn lemma_truncated_packet_rejected(
    bytes: Seq<u8>,
    search: KeySearch,
    tolerance: Tolerance,
    start: int,
    length: BerRead,
)
    requires
        locate(bytes, universal_label(), search) == Some(start),
        ber_decode(bytes, start + universal_label().len()) == Ok::<BerRead, Errors>(length),
        length.next + length.value > bytes.len(),
    ensures
        parse(bytes, search, tolerance) is Err,
{
    lemma_parse_fields_truncated(bytes, length.next, length.next + length.value, tolerance);
}

/// A packet that parses lies within its buffer: the key, the length and
/// every byte up to the declared end are there.
pub proof fn lemma_parsed_packet_in_buffer(
    bytes: Seq<u8>,
    search: KeySearch,
    tolerance: Tolerance,
)
    ensures
        parse(bytes, search, tolerance) is Ok ==> {
            &&& locate(bytes, universal_label(), search) matches Some(start)
            &&& ber_decode(bytes, start + universal_label().len()) matches Ok(length)
            &&& 0 <= start
            &&& start + universal_label().len() < length.next
            &&& length.next + length.value <= bytes.len()
        },
{
    if let Some(start) = locate(bytes, universal_label(), search) {
        lemma_search_from_is_first(bytes, universal_label(), 0);
        if let Ok(length) = ber_decode(bytes, start + universal_label().len()) {
            if length.next + length.value > bytes.len() {
                lemma_truncated_packet_rejected(bytes, search, tolerance, start, length);
            }
        }
    }
}

/// A pattern that stands in the first `cut` bytes of a buffer stands at the
/// same offset in the whole buffer, and the other way round where it ends
/// within the first `cut` bytes.
pub proof fn lemma_occurs_in_prefix(haystack: Seq<u8>, needle: Seq<u8>, cut: int, at: int)
    requires
        0 <= cut <= haystack.len(),
    ensures
        occurs_at(haystack.take(cut), needle, at) <==> occurs_at(haystack, needle, at) && at
            + needle.len() <= cut,
{
    if 0 <= at && at + needle.len() <= cut {
        assert(haystack.take(cut).subrange(at, at + needle.len()) =~= haystack.subrange(
            at,
            at + needle.len(),
        ));
    }
}

/// A search that finds the pattern in the first `cut` bytes of a buffer finds
/// it at the same offset in the whole buffer.
pub proof fn lemma_locate_in_prefix(
    haystack: Seq<u8>,
    needle: Seq<u8>,
    search: KeySearch,
    cut: int,
)
    requires
        0 <= cut <= haystack.len(),
    ensures
        locate(haystack.take(cut), needle, search) matches Some(at) ==> locate(
            haystack,
            needle,
            search,
        ) == Some(at),
{
    let prefix = haystack.take(cut);
    if let Some(at) = locate(prefix, needle, search) {
        lemma_occurs_in_prefix(haystack, needle, cut, 0);
        if search == KeySearch::Anywhere {
            lemma_search_from_is_first(prefix, needle, 0);
            lemma_occurs_in_prefix(haystack, needle, cut, at);
            assert forall|earlier: int| 0 <= earlier < at implies !occurs_at(
                haystack,
                needle,
                earlier,
            ) by {
                lemma_occurs_in_prefix(haystack, needle, cut, earlier);
            }
            lemma_search_finds_first(haystack, needle, 0, at);
        }
    }
}

/// A BER integer that the first `cut` bytes of a buffer hold in full reads
/// the same in the whole buffer.
pub proof fn lemma_ber_decode_in_prefix(bytes: Seq<u8>, cut: int, at: int)
    requires
        0 <= cut <= bytes.len(),
    ensures
        ber_decode(bytes.take(cut), at) matches Ok(read) ==> ber_decode(bytes, at) == Ok::<
            BerRead,
            Errors,
        >(read),
{
    let prefix = bytes.take(cut);
    if let Ok(read) = ber_decode(prefix, at) {
        if prefix[at] >= 128 {
            assert(prefix.subrange(at + 1, read.next) =~= bytes.subrange(at + 1, read.next));
        }
    }
}

/// Truncation is rejected: a buffer cut anywhere before the end of the
/// packet that it held does not parse.
pub proof fn lemma_cut_buffer_rejected(
    bytes: Seq<u8>,
    search: KeySearch,
    tolerance: Tolerance,
    start: int,
    length: BerRead,
    cut: int,
)
    requires
        locate(bytes, universal_label(), search) == Some(start),
        ber_decode(bytes, start + universal_label().len()) == Ok::<BerRead, Errors>(length),
        0 <= cut <= bytes.len(),
        cut < length.next + length.value,
    ensures
        parse(bytes.take(cut), search, tolerance) is Err,
{
    let prefix = bytes.take(cut);
    lemma_locate_in_prefix(bytes, universal_label(), search, cut);
    if let Some(found) = locate(prefix, universal_label(), search) {
        lemma_ber_decode_in_prefix(bytes, cut, found + universal_label().len());
        if ber_decode(prefix, found + universal_label().len()) is Ok {
            lemma_truncated_packet_rejected(prefix, search, tolerance, start, length);
        }
    }
}

} // verus!
