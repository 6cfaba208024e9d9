//! The packet parser and the accessors of a decoded packet.

use crate::ber::ber_decode;
use crate::big_endian::load_unsigned;
use crate::checksum::{block_check, byte_weight, lemma_block_check_push, packet_checksum};
use crate::cursor::Cursor;
use crate::format::{
    declared_checksum, first_with_id, index_from, parse, parse_fields, prepend, verify_checksum,
};
use crate::klv::{decode_field, field_result_view, Klv, KlvView};
use crate::klv_value::{KlvValue, KlvValueView, Tolerance};
use crate::search::{find, KeySearch};
use crate::tag::{lemma_tag_id_round_trip, Tag};
use crate::Errors;
use vstd::pervasive::unreached;
use vstd::prelude::*;
use vstd::slice::slice_subrange;

verus! {

/// The universal key that opens every UAS Datalink Local Set.
pub const UAS_LOCAL_SET_UNIVERSAL_LABEL: [u8; 16] = [
    0x06, 0x0E, 0x2B, 0x34,
    0x02, 0x0B, 0x01, 0x01,
    0x0E, 0x01, 0x03, 0x01,
    0x01, 0x00, 0x00, 0x00,
];

/// The universal key as a sequence of bytes.
pub open spec fn universal_label() -> Seq<u8> {
    UAS_LOCAL_SET_UNIVERSAL_LABEL@
}

/// The readings of a list of fields.
pub open spec fn field_views(fields: Seq<Klv>) -> Seq<KlvView> {
    fields.map_values(|field: Klv| field@)
}

/// A decoded packet: its fields in wire order. Fields that share a tag all
/// stay; a lookup returns the first of them. A packet always holds a
/// checksum.
#[derive(Debug)]
pub struct KlvPacket {
    fields: Vec<Klv>,
}

impl View for KlvPacket {
    type V = Seq<KlvView>;

    closed spec fn view(&self) -> Seq<KlvView> {
        field_views(self.fields@)
    }
}

impl Clone for KlvPacket {
    fn clone(&self) -> (copy: Self)
        ensures
            copy@ == self@,
    {
        proof {
            use_type_invariant(self);
        }
        let mut fields: Vec<Klv> = Vec::new();
        let mut i: usize = 0;
        while i < self.fields.len()
            invariant
                i <= self.fields@.len(),
                fields@ =~= self.fields@.take(i as int),
            decreases self.fields@.len() - i,
        {
            fields.push(self.fields[i].clone());
            i += 1;
        }
        assert(fields@ =~= self.fields@);
        KlvPacket { fields }
    }
}

/// The outcome of a parse, read mathematically.
pub open spec fn packet_result_view(result: Result<KlvPacket, Errors>) -> Result<
    Seq<KlvView>,
    Errors,
> {
    match result {
        Ok(packet) => Ok(packet@),
        Err(error) => Err(error),
    }
}

/// Parsing is idempotent: two packets decoded from the same buffer, in the
/// same way, hold the same fields in the same order, and every accessor
/// answers the same of both.
pub proof fn lemma_parse_idempotent(
    bytes: Seq<u8>,
    search: KeySearch,
    tolerance: Tolerance,
    first: KlvPacket,
    second: KlvPacket,
)
    requires
        packet_result_view(Ok(first)) == parse(bytes, search, tolerance),
        packet_result_view(Ok(second)) == parse(bytes, search, tolerance),
    ensures
        first@ == second@,
        declared_checksum(first@) == declared_checksum(second@),
        forall|id: usize| first_with_id(first@, id) == first_with_id(second@, id),
{
}

/// What reading a BER integer does to a cursor and returns: the number at
/// the cursor, with the cursor moved past it, or the failure, with the cursor
/// left where it was.
pub open spec fn reads_ber(before: Cursor, after: Cursor, outcome: Result<usize, Errors>) -> bool {
    &&& after.bytes == before.bytes
    &&& match ber_decode(before.bytes@, before.position as int) {
        Ok(read) => outcome == Ok::<usize, Errors>(read.value) && after.position == read.next,
        Err(error) => outcome == Err::<usize, Errors>(error) && after.position
            == before.position,
    }
}

/// The offset of the first field whose tag has number `id`.
fn find_index(fields: &Vec<Klv>, id: usize) -> (found: Option<usize>)
    ensures
        match found {
            Some(index) => {
                &&& index < fields@.len()
                &&& index_from(field_views(fields@), id, 0) == Some(index as int)
                &&& fields@[index as int]@.tag.spec_id() == id
            },
            None => index_from(field_views(fields@), id, 0) is None,
        },
{
    let mut i: usize = 0;
    while i < fields.len()
        invariant
            i <= fields@.len(),
            index_from(field_views(fields@), id, 0) == index_from(
                field_views(fields@),
                id,
                i as int,
            ),
        decreases fields@.len() - i,
    {
        assert(field_views(fields@)[i as int] == fields@[i as int]@);
        if fields[i].tag().id() == id {
            return Some(i);
        }
        i += 1;
    }
    None
}

impl KlvPacket {
    /// What holds of every packet: it declares a checksum.
    #[verifier::type_invariant]
    spec fn inv(self) -> bool {
        declared_checksum(self@) is Some
    }

    /// Reads the next tag number.
    pub fn get_tag(buf: &mut Cursor) -> (tag: Result<usize, Errors>)
        ensures
            reads_ber(*old(buf), *final(buf), tag),
    {
        Self::get_ber_value(buf)
    }

    /// Reads the next length.
    pub fn get_length(buf: &mut Cursor) -> (length: Result<usize, Errors>)
        ensures
            reads_ber(*old(buf), *final(buf), length),
    {
        Self::get_ber_value(buf)
    }

    /// Reads the BER integer at the cursor and moves the cursor past it. A
    /// read that fails leaves the cursor where it was.
    pub fn get_ber_value(buf: &mut Cursor) -> (value: Result<usize, Errors>)
        ensures
            reads_ber(*old(buf), *final(buf), value),
    {
        let start: usize = buf.position();
        let first: u8 = match buf.read_byte() {
            Some(byte) => byte,
            None => {
                return Err(Errors::OutOfData);
            },
        };
        if first < 128 {
            return Ok(first as usize);
        }
        let count: usize = (first - 128) as usize;
        let digits = match buf.read_exact(count) {
            Some(run) => run,
            None => {
                buf.set_position(start);
                return Err(Errors::OutOfData);
            },
        };
        match load_unsigned(digits) {
            Some(number) => if number > usize::MAX as u64 {
                buf.set_position(start);
                Err(Errors::ValueOutOfBounds)
            } else {
                Ok(number as usize)
            },
            None => {
                buf.set_position(start);
                Err(Errors::ValueOutOfBounds)
            },
        }
    }

    /// Reads the `length` bytes of a value at the cursor and decodes them as
    /// the field of tag number `tag`. Where fewer bytes are left, nothing is
    /// read.
    pub fn get_value(buf: &mut Cursor, tag: usize, length: usize, tolerance: Tolerance) -> (field:
        Result<Klv, Errors>)
        ensures
            final(buf).bytes == old(buf).bytes,
            if old(buf).position + length > old(buf).bytes@.len() {
                &&& field_result_view(field) == Err::<KlvView, Errors>(Errors::OutOfData)
                &&& final(buf).position == old(buf).position
            } else {
                &&& field_result_view(field) == decode_field(
                    tag,
                    old(buf).bytes@.subrange(
                        old(buf).position as int,
                        old(buf).position + length,
                    ),
                    tolerance,
                )
                &&& final(buf).position == old(buf).position + length
            },
    {
        match buf.read_exact(length) {
            Some(raw_value) => Klv::new_with(tag, raw_value, tolerance),
            None => Err(Errors::OutOfData),
        }
    }

    /// Computes the checksum of a whole packet, from the universal key
    /// through the two bytes that hold the checksum; those two are left out
    /// of the sum.
    pub fn calculate_checksum(buf: &[u8]) -> (bcc: u16)
        requires
            buf@.len() >= 2,
        ensures
            bcc == packet_checksum(buf@),
    {
        let n: usize = buf.len() - 2;
        let mut bcc: u16 = 0;
        let mut idx: usize = 0;
        assert(buf@.take(0).len() == 0);
        while idx < n
            invariant
                idx <= n,
                n + 2 == buf@.len(),
                bcc == block_check(buf@.take(idx as int)),
            decreases n - idx,
        {
            let byte: u16 = buf[idx] as u16;
            let term: u16 = if idx % 2 == 0 {
                byte * 256
            } else {
                byte
            };
            proof {
                lemma_block_check_push(buf@.take(idx as int), buf@[idx as int]);
                assert(buf@.take(idx as int).push(buf@[idx as int]) =~= buf@.take(idx + 1));
                assert(term == byte_weight(idx as int) * buf@[idx as int]);
            }
            bcc = bcc.wrapping_add(term);
            idx += 1;
        }
        bcc
    }

    /// Parses a buffer that begins with the universal key, failing on an
    /// encoding whose decoding is deferred.
    pub fn from_bytes(bytes: Box<[u8]>) -> (packet: Result<KlvPacket, Errors>)
        ensures
            packet_result_view(packet) == parse(bytes@, KeySearch::AtStart, Tolerance::Strict),
    {
        Self::from_bytes_with(&bytes, KeySearch::AtStart, Tolerance::Strict)
    }

    /// Parses the packet that `bytes` hold. `search` says where the universal
    /// key is looked for, `tolerance` what becomes of an encoding whose
    /// decoding is deferred. The result is a packet whose checksum has been
    /// verified, or the first failure met.
    pub fn from_bytes_with(bytes: &[u8], search: KeySearch, tolerance: Tolerance) -> (packet:
        Result<KlvPacket, Errors>)
        ensures
            packet_result_view(packet) == parse(bytes@, search, tolerance),
    {
        let total: usize = bytes.len();
        let label: &[u8] = UAS_LOCAL_SET_UNIVERSAL_LABEL.as_slice();
        assert(label@ == universal_label());
        let start_index: usize = match find(bytes, label, search) {
            Some(idx) => idx,
            None => {
                return Err(Errors::NoKLVPacket);
            },
        };

        // The position at which the length of the whole packet starts.
        let length_position: usize = start_index + label.len();

        let mut buffer = Cursor::new(bytes);
        buffer.set_position(length_position);

        let klv_length: usize = match Self::get_length(&mut buffer) {
            Ok(length) => length,
            Err(error) => {
                return Err(error);
            },
        };
        let body_start: usize = buffer.position();

        // Where the packet ends. A length that reaches past the buffer cannot
        // be met: the loop below then runs until a read fails.
        let ghost end: int = body_start + klv_length;
        let in_buffer: bool = klv_length <= total - body_start;
        let klv_packet_end: usize = if in_buffer {
            body_start + klv_length
        } else {
            total
        };

        let mut fields: Vec<Klv> = Vec::new();
        assert(field_views(fields@) =~= Seq::<KlvView>::empty());

        while !in_buffer || buffer.position() < klv_packet_end
            invariant
                buffer.bytes@ == bytes@,
                buffer.position <= bytes@.len(),
                in_buffer ==> klv_packet_end == end,
                !in_buffer ==> end > bytes@.len(),
                klv_packet_end <= bytes@.len(),
                parse(bytes@, search, tolerance) == verify_checksum(
                    bytes@,
                    start_index as int,
                    end,
                    parse_fields(bytes@, body_start as int, end, tolerance),
                ),
                prepend(
                    field_views(fields@),
                    parse_fields(bytes@, buffer.position as int, end, tolerance),
                ) == parse_fields(bytes@, body_start as int, end, tolerance),
            decreases bytes@.len() - buffer.position,
        {
            let ghost at: int = buffer.position as int;
            let ghost done = field_views(fields@);
            let tag: usize = match Self::get_tag(&mut buffer) {
                Ok(tag) => tag,
                Err(error) => {
                    return Err(error);
                },
            };
            if tag > Tag::max_known_id() {
                return Err(Errors::UnsupportedTag(tag));
            }
            let length: usize = match Self::get_length(&mut buffer) {
                Ok(length) => length,
                Err(error) => {
                    return Err(error);
                },
            };
            if length != 0 {
                let ghost value_start: int = buffer.position as int;
                let value = match Self::get_value(&mut buffer, tag, length, tolerance) {
                    Ok(value) => value,
                    Err(error) => {
                        return Err(error);
                    },
                };
                fields.push(value);
                proof {
                    let rest = parse_fields(bytes@, value_start + length, end, tolerance);
                    assert(field_views(fields@) =~= done.push(value@));
                    assert(parse_fields(bytes@, at, end, tolerance) == prepend(
                        seq![value@],
                        rest,
                    ));
                    if let Ok(more) = rest {
                        assert(done + (seq![value@] + more) =~= done.push(value@) + more);
                    }
                }
            } else {
                assert(parse_fields(bytes@, at, end, tolerance) == parse_fields(
                    bytes@,
                    buffer.position as int,
                    end,
                    tolerance,
                ));
            }
        }

        proof {
            assert(parse_fields(bytes@, buffer.position as int, end, tolerance) == Ok::<
                Seq<KlvView>,
                Errors,
            >(Seq::empty()));
            assert(field_views(fields@) + Seq::<KlvView>::empty() =~= field_views(fields@));
        }

        let packet_checksum: u16 = match find_index(&fields, Tag::Checksum.id()) {
            Some(index) => match fields[index].value() {
                KlvValue::Uint16(value) => *value,
                _ => {
                    return Err(Errors::InvalidChecksum);
                },
            },
            None => {
                return Err(Errors::InvalidChecksum);
            },
        };

        let checked = slice_subrange(bytes, start_index, klv_packet_end);
        let calculated_checksum: u16 = Self::calculate_checksum(checked);
        assert(checked@.take(checked@.len() - 2) =~= bytes@.subrange(
            start_index as int,
            klv_packet_end - 2,
        ));

        if packet_checksum != calculated_checksum {
            return Err(Errors::InvalidChecksum);
        }
        Ok(KlvPacket { fields })
    }

    /// The tags of the fields, in wire order.
    pub fn tags(&self) -> (tags: Vec<Tag>)
        ensures
            tags@ == self@.map_values(|field: KlvView| field.tag),
    {
        let mut tags: Vec<Tag> = Vec::new();
        let mut i: usize = 0;
        while i < self.fields.len()
            invariant
                i <= self.fields@.len(),
                tags@ == self@.take(i as int).map_values(|field: KlvView| field.tag),
            decreases self.fields@.len() - i,
        {
            assert(self@[i as int] == self.fields@[i as int]@);
            tags.push(self.fields[i].tag());
            assert(self@.take(i + 1).map_values(|field: KlvView| field.tag) =~= self@.take(
                i as int,
            ).map_values(|field: KlvView| field.tag).push(self@[i as int].tag));
            i += 1;
        }
        assert(self@.take(i as int) =~= self@);
        tags
    }

    /// The first field, in wire order, whose tag has number `tag`.
    pub fn get_id(&self, tag: usize) -> (field: Option<Klv>)
        ensures
            match first_with_id(self@, tag) {
                Some(found) => field is Some && field->0@ == found,
                None => field is None,
            },
    {
        match find_index(&self.fields, tag) {
            Some(index) => {
                assert(field_views(self.fields@)[index as int] == self.fields@[index as int]@);
                Some(self.fields[index].clone())
            },
            None => None,
        }
    }

    /// The first field, in wire order, of tag `tag`.
    pub fn get(&self, tag: Tag) -> (field: Option<Klv>)
        ensures
            match first_with_id(self@, tag.spec_id()) {
                Some(found) => field is Some && field->0@ == found,
                None => field is None,
            },
    {
        self.get_id(tag.id())
    }

    /// The checksum that the packet declares.
    pub fn checksum(&self) -> (value: u16)
        ensures
            declared_checksum(self@) == Some(value),
    {
        proof {
            use_type_invariant(self);
        }
        match find_index(&self.fields, Tag::Checksum.id()) {
            Some(index) => match self.fields[index].value() {
                KlvValue::Uint16(value) => *value,
                _ => unreached(),
            },
            None => unreached(),
        }
    }

    /// Whether the packet holds a field of tag `tag`.
    pub open spec fn has(&self, tag: Tag) -> bool {
        first_with_id(self@, tag.spec_id()) is Some
    }

    /// The precision time stamp of the packet, in microseconds. The wire
    /// format makes the field mandatory; a packet without it may not be
    /// asked.
    pub fn precision_time_stamp(&self) -> (value: u64)
        requires
            self.has(Tag::PrecisionTimeStamp),
        ensures
            first_with_id(self@, Tag::PrecisionTimeStamp.spec_id()) matches Some(field)
                && field.value == KlvValueView::Uint64(value),
    {
        match find_index(&self.fields, Tag::PrecisionTimeStamp.id()) {
            Some(index) => {
                let field = &self.fields[index];
                proof {
                    use_type_invariant(field);
                    lemma_tag_id_round_trip(field@.tag);
                }
                match field.value() {
                    KlvValue::Uint64(value) => *value,
                    _ => unreached(),
                }
            },
            None => unreached(),
        }
    }

    /// The mission ID of the packet, where it holds one.
    pub fn mission_id(&self) -> (value: Option<String>)
        ensures
            match first_with_id(self@, Tag::MissionID.spec_id()) {
                Some(field) => value is Some && field.value == KlvValueView::Utf8(value->0@),
                None => value is None,
            },
    {
        match find_index(&self.fields, Tag::MissionID.id()) {
            Some(index) => {
                let field = &self.fields[index];
                proof {
                    use_type_invariant(field);
                    lemma_tag_id_round_trip(field@.tag);
                }
                match field.value() {
                    KlvValue::Utf8(value) => Some(value.clone()),
                    _ => unreached(),
                }
            },
            None => None,
        }
    }
}

} // verus!
