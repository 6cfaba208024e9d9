use klv_uas::klv_packet::{KlvPacket, UAS_LOCAL_SET_UNIVERSAL_LABEL};
use klv_uas::klv_value::{KlvValue, KlvValueType, Tolerance};
use klv_uas::search::KeySearch;
use klv_uas::tag::Tag;
use klv_uas::Errors;

const TIME_STAMP: [u8; 10] = [0x02, 0x08, 0x00, 0x11, 0x22, 0x33, 0x44, 0x55, 0x66, 0x77];

/// A packet of the given triples, closed by a checksum field that holds the
/// sum of everything before its two value bytes.
fn packet_from_value(test_value: Vec<u8>) -> Vec<u8> {
    let mut packet = Vec::from(UAS_LOCAL_SET_UNIVERSAL_LABEL);
    let length: u8 = (TIME_STAMP.len() + test_value.len() + 4)
        .try_into()
        .expect("Length does not fit in 1 byte");
    packet.push(length);
    packet.extend_from_slice(&TIME_STAMP);
    packet.extend_from_slice(&test_value);
    packet.extend_from_slice(&[0x01, 0x02, 0x00, 0x00]);
    let checksum = KlvPacket::calculate_checksum(&packet);
    let end = packet.len();
    packet[end - 2..].copy_from_slice(&checksum.to_be_bytes());
    packet
}

fn packet_1() -> Vec<u8> {
    packet_from_value(vec![0x03, 0x02, b'I', b'D'])
}

#[test]
fn from_bytes() {
    let bytes = packet_1();
    let computed = u16::from_be_bytes([bytes[bytes.len() - 2], bytes[bytes.len() - 1]]);
    let packet = KlvPacket::from_bytes(bytes.into()).unwrap();
    assert_eq!(packet.checksum(), computed, "Checksum is incorrect");
    assert_eq!(packet.checksum(), 47467);
    assert_eq!(
        packet.precision_time_stamp(),
        4822678189205111,
        "Precision Time Stamp is incorrect"
    );
    assert_eq!(packet.mission_id(), Some("ID".into()));
}

#[test]
fn from_bytes_keeps_wire_order() {
    let packet = KlvPacket::from_bytes(packet_1().into()).unwrap();
    assert_eq!(
        packet.tags(),
        vec![Tag::PrecisionTimeStamp, Tag::MissionID, Tag::Checksum]
    );
}

#[test]
fn from_bytes_fixture_bytes() {
    let bytes = packet_1();
    assert_eq!(bytes.len(), 35);
    assert_eq!(bytes[16], 18);
    assert_eq!(&bytes[33..], &[0xB9, 0x6B]);
}

#[test]
fn corrupted_checksum_is_rejected() {
    let mut bytes = packet_1();
    let last = bytes.len() - 1;
    bytes[last] ^= 0x01;
    let result = KlvPacket::from_bytes(bytes.into());
    assert_eq!(result.err(), Some(Errors::InvalidChecksum));
}

#[test]
fn corrupted_payload_is_rejected() {
    let mut bytes = packet_1();
    bytes[20] ^= 0x40;
    let result = KlvPacket::from_bytes(bytes.into());
    assert_eq!(result.err(), Some(Errors::InvalidChecksum));
}

#[test]
fn every_single_byte_change_in_the_key_or_length_is_rejected() {
    let good = packet_1();
    for index in 0..17 {
        let mut bytes = good.clone();
        bytes[index] ^= 0x10;
        assert!(
            KlvPacket::from_bytes_with(&bytes, KeySearch::AtStart, Tolerance::Strict).is_err(),
            "byte {index}"
        );
    }
}

#[test]
fn truncated_buffer_is_rejected() {
    let good = packet_1();
    for cut in 0..good.len() {
        let result = KlvPacket::from_bytes_with(&good[..cut], KeySearch::AtStart, Tolerance::Strict);
        assert!(result.is_err(), "cut at {cut}");
    }
}

#[test]
fn buffer_cut_mid_value_is_out_of_data() {
    let good = packet_1();
    // The cut falls inside the eight bytes of the time stamp.
    let result = KlvPacket::from_bytes_with(&good[..22], KeySearch::AtStart, Tolerance::Strict);
    assert_eq!(result.err(), Some(Errors::OutOfData));
    // The cut falls inside the two bytes of the checksum.
    let result = KlvPacket::from_bytes_with(&good[..34], KeySearch::AtStart, Tolerance::Strict);
    assert_eq!(result.err(), Some(Errors::OutOfData));
}

#[test]
fn buffer_cut_after_the_key_is_out_of_data() {
    let good = packet_1();
    let result = KlvPacket::from_bytes_with(&good[..16], KeySearch::AtStart, Tolerance::Strict);
    assert_eq!(result.err(), Some(Errors::OutOfData));
}

#[test]
fn short_buffer_holds_no_packet() {
    let good = packet_1();
    for cut in 0..16 {
        let result = KlvPacket::from_bytes_with(&good[..cut], KeySearch::AtStart, Tolerance::Strict);
        assert_eq!(result.err(), Some(Errors::NoKLVPacket));
        let result = KlvPacket::from_bytes_with(&good[..cut], KeySearch::Anywhere, Tolerance::Strict);
        assert_eq!(result.err(), Some(Errors::NoKLVPacket));
    }
    assert_eq!(
        KlvPacket::from_bytes(Vec::new().into()).err(),
        Some(Errors::NoKLVPacket)
    );
}

#[test]
fn unknown_tag_is_rejected() {
    // Tag 200 in long form, with one byte of value.
    let bytes = packet_from_value(vec![0x81, 200, 0x01, 0xAA]);
    let result = KlvPacket::from_bytes(bytes.into());
    assert_eq!(result.err(), Some(Errors::UnsupportedTag(200)));
}

#[test]
fn unknown_tag_of_length_zero_is_rejected() {
    let bytes = packet_from_value(vec![0x81, 200, 0x00]);
    let result = KlvPacket::from_bytes(bytes.into());
    assert_eq!(result.err(), Some(Errors::UnsupportedTag(200)));
}

#[test]
fn first_tag_above_the_largest_known_is_rejected() {
    let bytes = packet_from_value(vec![0x81, 144, 0x00]);
    let result = KlvPacket::from_bytes(bytes.into());
    assert_eq!(result.err(), Some(Errors::UnsupportedTag(144)));
    let bytes = packet_from_value(vec![0x81, 143, 0x00]);
    assert!(KlvPacket::from_bytes(bytes.into()).is_ok());
}

#[test]
fn tag_zero_with_a_value_is_rejected() {
    let bytes = packet_from_value(vec![0x00, 0x01, 0xAA]);
    let result = KlvPacket::from_bytes(bytes.into());
    assert_eq!(result.err(), Some(Errors::UnsupportedTag(0)));
}

#[test]
fn deprecated_tag_with_a_value_is_rejected() {
    let bytes = packet_from_value(vec![66, 0x01, 0xAA]);
    let result = KlvPacket::from_bytes(bytes.into());
    assert_eq!(result.err(), Some(Errors::UnsupportedTag(66)));
}

#[test]
fn zero_length_field_is_skipped() {
    let bytes = packet_from_value(vec![0x03, 0x00]);
    let packet = KlvPacket::from_bytes(bytes.into()).unwrap();
    assert_eq!(packet.mission_id(), None);
    assert!(packet.get(Tag::MissionID).is_none());
    assert_eq!(packet.tags(), vec![Tag::PrecisionTimeStamp, Tag::Checksum]);
    assert_eq!(packet.checksum(), 28962);
    assert_eq!(packet.precision_time_stamp(), 4822678189205111);
}

#[test]
fn zero_length_field_of_deferred_encoding_is_skipped() {
    // Tag 48 is a nested local set; with no bytes there is nothing to decode.
    let bytes = packet_from_value(vec![48, 0x00]);
    let packet = KlvPacket::from_bytes(bytes.into()).unwrap();
    assert_eq!(packet.tags(), vec![Tag::PrecisionTimeStamp, Tag::Checksum]);
}

#[test]
fn parsing_twice_gives_the_same_packet() {
    let bytes = packet_1();
    let first = KlvPacket::from_bytes(bytes.clone().into()).unwrap();
    let second = KlvPacket::from_bytes(bytes.into()).unwrap();
    assert_eq!(first.tags(), second.tags());
    assert_eq!(first.checksum(), second.checksum());
    assert_eq!(first.precision_time_stamp(), second.precision_time_stamp());
    assert_eq!(first.mission_id(), second.mission_id());
    for id in 0..=150 {
        let a = first.get_id(id);
        let b = second.get_id(id);
        assert_eq!(a.is_some(), b.is_some());
        if let (Some(a), Some(b)) = (a, b) {
            assert_eq!(a.tag(), b.tag());
            assert_eq!(a.value(), b.value());
        }
    }
}

#[test]
fn clone_keeps_the_fields() {
    let packet = KlvPacket::from_bytes(packet_1().into()).unwrap();
    let copy = packet.clone();
    assert_eq!(copy.tags(), packet.tags());
    assert_eq!(copy.checksum(), packet.checksum());
    assert_eq!(copy.mission_id(), packet.mission_id());
}

#[test]
fn key_is_found_anywhere_when_asked() {
    let mut bytes = vec![0xDE, 0xAD, 0xBE, 0xEF, 0x06];
    bytes.extend_from_slice(&packet_1());
    bytes.extend_from_slice(&[0x00, 0x11]);
    let result = KlvPacket::from_bytes_with(&bytes, KeySearch::AtStart, Tolerance::Strict);
    assert_eq!(result.err(), Some(Errors::NoKLVPacket));
    let packet = KlvPacket::from_bytes_with(&bytes, KeySearch::Anywhere, Tolerance::Strict).unwrap();
    assert_eq!(packet.checksum(), 47467);
    assert_eq!(packet.mission_id(), Some("ID".into()));
}

#[test]
fn first_key_wins() {
    // A broken packet in front of a good one: the search stops at the first
    // key and the parse fails on it.
    let mut broken = packet_1();
    let last = broken.len() - 1;
    broken[last] ^= 0xFF;
    let mut bytes = broken;
    bytes.extend_from_slice(&packet_1());
    let result = KlvPacket::from_bytes_with(&bytes, KeySearch::Anywhere, Tolerance::Strict);
    assert_eq!(result.err(), Some(Errors::InvalidChecksum));
}

#[test]
fn absent_key_holds_no_packet() {
    let mut bytes = packet_1();
    bytes[15] = 0x01;
    let result = KlvPacket::from_bytes_with(&bytes, KeySearch::Anywhere, Tolerance::Strict);
    assert_eq!(result.err(), Some(Errors::NoKLVPacket));
    let result = KlvPacket::from_bytes_with(&bytes, KeySearch::AtStart, Tolerance::Strict);
    assert_eq!(result.err(), Some(Errors::NoKLVPacket));
}

#[test]
fn trailing_bytes_after_the_packet_are_ignored() {
    let mut bytes = packet_1();
    bytes.extend_from_slice(&[0xFF; 7]);
    let packet = KlvPacket::from_bytes(bytes.into()).unwrap();
    assert_eq!(packet.tags().len(), 3);
}

#[test]
fn missing_checksum_is_rejected() {
    let mut bytes = Vec::from(UAS_LOCAL_SET_UNIVERSAL_LABEL);
    bytes.push(TIME_STAMP.len() as u8);
    bytes.extend_from_slice(&TIME_STAMP);
    let result = KlvPacket::from_bytes(bytes.into());
    assert_eq!(result.err(), Some(Errors::InvalidChecksum));
}

#[test]
fn empty_packet_is_rejected() {
    let mut bytes = Vec::from(UAS_LOCAL_SET_UNIVERSAL_LABEL);
    bytes.push(0);
    let result = KlvPacket::from_bytes(bytes.into());
    assert_eq!(result.err(), Some(Errors::InvalidChecksum));
}

#[test]
fn declared_length_past_the_buffer_is_rejected() {
    let mut bytes = packet_1();
    bytes[16] = 19;
    let result = KlvPacket::from_bytes(bytes.into());
    assert_eq!(result.err(), Some(Errors::OutOfData));
}

#[test]
fn huge_declared_length_is_rejected() {
    let good = packet_1();
    let mut bytes = good[..16].to_vec();
    bytes.extend_from_slice(&[0x88, 0xFF, 0xFF, 0xFF, 0xFF, 0xFF, 0xFF, 0xFF, 0xFF]);
    bytes.extend_from_slice(&good[17..]);
    let result = KlvPacket::from_bytes(bytes.into());
    assert!(result.is_err());
}

#[test]
fn long_form_packet_length_is_read() {
    let good = packet_1();
    let mut bytes = good[..16].to_vec();
    bytes.extend_from_slice(&[0x81, 18]);
    bytes.extend_from_slice(&good[17..33]);
    bytes.extend_from_slice(&[0, 0]);
    let checksum = KlvPacket::calculate_checksum(&bytes);
    assert_eq!(checksum, 58306);
    let end = bytes.len();
    bytes[end - 2..].copy_from_slice(&checksum.to_be_bytes());
    let packet = KlvPacket::from_bytes(bytes.into()).unwrap();
    assert_eq!(packet.checksum(), 58306);
    assert_eq!(packet.mission_id(), Some("ID".into()));
}

#[test]
fn wrong_width_is_out_of_bounds() {
    // A time stamp of seven bytes.
    let mut bytes = Vec::from(UAS_LOCAL_SET_UNIVERSAL_LABEL);
    bytes.extend_from_slice(&[13, 0x02, 0x07, 1, 2, 3, 4, 5, 6, 7, 0x01, 0x02, 0, 0]);
    let result = KlvPacket::from_bytes(bytes.into());
    assert_eq!(result.err(), Some(Errors::ValueOutOfBounds));
}

#[test]
fn invalid_text_is_rejected() {
    let bytes = packet_from_value(vec![0x03, 0x02, 0xC3, 0x28]);
    let result = KlvPacket::from_bytes(bytes.into());
    assert_eq!(result.err(), Some(Errors::InvalidUtf8));
}

#[test]
fn deferred_encoding_fails_when_strict() {
    let bytes = packet_from_value(vec![48, 0x02, 0x01, 0x00]);
    let result = KlvPacket::from_bytes(bytes.clone().into());
    assert_eq!(
        result.err(),
        Some(Errors::Unimplemented(KlvValueType::LocalSet))
    );
    let result = KlvPacket::from_bytes_with(&bytes, KeySearch::AtStart, Tolerance::Strict);
    assert_eq!(
        result.err(),
        Some(Errors::Unimplemented(KlvValueType::LocalSet))
    );
}

#[test]
fn deferred_encoding_gives_the_marker_when_tolerant() {
    let bytes = packet_from_value(vec![48, 0x02, 0x01, 0x00, 96, 0x01, 0x05]);
    let packet = KlvPacket::from_bytes_with(&bytes, KeySearch::AtStart, Tolerance::Tolerant).unwrap();
    assert_eq!(
        packet.tags(),
        vec![
            Tag::PrecisionTimeStamp,
            Tag::SecurityLocalSet,
            Tag::TargetWidthExtended,
            Tag::Checksum
        ]
    );
    let field = packet.get(Tag::SecurityLocalSet).unwrap();
    assert_eq!(field.tag(), Tag::SecurityLocalSet);
    assert_eq!(field.value(), &KlvValue::Unimplemented);
    let field = packet.get(Tag::TargetWidthExtended).unwrap();
    assert_eq!(field.value(), &KlvValue::Unimplemented);
    assert_eq!(packet.precision_time_stamp(), 4822678189205111);
}

#[test]
fn lookup_returns_the_first_of_two_fields() {
    let bytes = packet_from_value(vec![0x03, 0x02, b'I', b'D', 0x03, 0x03, b'T', b'W', b'O']);
    let packet = KlvPacket::from_bytes(bytes.into()).unwrap();
    assert_eq!(
        packet.tags(),
        vec![
            Tag::PrecisionTimeStamp,
            Tag::MissionID,
            Tag::MissionID,
            Tag::Checksum
        ]
    );
    assert_eq!(packet.mission_id(), Some("ID".into()));
    let field = packet.get_id(3).unwrap();
    assert_eq!(field.value(), &KlvValue::Utf8("ID".into()));
}

#[test]
fn first_checksum_field_is_the_declared_one() {
    // Two checksum fields. The last one holds the right sum, the first one
    // does not, and the first one is the one compared.
    let mut bytes = Vec::from(UAS_LOCAL_SET_UNIVERSAL_LABEL);
    bytes.extend_from_slice(&[8, 0x01, 0x02, 0x00, 0x00, 0x01, 0x02, 0x00, 0x00]);
    let sum = KlvPacket::calculate_checksum(&bytes);
    assert_eq!(sum, 21074);
    let end = bytes.len();
    bytes[end - 2..].copy_from_slice(&sum.to_be_bytes());
    let result = KlvPacket::from_bytes(bytes.into());
    assert_eq!(result.err(), Some(Errors::InvalidChecksum));
}

#[test]
fn get_and_get_id_agree() {
    let packet = KlvPacket::from_bytes(packet_1().into()).unwrap();
    let by_tag = packet.get(Tag::PrecisionTimeStamp).unwrap();
    let by_id = packet.get_id(2).unwrap();
    assert_eq!(by_tag.tag(), Tag::PrecisionTimeStamp);
    assert_eq!(by_id.tag(), Tag::PrecisionTimeStamp);
    assert_eq!(by_tag.value(), &KlvValue::Uint64(4822678189205111));
    assert_eq!(by_id.value(), by_tag.value());
    assert!(packet.get(Tag::SensorLatitude).is_none());
    assert!(packet.get_id(0).is_none());
    assert!(packet.get_id(1000).is_none());
    assert_eq!(
        packet.get(Tag::Checksum).unwrap().value(),
        &KlvValue::Uint16(47467)
    );
}

#[test]
fn field_that_runs_past_the_declared_end_is_still_read() {
    // The declared length stops two bytes short of the checksum value; the
    // last triple starts before the end and is read whole.
    let mut bytes = Vec::from(UAS_LOCAL_SET_UNIVERSAL_LABEL);
    bytes.push(16);
    bytes.extend_from_slice(&TIME_STAMP);
    bytes.extend_from_slice(&[0x03, 0x02, b'I', b'D', 0x01, 0x02, 0x00, 0x00]);
    // The sum runs over the declared span less its last two bytes.
    let sum = KlvPacket::calculate_checksum(&bytes[..33]);
    assert_eq!(sum, 46442);
    bytes[33..].copy_from_slice(&sum.to_be_bytes());
    let packet = KlvPacket::from_bytes(bytes.into()).unwrap();
    assert_eq!(packet.checksum(), 46442);
}
