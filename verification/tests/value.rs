use klv_uas::klv::Klv;
use klv_uas::klv_value::{KlvValue, KlvValueType, Tolerance};
use klv_uas::tag::Tag;
use klv_uas::Errors;

fn decode(tag: Tag, bytes: &[u8]) -> Result<KlvValue, Errors> {
    let boxed: Box<[u8]> = bytes.into();
    let strict = KlvValue::from_bytes(tag, &boxed);
    assert_eq!(
        strict,
        KlvValue::from_bytes_with(tag, bytes, Tolerance::Strict)
    );
    strict
}

#[test]
fn unsigned_fixed_widths() {
    assert_eq!(decode(Tag::PlatformTrueAirspeed, &[0xFE]), Ok(KlvValue::Uint8(254)));
    assert_eq!(decode(Tag::Checksum, &[0x12, 0x34]), Ok(KlvValue::Uint16(0x1234)));
    assert_eq!(decode(Tag::Checksum, &[0xFF, 0xFF]), Ok(KlvValue::Uint16(65535)));
    assert_eq!(
        decode(Tag::SlantRange, &[0x12, 0x34, 0x56, 0x78]),
        Ok(KlvValue::Uint32(305419896))
    );
    assert_eq!(
        decode(Tag::PrecisionTimeStamp, &[1, 2, 3, 4, 5, 6, 7, 8]),
        Ok(KlvValue::Uint64(72623859790382856))
    );
    assert_eq!(
        decode(Tag::PrecisionTimeStamp, &[0xFF; 8]),
        Ok(KlvValue::Uint64(u64::MAX))
    );
}

#[test]
fn signed_fixed_widths() {
    assert_eq!(decode(Tag::OutsideAirTemperature, &[0xFF]), Ok(KlvValue::Int8(-1)));
    assert_eq!(decode(Tag::OutsideAirTemperature, &[0x80]), Ok(KlvValue::Int8(-128)));
    assert_eq!(decode(Tag::OutsideAirTemperature, &[0x7F]), Ok(KlvValue::Int8(127)));
    assert_eq!(decode(Tag::PlatformPitchAngle, &[0x80, 0x01]), Ok(KlvValue::Int16(-32767)));
    assert_eq!(decode(Tag::PlatformPitchAngle, &[0x00, 0x80]), Ok(KlvValue::Int16(128)));
    assert_eq!(
        decode(Tag::SensorLatitude, &[0xFE, 0xDC, 0xBA, 0x98]),
        Ok(KlvValue::Int32(-19088744))
    );
    assert_eq!(
        decode(Tag::SensorLatitude, &[0x7F, 0xFF, 0xFF, 0xFF]),
        Ok(KlvValue::Int32(i32::MAX))
    );
}

#[test]
fn fixed_width_takes_exactly_its_width() {
    for (tag, width) in [
        (Tag::PlatformTrueAirspeed, 1usize),
        (Tag::Checksum, 2),
        (Tag::SlantRange, 4),
        (Tag::PrecisionTimeStamp, 8),
        (Tag::OutsideAirTemperature, 1),
        (Tag::PlatformPitchAngle, 2),
        (Tag::SensorLatitude, 4),
    ] {
        for len in 0..12usize {
            let bytes = vec![0x01; len];
            let result = decode(tag, &bytes);
            if len == width {
                assert!(result.is_ok(), "{tag:?} of {len} bytes");
            } else {
                assert_eq!(result, Err(Errors::ValueOutOfBounds), "{tag:?} of {len} bytes");
            }
        }
    }
}

#[test]
fn unsigned_of_any_width() {
    assert_eq!(decode(Tag::TimeAirborne, &[]), Ok(KlvValue::Uint(0)));
    assert_eq!(decode(Tag::TimeAirborne, &[0x2A]), Ok(KlvValue::Uint(42)));
    assert_eq!(decode(Tag::TimeAirborne, &[0x01, 0x00, 0x00]), Ok(KlvValue::Uint(65536)));
    assert_eq!(decode(Tag::TimeAirborne, &[0xFF; 8]), Ok(KlvValue::Uint(u64::MAX)));
    assert_eq!(
        decode(Tag::TimeAirborne, &[0, 0, 0, 1, 2, 3, 4, 5, 6, 7, 8]),
        Ok(KlvValue::Uint(72623859790382856))
    );
    assert_eq!(decode(Tag::TimeAirborne, &[0; 20]), Ok(KlvValue::Uint(0)));
    assert_eq!(
        decode(Tag::TimeAirborne, &[1, 0, 0, 0, 0, 0, 0, 0, 0]),
        Err(Errors::ValueOutOfBounds)
    );
    assert_eq!(
        decode(Tag::TimeAirborne, &[0, 0xFF, 0, 0, 0, 0, 0, 0, 0, 0]),
        Err(Errors::ValueOutOfBounds)
    );
}

#[test]
fn signed_of_any_width() {
    assert_eq!(decode(Tag::LeapSeconds, &[]), Ok(KlvValue::Int(0)));
    assert_eq!(decode(Tag::LeapSeconds, &[0x25]), Ok(KlvValue::Int(37)));
    assert_eq!(decode(Tag::LeapSeconds, &[0xFF]), Ok(KlvValue::Int(-1)));
    assert_eq!(decode(Tag::LeapSeconds, &[0xFF, 0x7F]), Ok(KlvValue::Int(-129)));
    assert_eq!(decode(Tag::LeapSeconds, &[0x00, 0x80]), Ok(KlvValue::Int(128)));
    assert_eq!(
        decode(Tag::LeapSeconds, &[0x80, 0, 0, 0, 0, 0, 0, 0]),
        Ok(KlvValue::Int(i64::MIN))
    );
    assert_eq!(
        decode(Tag::LeapSeconds, &[0x7F, 0xFF, 0xFF, 0xFF, 0xFF, 0xFF, 0xFF, 0xFF]),
        Ok(KlvValue::Int(i64::MAX))
    );
    assert_eq!(
        decode(Tag::LeapSeconds, &[0xFF, 0xFF, 0xFF, 0x80, 0, 0, 0, 0, 0, 0, 0]),
        Ok(KlvValue::Int(i64::MIN))
    );
    assert_eq!(
        decode(Tag::LeapSeconds, &[0, 0, 0x7F, 0xFF, 0xFF, 0xFF, 0xFF, 0xFF, 0xFF, 0xFF]),
        Ok(KlvValue::Int(i64::MAX))
    );
    assert_eq!(decode(Tag::LeapSeconds, &[0xFF; 12]), Ok(KlvValue::Int(-1)));
    assert_eq!(decode(Tag::LeapSeconds, &[0; 12]), Ok(KlvValue::Int(0)));
    assert_eq!(
        decode(Tag::LeapSeconds, &[0x00, 0x80, 0, 0, 0, 0, 0, 0, 0]),
        Err(Errors::ValueOutOfBounds)
    );
    assert_eq!(
        decode(Tag::LeapSeconds, &[0xFF, 0x7F, 0xFF, 0xFF, 0xFF, 0xFF, 0xFF, 0xFF, 0xFF]),
        Err(Errors::ValueOutOfBounds)
    );
    assert_eq!(
        decode(Tag::LeapSeconds, &[0x01, 0, 0, 0, 0, 0, 0, 0, 0]),
        Err(Errors::ValueOutOfBounds)
    );
    assert_eq!(
        decode(Tag::LeapSeconds, &[0xFE, 0, 0, 0, 0, 0, 0, 0, 0]),
        Err(Errors::ValueOutOfBounds)
    );
}

#[test]
fn text_is_utf8() {
    assert_eq!(decode(Tag::MissionID, b"ID"), Ok(KlvValue::Utf8("ID".into())));
    assert_eq!(decode(Tag::MissionID, b""), Ok(KlvValue::Utf8("".into())));
    assert_eq!(
        decode(Tag::MissionID, "Zoë ✈".as_bytes()),
        Ok(KlvValue::Utf8("Zoë ✈".into()))
    );
    assert_eq!(decode(Tag::MissionID, &[0xC3, 0x28]), Err(Errors::InvalidUtf8));
    assert_eq!(decode(Tag::MissionID, &[0xFF]), Err(Errors::InvalidUtf8));
    assert_eq!(decode(Tag::MissionID, &[b'a', 0xE2, 0x82]), Err(Errors::InvalidUtf8));
}

#[test]
fn deferred_encodings_follow_the_tolerance() {
    for (tag, value_type) in [
        (Tag::SecurityLocalSet, KlvValueType::LocalSet),
        (Tag::ImageHorizonPixelPack, KlvValueType::DLP),
        (Tag::CountryCodes, KlvValueType::VLP),
        (Tag::SdccFlp, KlvValueType::FLP),
        (Tag::TargetWidthExtended, KlvValueType::IMAPB),
        (Tag::MiisCoreIdentifier, KlvValueType::Byte),
    ] {
        assert_eq!(tag.tag_type(), value_type);
        assert_eq!(
            decode(tag, &[1, 2, 3]),
            Err(Errors::Unimplemented(value_type))
        );
        assert_eq!(
            KlvValue::from_bytes_with(tag, &[1, 2, 3], Tolerance::Tolerant),
            Ok(KlvValue::Unimplemented)
        );
    }
}

#[test]
fn tolerance_changes_nothing_else() {
    assert_eq!(
        KlvValue::from_bytes_with(Tag::Checksum, &[0, 7], Tolerance::Tolerant),
        Ok(KlvValue::Uint16(7))
    );
    assert_eq!(
        KlvValue::from_bytes_with(Tag::Checksum, &[7], Tolerance::Tolerant),
        Err(Errors::ValueOutOfBounds)
    );
    assert_eq!(
        KlvValue::from_bytes_with(Tag::Unknown, &[7], Tolerance::Tolerant),
        Err(Errors::UnsupportedTag(0))
    );
}

#[test]
fn tags_without_an_encoding_are_refused() {
    assert_eq!(decode(Tag::Unknown, &[1]), Err(Errors::UnsupportedTag(0)));
    assert_eq!(decode(Tag::Deprecated, &[1]), Err(Errors::UnsupportedTag(66)));
}

#[test]
fn field_from_number_and_bytes() {
    let field = Klv::new(2, Box::new([0, 0, 0, 0, 0, 0, 1, 0])).unwrap();
    assert_eq!(field.tag(), Tag::PrecisionTimeStamp);
    assert_eq!(field.value(), &KlvValue::Uint64(256));
    let copy = field.clone();
    assert_eq!(copy.tag(), field.tag());
    assert_eq!(copy.value(), field.value());
}

#[test]
fn field_of_unknown_number_is_refused() {
    assert_eq!(Klv::new(0, Box::new([1])).err(), Some(Errors::UnsupportedTag(0)));
    assert_eq!(Klv::new(66, Box::new([1])).err(), Some(Errors::UnsupportedTag(66)));
    assert_eq!(Klv::new(144, Box::new([1])).err(), Some(Errors::UnsupportedTag(144)));
    assert_eq!(
        Klv::new(usize::MAX, Box::new([1])).err(),
        Some(Errors::UnsupportedTag(usize::MAX))
    );
}

#[test]
fn field_follows_the_tolerance() {
    assert_eq!(
        Klv::new(48, Box::new([1])).err(),
        Some(Errors::Unimplemented(KlvValueType::LocalSet))
    );
    let field = Klv::new_with(48, &[1], Tolerance::Tolerant).unwrap();
    assert_eq!(field.tag(), Tag::SecurityLocalSet);
    assert_eq!(field.value(), &KlvValue::Unimplemented);
    assert_eq!(
        Klv::new_with(3, &[0xFF], Tolerance::Tolerant).err(),
        Some(Errors::InvalidUtf8)
    );
}

#[test]
fn value_clone_is_equal() {
    for value in [
        KlvValue::Unimplemented,
        KlvValue::Int(-5),
        KlvValue::Uint64(9),
        KlvValue::Utf8("text".into()),
    ] {
        assert_eq!(value.clone(), value);
    }
}
