use klv_uas::klv_value::KlvValueType;
use klv_uas::tag::Tag;

#[test]
fn known_numbers_name_their_tags() {
    assert_eq!(Tag::from(1), Tag::Checksum);
    assert_eq!(Tag::from(2), Tag::PrecisionTimeStamp);
    assert_eq!(Tag::from(3), Tag::MissionID);
    assert_eq!(Tag::from(47), Tag::GenericFlagData);
    assert_eq!(Tag::from(66), Tag::Deprecated);
    assert_eq!(Tag::from(143), Tag::MetadataSubstreamIdPack);
    assert_eq!(Tag::from_id(94), Tag::MiisCoreIdentifier);
}

#[test]
fn other_numbers_are_unknown() {
    assert_eq!(Tag::from(0), Tag::Unknown);
    assert_eq!(Tag::from(144), Tag::Unknown);
    assert_eq!(Tag::from(145), Tag::Unknown);
    assert_eq!(Tag::from(usize::MAX), Tag::Unknown);
}

#[test]
fn every_number_round_trips() {
    for id in 1..=143usize {
        let tag = Tag::from(id);
        assert_ne!(tag, Tag::Unknown);
        assert_eq!(tag.id(), id);
        let back: usize = tag.into();
        assert_eq!(back, id);
    }
    assert_eq!(Tag::Unknown.id(), 0);
    assert_eq!(Tag::from(Tag::Unknown.id()), Tag::Unknown);
}

#[test]
fn registry_bounds() {
    assert_eq!(Tag::COUNT, 144);
    assert_eq!(Tag::max_known_id(), 143);
}

#[test]
fn tags_declare_their_encoding() {
    assert_eq!(Tag::Unknown.tag_type(), KlvValueType::Unknown);
    assert_eq!(Tag::Checksum.tag_type(), KlvValueType::Uint16);
    assert_eq!(Tag::PrecisionTimeStamp.tag_type(), KlvValueType::Uint64);
    assert_eq!(Tag::MissionID.tag_type(), KlvValueType::Utf8);
    assert_eq!(Tag::PlatformPitchAngle.tag_type(), KlvValueType::Int16);
    assert_eq!(Tag::PlatformTrueAirspeed.tag_type(), KlvValueType::Uint8);
    assert_eq!(Tag::SensorLatitude.tag_type(), KlvValueType::Int32);
    assert_eq!(Tag::SensorRelativeAzimuthAngle.tag_type(), KlvValueType::Uint32);
    assert_eq!(Tag::OutsideAirTemperature.tag_type(), KlvValueType::Int8);
    assert_eq!(Tag::SecurityLocalSet.tag_type(), KlvValueType::LocalSet);
    assert_eq!(Tag::Deprecated.tag_type(), KlvValueType::Deprecated);
    assert_eq!(Tag::ImageHorizonPixelPack.tag_type(), KlvValueType::DLP);
    assert_eq!(Tag::MiisCoreIdentifier.tag_type(), KlvValueType::Byte);
    assert_eq!(Tag::TargetWidthExtended.tag_type(), KlvValueType::IMAPB);
    assert_eq!(Tag::SdccFlp.tag_type(), KlvValueType::FLP);
    assert_eq!(Tag::TimeAirborne.tag_type(), KlvValueType::Uint);
    assert_eq!(Tag::CountryCodes.tag_type(), KlvValueType::VLP);
    assert_eq!(Tag::LeapSeconds.tag_type(), KlvValueType::Int);
    let value_type: KlvValueType = Tag::WindSpeed.into();
    assert_eq!(value_type, KlvValueType::Uint8);
}
