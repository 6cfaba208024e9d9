//! The tag registry: every element of the UAS Datalink Local Set, with the
//! number that names it on the wire and the way its value is encoded.

use crate::klv_value::KlvValueType;
use vstd::prelude::*;
use vstd::std_specs::convert::FromSpecImpl;

verus! {

/// One element of the local set. `Unknown` stands for every number that names
/// no element.
#[derive(Clone, Copy, Debug, PartialEq, Eq, Structural)]
pub enum Tag {
    Unknown,
    Checksum,
    PrecisionTimeStamp,
    MissionID,
    PlatformTailNumber,
    PlatformHeadingAngle,
    PlatformPitchAngle,
    PlatformRollAngle,
    PlatformTrueAirspeed,
    PlatformIndicatedAirspeed,
    PlatformDesignation,
    ImageSourceSensor,
    ImageCoordinateSystem,
    SensorLatitude,
    SensorLongitude,
    SensorTrueAltitude,
    SensorHorizontalFieldOfView,
    SensorVerticalFieldOfView,
    SensorRelativeAzimuthAngle,
    SensorRelativeElevationAngle,
    SensorRelativeRollAngle,
    SlantRange,
    TargetWidth,
    FrameCenterLatitude,
    FrameCenterLongitude,
    FrameCenterElevation,
    OffsetCornerLatitudePoint1,
    OffsetCornerLongitudePoint1,
    OffsetCornerLatitudePoint2,
    OffsetCornerLongitudePoint2,
    OffsetCornerLatitudePoint3,
    OffsetCornerLongitudePoint3,
    OffsetCornerLatitudePoint4,
    OffsetCornerLongitudePoint4,
    IcingDetected,
    WindDirection,
    WindSpeed,
    StaticPressure,
    DensityAltitude,
    OutsideAirTemperature,
    TargetLocationLatitude,
    TargetLocationLongitude,
    TargetLocationElevation,
    TargetTrackGateWidth,
    TargetTrackGateHeight,
    TargetErrorEstimateCE90,
    TargetErrorEstimateLe90,
    GenericFlagData,
    SecurityLocalSet,
    DifferentialPressure,
    PlatformAngleOfAttack,
    PlatformVerticalSpeed,
    PlatformSideslipAngle,
    AirfieldBarometricPressure,
    AirfieldElevation,
    RelativeHumidity,
    PlatformGroundSpeed,
    GroundRange,
    PlatformFuelRemaining,
    PlatformCallSign,
    WeaponLoad,
    WeaponFired,
    LaserPrfCode,
    SensorFieldOfViewName,
    PlatformMagneticHeading,
    UasDatalinkLsVersionNumber,
    Deprecated,
    AlternatePlatformLatitude,
    AlternatePlatformLongitude,
    AlternatePlatformAltitude,
    AlternatePlatformName,
    AlternatePlatformHeading,
    EventStartTime,
    RvtLocalSet,
    VmtiLocalSet,
    SensorEllipsoidHeight,
    AlternatePlatformEllipsoidHeight,
    OperationalMode,
    FrameCenterHeightAboveEllipsoid,
    SensorNorthVelocity,
    SensorEastVelocity,
    ImageHorizonPixelPack,
    CornerLatitudePoint1Full,
    CornerLongitudePoint1Full,
    CornerLatitudePoint2Full,
    CornerLongitudePoint2Full,
    CornerLatitudePoint3Full,
    CornerLongitudePoint3Full,
    CornerLatitudePoint4Full,
    CornerLongitudePoint4Full,
    PlatformPitchAngleFull,
    PlatformRollAngleFull,
    PlatformAngleOfAttackFull,
    PlatformSideslipAngleFull,
    MiisCoreIdentifier,
    SarMotionImageryLocalSet,
    TargetWidthExtended,
    RangeImageLocalSet,
    GeoRegistrationLocalSet,
    CompositeImagingLocalSet,
    SegmentLocalSet,
    AmendLocalSet,
    SdccFlp,
    DensityAltitudeExtended,
    SensorEllipsoidHeightExtended,
    AlternatePlatformEllipsoidHeightExtended,
    StreamDesignator,
    OperationalBase,
    BroadcastSource,
    RangeToRecoveryLocation,
    TimeAirborne,
    PropulsionUnitSpeed,
    PlatformCourseAngle,
    AltitudeAgl,
    RadarAltimeter,
    ControlCommand,
    ControlCommandVerificationList,
    SensorAzimuthRate,
    SensorElevationRate,
    SensorRollRate,
    OnboardMiStoragePercentFull,
    ActiveWaypointList,
    CountryCodes,
    NumberOfNavsatsInView,
    PositionMethodSource,
    PlatformStatus,
    SensorControlMode,
    SensorFrameRatePack,
    WavelengthsList,
    TargetId,
    AirbaseLocations,
    TakeoffTime,
    TransmissionFrequency,
    OnboardMiStorageCapacity,
    ZoomPercentage,
    CommunicationsMethod,
    LeapSeconds,
    CorrectionOffset,
    PayloadList,
    ActivePayloads,
    WeaponStores,
    WaypointList,
    ViewDomain,
    MetadataSubstreamIdPack,
}

impl Tag {
    /// How many tags the registry holds, `Unknown` included.
    pub const COUNT: usize = 144;

    /// The number that names this tag on the wire; 0 for `Unknown`.
    pub open spec fn spec_id(self) -> usize {
        match self {
            Tag::Unknown => 0,
            Tag::Checksum => 1,
            Tag::PrecisionTimeStamp => 2,
            Tag::MissionID => 3,
            Tag::PlatformTailNumber => 4,
            Tag::PlatformHeadingAngle => 5,
            Tag::PlatformPitchAngle => 6,
            Tag::PlatformRollAngle => 7,
            Tag::PlatformTrueAirspeed => 8,
            Tag::PlatformIndicatedAirspeed => 9,
            Tag::PlatformDesignation => 10,
            Tag::ImageSourceSensor => 11,
            Tag::ImageCoordinateSystem => 12,
            Tag::SensorLatitude => 13,
            Tag::SensorLongitude => 14,
            Tag::SensorTrueAltitude => 15,
            Tag::SensorHorizontalFieldOfView => 16,
            Tag::SensorVerticalFieldOfView => 17,
            Tag::SensorRelativeAzimuthAngle => 18,
            Tag::SensorRelativeElevationAngle => 19,
            Tag::SensorRelativeRollAngle => 20,
            Tag::SlantRange => 21,
            Tag::TargetWidth => 22,
            Tag::FrameCenterLatitude => 23,
            Tag::FrameCenterLongitude => 24,
            Tag::FrameCenterElevation => 25,
            Tag::OffsetCornerLatitudePoint1 => 26,
            Tag::OffsetCornerLongitudePoint1 => 27,
            Tag::OffsetCornerLatitudePoint2 => 28,
            Tag::OffsetCornerLongitudePoint2 => 29,
            Tag::OffsetCornerLatitudePoint3 => 30,
            Tag::OffsetCornerLongitudePoint3 => 31,
            Tag::OffsetCornerLatitudePoint4 => 32,
            Tag::OffsetCornerLongitudePoint4 => 33,
            Tag::IcingDetected => 34,
            Tag::WindDirection => 35,
            Tag::WindSpeed => 36,
            Tag::StaticPressure => 37,
            Tag::DensityAltitude => 38,
            Tag::OutsideAirTemperature => 39,
            Tag::TargetLocationLatitude => 40,
            Tag::TargetLocationLongitude => 41,
            Tag::TargetLocationElevation => 42,
            Tag::TargetTrackGateWidth => 43,
            Tag::TargetTrackGateHeight => 44,
            Tag::TargetErrorEstimateCE90 => 45,
            Tag::TargetErrorEstimateLe90 => 46,
            Tag::GenericFlagData => 47,
            Tag::SecurityLocalSet => 48,
            Tag::DifferentialPressure => 49,
            Tag::PlatformAngleOfAttack => 50,
            Tag::PlatformVerticalSpeed => 51,
            Tag::PlatformSideslipAngle => 52,
            Tag::AirfieldBarometricPressure => 53,
            Tag::AirfieldElevation => 54,
            Tag::RelativeHumidity => 55,
            Tag::PlatformGroundSpeed => 56,
            Tag::GroundRange => 57,
            Tag::PlatformFuelRemaining => 58,
            Tag::PlatformCallSign => 59,
            Tag::WeaponLoad => 60,
            Tag::WeaponFired => 61,
            Tag::LaserPrfCode => 62,
            Tag::SensorFieldOfViewName => 63,
            Tag::PlatformMagneticHeading => 64,
            Tag::UasDatalinkLsVersionNumber => 65,
            Tag::Deprecated => 66,
            Tag::AlternatePlatformLatitude => 67,
            Tag::AlternatePlatformLongitude => 68,
            Tag::AlternatePlatformAltitude => 69,
            Tag::AlternatePlatformName => 70,
            Tag::AlternatePlatformHeading => 71,
            Tag::EventStartTime => 72,
            Tag::RvtLocalSet => 73,
            Tag::VmtiLocalSet => 74,
            Tag::SensorEllipsoidHeight => 75,
            Tag::AlternatePlatformEllipsoidHeight => 76,
            Tag::OperationalMode => 77,
            Tag::FrameCenterHeightAboveEllipsoid => 78,
            Tag::SensorNorthVelocity => 79,
            Tag::SensorEastVelocity => 80,
            Tag::ImageHorizonPixelPack => 81,
            Tag::CornerLatitudePoint1Full => 82,
            Tag::CornerLongitudePoint1Full => 83,
            Tag::CornerLatitudePoint2Full => 84,
            Tag::CornerLongitudePoint2Full => 85,
            Tag::CornerLatitudePoint3Full => 86,
            Tag::CornerLongitudePoint3Full => 87,
            Tag::CornerLatitudePoint4Full => 88,
            Tag::CornerLongitudePoint4Full => 89,
            Tag::PlatformPitchAngleFull => 90,
            Tag::PlatformRollAngleFull => 91,
            Tag::PlatformAngleOfAttackFull => 92,
            Tag::PlatformSideslipAngleFull => 93,
            Tag::MiisCoreIdentifier => 94,
            Tag::SarMotionImageryLocalSet => 95,
            Tag::TargetWidthExtended => 96,
            Tag::RangeImageLocalSet => 97,
            Tag::GeoRegistrationLocalSet => 98,
            Tag::CompositeImagingLocalSet => 99,
            Tag::SegmentLocalSet => 100,
            Tag::AmendLocalSet => 101,
            Tag::SdccFlp => 102,
            Tag::DensityAltitudeExtended => 103,
            Tag::SensorEllipsoidHeightExtended => 104,
            Tag::AlternatePlatformEllipsoidHeightExtended => 105,
            Tag::StreamDesignator => 106,
            Tag::OperationalBase => 107,
            Tag::BroadcastSource => 108,
            Tag::RangeToRecoveryLocation => 109,
            Tag::TimeAirborne => 110,
            Tag::PropulsionUnitSpeed => 111,
            Tag::PlatformCourseAngle => 112,
            Tag::AltitudeAgl => 113,
            Tag::RadarAltimeter => 114,
            Tag::ControlCommand => 115,
            Tag::ControlCommandVerificationList => 116,
            Tag::SensorAzimuthRate => 117,
            Tag::SensorElevationRate => 118,
            Tag::SensorRollRate => 119,
            Tag::OnboardMiStoragePercentFull => 120,
            Tag::ActiveWaypointList => 121,
            Tag::CountryCodes => 122,
            Tag::NumberOfNavsatsInView => 123,
            Tag::PositionMethodSource => 124,
            Tag::PlatformStatus => 125,
            Tag::SensorControlMode => 126,
            Tag::SensorFrameRatePack => 127,
            Tag::WavelengthsList => 128,
            Tag::TargetId => 129,
            Tag::AirbaseLocations => 130,
            Tag::TakeoffTime => 131,
            Tag::TransmissionFrequency => 132,
            Tag::OnboardMiStorageCapacity => 133,
            Tag::ZoomPercentage => 134,
            Tag::CommunicationsMethod => 135,
            Tag::LeapSeconds => 136,
            Tag::CorrectionOffset => 137,
            Tag::PayloadList => 138,
            Tag::ActivePayloads => 139,
            Tag::WeaponStores => 140,
            Tag::WaypointList => 141,
            Tag::ViewDomain => 142,
            Tag::MetadataSubstreamIdPack => 143,
        }
    }

    /// How the value of this tag is encoded.
    pub open spec fn spec_tag_type(self) -> KlvValueType {
        match self {
            Tag::Unknown => KlvValueType::Unknown,
            Tag::Checksum => KlvValueType::Uint16,
            Tag::PrecisionTimeStamp => KlvValueType::Uint64,
            Tag::MissionID => KlvValueType::Utf8,
            Tag::PlatformTailNumber => KlvValueType::Utf8,
            Tag::PlatformHeadingAngle => KlvValueType::Uint16,
            Tag::PlatformPitchAngle => KlvValueType::Int16,
            Tag::PlatformRollAngle => KlvValueType::Int16,
            Tag::PlatformTrueAirspeed => KlvValueType::Uint8,
            Tag::PlatformIndicatedAirspeed => KlvValueType::Uint8,
            Tag::PlatformDesignation => KlvValueType::Utf8,
            Tag::ImageSourceSensor => KlvValueType::Utf8,
            Tag::ImageCoordinateSystem => KlvValueType::Utf8,
            Tag::SensorLatitude => KlvValueType::Int32,
            Tag::SensorLongitude => KlvValueType::Int32,
            Tag::SensorTrueAltitude => KlvValueType::Uint16,
            Tag::SensorHorizontalFieldOfView => KlvValueType::Uint16,
            Tag::SensorVerticalFieldOfView => KlvValueType::Uint16,
            Tag::SensorRelativeAzimuthAngle => KlvValueType::Uint32,
            Tag::SensorRelativeElevationAngle => KlvValueType::Int32,
            Tag::SensorRelativeRollAngle => KlvValueType::Uint32,
            Tag::SlantRange => KlvValueType::Uint32,
            Tag::TargetWidth => KlvValueType::Uint16,
            Tag::FrameCenterLatitude => KlvValueType::Int32,
            Tag::FrameCenterLongitude => KlvValueType::Int32,
            Tag::FrameCenterElevation => KlvValueType::Uint16,
            Tag::OffsetCornerLatitudePoint1 => KlvValueType::Int16,
            Tag::OffsetCornerLongitudePoint1 => KlvValueType::Int16,
            Tag::OffsetCornerLatitudePoint2 => KlvValueType::Int16,
            Tag::OffsetCornerLongitudePoint2 => KlvValueType::Int16,
            Tag::OffsetCornerLatitudePoint3 => KlvValueType::Int16,
            Tag::OffsetCornerLongitudePoint3 => KlvValueType::Int16,
            Tag::OffsetCornerLatitudePoint4 => KlvValueType::Int16,
            Tag::OffsetCornerLongitudePoint4 => KlvValueType::Int16,
            Tag::IcingDetected => KlvValueType::Uint8,
            Tag::WindDirection => KlvValueType::Uint16,
            Tag::WindSpeed => KlvValueType::Uint8,
            Tag::StaticPressure => KlvValueType::Uint16,
            Tag::DensityAltitude => KlvValueType::Uint16,
            Tag::OutsideAirTemperature => KlvValueType::Int8,
            Tag::TargetLocationLatitude => KlvValueType::Int32,
            Tag::TargetLocationLongitude => KlvValueType::Int32,
            Tag::TargetLocationElevation => KlvValueType::Uint16,
            Tag::TargetTrackGateWidth => KlvValueType::Uint8,
            Tag::TargetTrackGateHeight => KlvValueType::Uint8,
            Tag::TargetErrorEstimateCE90 => KlvValueType::Uint16,
            Tag::TargetErrorEstimateLe90 => KlvValueType::Uint16,
            Tag::GenericFlagData => KlvValueType::Uint8,
            Tag::SecurityLocalSet => KlvValueType::LocalSet,
            Tag::DifferentialPressure => KlvValueType::Uint16,
            Tag::PlatformAngleOfAttack => KlvValueType::Int16,
            Tag::PlatformVerticalSpeed => KlvValueType::Int16,
            Tag::PlatformSideslipAngle => KlvValueType::Int16,
            Tag::AirfieldBarometricPressure => KlvValueType::Uint16,
            Tag::AirfieldElevation => KlvValueType::Uint16,
            Tag::RelativeHumidity => KlvValueType::Uint8,
            Tag::PlatformGroundSpeed => KlvValueType::Uint8,
            Tag::GroundRange => KlvValueType::Uint32,
            Tag::PlatformFuelRemaining => KlvValueType::Uint16,
            Tag::PlatformCallSign => KlvValueType::Utf8,
            Tag::WeaponLoad => KlvValueType::Uint16,
            Tag::WeaponFired => KlvValueType::Uint8,
            Tag::LaserPrfCode => KlvValueType::Uint16,
            Tag::SensorFieldOfViewName => KlvValueType::Uint8,
            Tag::PlatformMagneticHeading => KlvValueType::Uint16,
            Tag::UasDatalinkLsVersionNumber => KlvValueType::Uint8,
            Tag::Deprecated => KlvValueType::Deprecated,
            Tag::AlternatePlatformLatitude => KlvValueType::Int32,
            Tag::AlternatePlatformLongitude => KlvValueType::Int32,
            Tag::AlternatePlatformAltitude => KlvValueType::Uint16,
            Tag::AlternatePlatformName => KlvValueType::Utf8,
            Tag::AlternatePlatformHeading => KlvValueType::Uint16,
            Tag::EventStartTime => KlvValueType::Uint64,
            Tag::RvtLocalSet => KlvValueType::LocalSet,
            Tag::VmtiLocalSet => KlvValueType::LocalSet,
            Tag::SensorEllipsoidHeight => KlvValueType::Uint16,
            Tag::AlternatePlatformEllipsoidHeight => KlvValueType::Uint16,
            Tag::OperationalMode => KlvValueType::Uint8,
            Tag::FrameCenterHeightAboveEllipsoid => KlvValueType::Uint16,
            Tag::SensorNorthVelocity => KlvValueType::Int16,
            Tag::SensorEastVelocity => KlvValueType::Int16,
            Tag::ImageHorizonPixelPack => KlvValueType::DLP,
            Tag::CornerLatitudePoint1Full => KlvValueType::Int32,
            Tag::CornerLongitudePoint1Full => KlvValueType::Int32,
            Tag::CornerLatitudePoint2Full => KlvValueType::Int32,
            Tag::CornerLongitudePoint2Full => KlvValueType::Int32,
            Tag::CornerLatitudePoint3Full => KlvValueType::Int32,
            Tag::CornerLongitudePoint3Full => KlvValueType::Int32,
            Tag::CornerLatitudePoint4Full => KlvValueType::Int32,
            Tag::CornerLongitudePoint4Full => KlvValueType::Int32,
            Tag::PlatformPitchAngleFull => KlvValueType::Int32,
            Tag::PlatformRollAngleFull => KlvValueType::Int32,
            Tag::PlatformAngleOfAttackFull => KlvValueType::Int32,
            Tag::PlatformSideslipAngleFull => KlvValueType::Int32,
            Tag::MiisCoreIdentifier => KlvValueType::Byte,
            Tag::SarMotionImageryLocalSet => KlvValueType::LocalSet,
            Tag::TargetWidthExtended => KlvValueType::IMAPB,
            Tag::RangeImageLocalSet => KlvValueType::LocalSet,
            Tag::GeoRegistrationLocalSet => KlvValueType::LocalSet,
            Tag::CompositeImagingLocalSet => KlvValueType::LocalSet,
            Tag::SegmentLocalSet => KlvValueType::LocalSet,
            Tag::AmendLocalSet => KlvValueType::LocalSet,
            Tag::SdccFlp => KlvValueType::FLP,
            Tag::DensityAltitudeExtended => KlvValueType::IMAPB,
            Tag::SensorEllipsoidHeightExtended => KlvValueType::IMAPB,
            Tag::AlternatePlatformEllipsoidHeightExtended => KlvValueType::IMAPB,
            Tag::StreamDesignator => KlvValueType::Utf8,
            Tag::OperationalBase => KlvValueType::Utf8,
            Tag::BroadcastSource => KlvValueType::Utf8,
            Tag::RangeToRecoveryLocation => KlvValueType::IMAPB,
            Tag::TimeAirborne => KlvValueType::Uint,
            Tag::PropulsionUnitSpeed => KlvValueType::Uint,
            Tag::PlatformCourseAngle => KlvValueType::IMAPB,
            Tag::AltitudeAgl => KlvValueType::IMAPB,
            Tag::RadarAltimeter => KlvValueType::IMAPB,
            Tag::ControlCommand => KlvValueType::DLP,
            Tag::ControlCommandVerificationList => KlvValueType::DLP,
            Tag::SensorAzimuthRate => KlvValueType::IMAPB,
            Tag::SensorElevationRate => KlvValueType::IMAPB,
            Tag::SensorRollRate => KlvValueType::IMAPB,
            Tag::OnboardMiStoragePercentFull => KlvValueType::IMAPB,
            Tag::ActiveWaypointList => KlvValueType::DLP,
            Tag::CountryCodes => KlvValueType::VLP,
            Tag::NumberOfNavsatsInView => KlvValueType::Uint,
            Tag::PositionMethodSource => KlvValueType::Uint,
            Tag::PlatformStatus => KlvValueType::Uint,
            Tag::SensorControlMode => KlvValueType::Uint,
            Tag::SensorFrameRatePack => KlvValueType::DLP,
            Tag::WavelengthsList => KlvValueType::VLP,
            Tag::TargetId => KlvValueType::Utf8,
            Tag::AirbaseLocations => KlvValueType::VLP,
            Tag::TakeoffTime => KlvValueType::Uint,
            Tag::TransmissionFrequency => KlvValueType::IMAPB,
            Tag::OnboardMiStorageCapacity => KlvValueType::Uint,
            Tag::ZoomPercentage => KlvValueType::IMAPB,
            Tag::CommunicationsMethod => KlvValueType::Utf8,
            Tag::LeapSeconds => KlvValueType::Int,
            Tag::CorrectionOffset => KlvValueType::Int,
            Tag::PayloadList => KlvValueType::VLP,
            Tag::ActivePayloads => KlvValueType::Byte,
            Tag::WeaponStores => KlvValueType::VLP,
            Tag::WaypointList => KlvValueType::VLP,
            Tag::ViewDomain => KlvValueType::VLP,
            Tag::MetadataSubstreamIdPack => KlvValueType::Byte,
        }
    }

    /// The tag that `id` names; `Unknown` where it names none.
    pub open spec fn spec_from_id(id: usize) -> Tag {
        match id {
            1 => Tag::Checksum,
            2 => Tag::PrecisionTimeStamp,
            3 => Tag::MissionID,
            4 => Tag::PlatformTailNumber,
            5 => Tag::PlatformHeadingAngle,
            6 => Tag::PlatformPitchAngle,
            7 => Tag::PlatformRollAngle,
            8 => Tag::PlatformTrueAirspeed,
            9 => Tag::PlatformIndicatedAirspeed,
            10 => Tag::PlatformDesignation,
            11 => Tag::ImageSourceSensor,
            12 => Tag::ImageCoordinateSystem,
            13 => Tag::SensorLatitude,
            14 => Tag::SensorLongitude,
            15 => Tag::SensorTrueAltitude,
            16 => Tag::SensorHorizontalFieldOfView,
            17 => Tag::SensorVerticalFieldOfView,
            18 => Tag::SensorRelativeAzimuthAngle,
            19 => Tag::SensorRelativeElevationAngle,
            20 => Tag::SensorRelativeRollAngle,
            21 => Tag::SlantRange,
            22 => Tag::TargetWidth,
            23 => Tag::FrameCenterLatitude,
            24 => Tag::FrameCenterLongitude,
            25 => Tag::FrameCenterElevation,
            26 => Tag::OffsetCornerLatitudePoint1,
            27 => Tag::OffsetCornerLongitudePoint1,
            28 => Tag::OffsetCornerLatitudePoint2,
            29 => Tag::OffsetCornerLongitudePoint2,
            30 => Tag::OffsetCornerLatitudePoint3,
            31 => Tag::OffsetCornerLongitudePoint3,
            32 => Tag::OffsetCornerLatitudePoint4,
            33 => Tag::OffsetCornerLongitudePoint4,
            34 => Tag::IcingDetected,
            35 => Tag::WindDirection,
            36 => Tag::WindSpeed,
            37 => Tag::StaticPressure,
            38 => Tag::DensityAltitude,
            39 => Tag::OutsideAirTemperature,
            40 => Tag::TargetLocationLatitude,
            41 => Tag::TargetLocationLongitude,
            42 => Tag::TargetLocationElevation,
            43 => Tag::TargetTrackGateWidth,
            44 => Tag::TargetTrackGateHeight,
            45 => Tag::TargetErrorEstimateCE90,
            46 => Tag::TargetErrorEstimateLe90,
            47 => Tag::GenericFlagData,
            48 => Tag::SecurityLocalSet,
            49 => Tag::DifferentialPressure,
            50 => Tag::PlatformAngleOfAttack,
            51 => Tag::PlatformVerticalSpeed,
            52 => Tag::PlatformSideslipAngle,
            53 => Tag::AirfieldBarometricPressure,
            54 => Tag::AirfieldElevation,
            55 => Tag::RelativeHumidity,
            56 => Tag::PlatformGroundSpeed,
            57 => Tag::GroundRange,
            58 => Tag::PlatformFuelRemaining,
            59 => Tag::PlatformCallSign,
            60 => Tag::WeaponLoad,
            61 => Tag::WeaponFired,
            62 => Tag::LaserPrfCode,
            63 => Tag::SensorFieldOfViewName,
            64 => Tag::PlatformMagneticHeading,
            65 => Tag::UasDatalinkLsVersionNumber,
            66 => Tag::Deprecated,
            67 => Tag::AlternatePlatformLatitude,
            68 => Tag::AlternatePlatformLongitude,
            69 => Tag::AlternatePlatformAltitude,
            70 => Tag::AlternatePlatformName,
            71 => Tag::AlternatePlatformHeading,
            72 => Tag::EventStartTime,
            73 => Tag::RvtLocalSet,
            74 => Tag::VmtiLocalSet,
            75 => Tag::SensorEllipsoidHeight,
            76 => Tag::AlternatePlatformEllipsoidHeight,
            77 => Tag::OperationalMode,
            78 => Tag::FrameCenterHeightAboveEllipsoid,
            79 => Tag::SensorNorthVelocity,
            80 => Tag::SensorEastVelocity,
            81 => Tag::ImageHorizonPixelPack,
            82 => Tag::CornerLatitudePoint1Full,
            83 => Tag::CornerLongitudePoint1Full,
            84 => Tag::CornerLatitudePoint2Full,
            85 => Tag::CornerLongitudePoint2Full,
            86 => Tag::CornerLatitudePoint3Full,
            87 => Tag::CornerLongitudePoint3Full,
            88 => Tag::CornerLatitudePoint4Full,
            89 => Tag::CornerLongitudePoint4Full,
            90 => Tag::PlatformPitchAngleFull,
            91 => Tag::PlatformRollAngleFull,
            92 => Tag::PlatformAngleOfAttackFull,
            93 => Tag::PlatformSideslipAngleFull,
            94 => Tag::MiisCoreIdentifier,
            95 => Tag::SarMotionImageryLocalSet,
            96 => Tag::TargetWidthExtended,
            97 => Tag::RangeImageLocalSet,
            98 => Tag::GeoRegistrationLocalSet,
            99 => Tag::CompositeImagingLocalSet,
            100 => Tag::SegmentLocalSet,
            101 => Tag::AmendLocalSet,
            102 => Tag::SdccFlp,
            103 => Tag::DensityAltitudeExtended,
            104 => Tag::SensorEllipsoidHeightExtended,
            105 => Tag::AlternatePlatformEllipsoidHeightExtended,
            106 => Tag::StreamDesignator,
            107 => Tag::OperationalBase,
            108 => Tag::BroadcastSource,
            109 => Tag::RangeToRecoveryLocation,
            110 => Tag::TimeAirborne,
            111 => Tag::PropulsionUnitSpeed,
            112 => Tag::PlatformCourseAngle,
            113 => Tag::AltitudeAgl,
            114 => Tag::RadarAltimeter,
            115 => Tag::ControlCommand,
            116 => Tag::ControlCommandVerificationList,
            117 => Tag::SensorAzimuthRate,
            118 => Tag::SensorElevationRate,
            119 => Tag::SensorRollRate,
            120 => Tag::OnboardMiStoragePercentFull,
            121 => Tag::ActiveWaypointList,
            122 => Tag::CountryCodes,
            123 => Tag::NumberOfNavsatsInView,
            124 => Tag::PositionMethodSource,
            125 => Tag::PlatformStatus,
            126 => Tag::SensorControlMode,
            127 => Tag::SensorFrameRatePack,
            128 => Tag::WavelengthsList,
            129 => Tag::TargetId,
            130 => Tag::AirbaseLocations,
            131 => Tag::TakeoffTime,
            132 => Tag::TransmissionFrequency,
            133 => Tag::OnboardMiStorageCapacity,
            134 => Tag::ZoomPercentage,
            135 => Tag::CommunicationsMethod,
            136 => Tag::LeapSeconds,
            137 => Tag::CorrectionOffset,
            138 => Tag::PayloadList,
            139 => Tag::ActivePayloads,
            140 => Tag::WeaponStores,
            141 => Tag::WaypointList,
            142 => Tag::ViewDomain,
            143 => Tag::MetadataSubstreamIdPack,
            _ => Tag::Unknown,
        }
    }

    /// The largest number that names a tag.
    pub open spec fn spec_max_known_id() -> usize {
        143
    }

    #[verifier::when_used_as_spec(spec_max_known_id)]
    pub fn max_known_id() -> (max: usize)
        ensures
            max == Self::spec_max_known_id(),
    {
        143
    }

    #[verifier::when_used_as_spec(spec_id)]
    pub fn id(self) -> (id: usize)
        ensures
            id == self.spec_id(),
    {
        match self {
            Tag::Unknown => 0,
            Tag::Checksum => 1,
            Tag::PrecisionTimeStamp => 2,
            Tag::MissionID => 3,
            Tag::PlatformTailNumber => 4,
            Tag::PlatformHeadingAngle => 5,
            Tag::PlatformPitchAngle => 6,
            Tag::PlatformRollAngle => 7,
            Tag::PlatformTrueAirspeed => 8,
            Tag::PlatformIndicatedAirspeed => 9,
            Tag::PlatformDesignation => 10,
            Tag::ImageSourceSensor => 11,
            Tag::ImageCoordinateSystem => 12,
            Tag::SensorLatitude => 13,
            Tag::SensorLongitude => 14,
            Tag::SensorTrueAltitude => 15,
            Tag::SensorHorizontalFieldOfView => 16,
            Tag::SensorVerticalFieldOfView => 17,
            Tag::SensorRelativeAzimuthAngle => 18,
            Tag::SensorRelativeElevationAngle => 19,
            Tag::SensorRelativeRollAngle => 20,
            Tag::SlantRange => 21,
            Tag::TargetWidth => 22,
            Tag::FrameCenterLatitude => 23,
            Tag::FrameCenterLongitude => 24,
            Tag::FrameCenterElevation => 25,
            Tag::OffsetCornerLatitudePoint1 => 26,
            Tag::OffsetCornerLongitudePoint1 => 27,
            Tag::OffsetCornerLatitudePoint2 => 28,
            Tag::OffsetCornerLongitudePoint2 => 29,
            Tag::OffsetCornerLatitudePoint3 => 30,
            Tag::OffsetCornerLongitudePoint3 => 31,
            Tag::OffsetCornerLatitudePoint4 => 32,
            Tag::OffsetCornerLongitudePoint4 => 33,
            Tag::IcingDetected => 34,
            Tag::WindDirection => 35,
            Tag::WindSpeed => 36,
            Tag::StaticPressure => 37,
            Tag::DensityAltitude => 38,
            Tag::OutsideAirTemperature => 39,
            Tag::TargetLocationLatitude => 40,
            Tag::TargetLocationLongitude => 41,
            Tag::TargetLocationElevation => 42,
            Tag::TargetTrackGateWidth => 43,
            Tag::TargetTrackGateHeight => 44,
            Tag::TargetErrorEstimateCE90 => 45,
            Tag::TargetErrorEstimateLe90 => 46,
            Tag::GenericFlagData => 47,
            Tag::SecurityLocalSet => 48,
            Tag::DifferentialPressure => 49,
            Tag::PlatformAngleOfAttack => 50,
            Tag::PlatformVerticalSpeed => 51,
            Tag::PlatformSideslipAngle => 52,
            Tag::AirfieldBarometricPressure => 53,
            Tag::AirfieldElevation => 54,
            Tag::RelativeHumidity => 55,
            Tag::PlatformGroundSpeed => 56,
            Tag::GroundRange => 57,
            Tag::PlatformFuelRemaining => 58,
            Tag::PlatformCallSign => 59,
            Tag::WeaponLoad => 60,
            Tag::WeaponFired => 61,
            Tag::LaserPrfCode => 62,
            Tag::SensorFieldOfViewName => 63,
            Tag::PlatformMagneticHeading => 64,
            Tag::UasDatalinkLsVersionNumber => 65,
            Tag::Deprecated => 66,
            Tag::AlternatePlatformLatitude => 67,
            Tag::AlternatePlatformLongitude => 68,
            Tag::AlternatePlatformAltitude => 69,
            Tag::AlternatePlatformName => 70,
            Tag::AlternatePlatformHeading => 71,
            Tag::EventStartTime => 72,
            Tag::RvtLocalSet => 73,
            Tag::VmtiLocalSet => 74,
            Tag::SensorEllipsoidHeight => 75,
            Tag::AlternatePlatformEllipsoidHeight => 76,
            Tag::OperationalMode => 77,
            Tag::FrameCenterHeightAboveEllipsoid => 78,
            Tag::SensorNorthVelocity => 79,
            Tag::SensorEastVelocity => 80,
            Tag::ImageHorizonPixelPack => 81,
            Tag::CornerLatitudePoint1Full => 82,
            Tag::CornerLongitudePoint1Full => 83,
            Tag::CornerLatitudePoint2Full => 84,
            Tag::CornerLongitudePoint2Full => 85,
            Tag::CornerLatitudePoint3Full => 86,
            Tag::CornerLongitudePoint3Full => 87,
            Tag::CornerLatitudePoint4Full => 88,
            Tag::CornerLongitudePoint4Full => 89,
            Tag::PlatformPitchAngleFull => 90,
            Tag::PlatformRollAngleFull => 91,
            Tag::PlatformAngleOfAttackFull => 92,
            Tag::PlatformSideslipAngleFull => 93,
            Tag::MiisCoreIdentifier => 94,
            Tag::SarMotionImageryLocalSet => 95,
            Tag::TargetWidthExtended => 96,
            Tag::RangeImageLocalSet => 97,
            Tag::GeoRegistrationLocalSet => 98,
            Tag::CompositeImagingLocalSet => 99,
            Tag::SegmentLocalSet => 100,
            Tag::AmendLocalSet => 101,
            Tag::SdccFlp => 102,
            Tag::DensityAltitudeExtended => 103,
            Tag::SensorEllipsoidHeightExtended => 104,
            Tag::AlternatePlatformEllipsoidHeightExtended => 105,
            Tag::StreamDesignator => 106,
            Tag::OperationalBase => 107,
            Tag::BroadcastSource => 108,
            Tag::RangeToRecoveryLocation => 109,
            Tag::TimeAirborne => 110,
            Tag::PropulsionUnitSpeed => 111,
            Tag::PlatformCourseAngle => 112,
            Tag::AltitudeAgl => 113,
            Tag::RadarAltimeter => 114,
            Tag::ControlCommand => 115,
            Tag::ControlCommandVerificationList => 116,
            Tag::SensorAzimuthRate => 117,
            Tag::SensorElevationRate => 118,
            Tag::SensorRollRate => 119,
            Tag::OnboardMiStoragePercentFull => 120,
            Tag::ActiveWaypointList => 121,
            Tag::CountryCodes => 122,
            Tag::NumberOfNavsatsInView => 123,
            Tag::PositionMethodSource => 124,
            Tag::PlatformStatus => 125,
            Tag::SensorControlMode => 126,
            Tag::SensorFrameRatePack => 127,
            Tag::WavelengthsList => 128,
            Tag::TargetId => 129,
            Tag::AirbaseLocations => 130,
            Tag::TakeoffTime => 131,
            Tag::TransmissionFrequency => 132,
            Tag::OnboardMiStorageCapacity => 133,
            Tag::ZoomPercentage => 134,
            Tag::CommunicationsMethod => 135,
            Tag::LeapSeconds => 136,
            Tag::CorrectionOffset => 137,
            Tag::PayloadList => 138,
            Tag::ActivePayloads => 139,
            Tag::WeaponStores => 140,
            Tag::WaypointList => 141,
            Tag::ViewDomain => 142,
            Tag::MetadataSubstreamIdPack => 143,
        }
    }

    #[verifier::when_used_as_spec(spec_tag_type)]
    pub fn tag_type(self) -> (value_type: KlvValueType)
        ensures
            value_type == self.spec_tag_type(),
    {
        match self {
            Tag::Unknown => KlvValueType::Unknown,
            Tag::Checksum => KlvValueType::Uint16,
            Tag::PrecisionTimeStamp => KlvValueType::Uint64,
            Tag::MissionID => KlvValueType::Utf8,
            Tag::PlatformTailNumber => KlvValueType::Utf8,
            Tag::PlatformHeadingAngle => KlvValueType::Uint16,
            Tag::PlatformPitchAngle => KlvValueType::Int16,
            Tag::PlatformRollAngle => KlvValueType::Int16,
            Tag::PlatformTrueAirspeed => KlvValueType::Uint8,
            Tag::PlatformIndicatedAirspeed => KlvValueType::Uint8,
            Tag::PlatformDesignation => KlvValueType::Utf8,
            Tag::ImageSourceSensor => KlvValueType::Utf8,
            Tag::ImageCoordinateSystem => KlvValueType::Utf8,
            Tag::SensorLatitude => KlvValueType::Int32,
            Tag::SensorLongitude => KlvValueType::Int32,
            Tag::SensorTrueAltitude => KlvValueType::Uint16,
            Tag::SensorHorizontalFieldOfView => KlvValueType::Uint16,
            Tag::SensorVerticalFieldOfView => KlvValueType::Uint16,
            Tag::SensorRelativeAzimuthAngle => KlvValueType::Uint32,
            Tag::SensorRelativeElevationAngle => KlvValueType::Int32,
            Tag::SensorRelativeRollAngle => KlvValueType::Uint32,
            Tag::SlantRange => KlvValueType::Uint32,
            Tag::TargetWidth => KlvValueType::Uint16,
            Tag::FrameCenterLatitude => KlvValueType::Int32,
            Tag::FrameCenterLongitude => KlvValueType::Int32,
            Tag::FrameCenterElevation => KlvValueType::Uint16,
            Tag::OffsetCornerLatitudePoint1 => KlvValueType::Int16,
            Tag::OffsetCornerLongitudePoint1 => KlvValueType::Int16,
            Tag::OffsetCornerLatitudePoint2 => KlvValueType::Int16,
            Tag::OffsetCornerLongitudePoint2 => KlvValueType::Int16,
            Tag::OffsetCornerLatitudePoint3 => KlvValueType::Int16,
            Tag::OffsetCornerLongitudePoint3 => KlvValueType::Int16,
            Tag::OffsetCornerLatitudePoint4 => KlvValueType::Int16,
            Tag::OffsetCornerLongitudePoint4 => KlvValueType::Int16,
            Tag::IcingDetected => KlvValueType::Uint8,
            Tag::WindDirection => KlvValueType::Uint16,
            Tag::WindSpeed => KlvValueType::Uint8,
            Tag::StaticPressure => KlvValueType::Uint16,
            Tag::DensityAltitude => KlvValueType::Uint16,
            Tag::OutsideAirTemperature => KlvValueType::Int8,
            Tag::TargetLocationLatitude => KlvValueType::Int32,
            Tag::TargetLocationLongitude => KlvValueType::Int32,
            Tag::TargetLocationElevation => KlvValueType::Uint16,
            Tag::TargetTrackGateWidth => KlvValueType::Uint8,
            Tag::TargetTrackGateHeight => KlvValueType::Uint8,
            Tag::TargetErrorEstimateCE90 => KlvValueType::Uint16,
            Tag::TargetErrorEstimateLe90 => KlvValueType::Uint16,
            Tag::GenericFlagData => KlvValueType::Uint8,
            Tag::SecurityLocalSet => KlvValueType::LocalSet,
            Tag::DifferentialPressure => KlvValueType::Uint16,
            Tag::PlatformAngleOfAttack => KlvValueType::Int16,
            Tag::PlatformVerticalSpeed => KlvValueType::Int16,
            Tag::PlatformSideslipAngle => KlvValueType::Int16,
            Tag::AirfieldBarometricPressure => KlvValueType::Uint16,
            Tag::AirfieldElevation => KlvValueType::Uint16,
            Tag::RelativeHumidity => KlvValueType::Uint8,
            Tag::PlatformGroundSpeed => KlvValueType::Uint8,
            Tag::GroundRange => KlvValueType::Uint32,
            Tag::PlatformFuelRemaining => KlvValueType::Uint16,
            Tag::PlatformCallSign => KlvValueType::Utf8,
            Tag::WeaponLoad => KlvValueType::Uint16,
            Tag::WeaponFired => KlvValueType::Uint8,
            Tag::LaserPrfCode => KlvValueType::Uint16,
            Tag::SensorFieldOfViewName => KlvValueType::Uint8,
            Tag::PlatformMagneticHeading => KlvValueType::Uint16,
            Tag::UasDatalinkLsVersionNumber => KlvValueType::Uint8,
            Tag::Deprecated => KlvValueType::Deprecated,
            Tag::AlternatePlatformLatitude => KlvValueType::Int32,
            Tag::AlternatePlatformLongitude => KlvValueType::Int32,
            Tag::AlternatePlatformAltitude => KlvValueType::Uint16,
            Tag::AlternatePlatformName => KlvValueType::Utf8,
            Tag::AlternatePlatformHeading => KlvValueType::Uint16,
            Tag::EventStartTime => KlvValueType::Uint64,
            Tag::RvtLocalSet => KlvValueType::LocalSet,
            Tag::VmtiLocalSet => KlvValueType::LocalSet,
            Tag::SensorEllipsoidHeight => KlvValueType::Uint16,
            Tag::AlternatePlatformEllipsoidHeight => KlvValueType::Uint16,
            Tag::OperationalMode => KlvValueType::Uint8,
            Tag::FrameCenterHeightAboveEllipsoid => KlvValueType::Uint16,
            Tag::SensorNorthVelocity => KlvValueType::Int16,
            Tag::SensorEastVelocity => KlvValueType::Int16,
            Tag::ImageHorizonPixelPack => KlvValueType::DLP,
            Tag::CornerLatitudePoint1Full => KlvValueType::Int32,
            Tag::CornerLongitudePoint1Full => KlvValueType::Int32,
            Tag::CornerLatitudePoint2Full => KlvValueType::Int32,
            Tag::CornerLongitudePoint2Full => KlvValueType::Int32,
            Tag::CornerLatitudePoint3Full => KlvValueType::Int32,
            Tag::CornerLongitudePoint3Full => KlvValueType::Int32,
            Tag::CornerLatitudePoint4Full => KlvValueType::Int32,
            Tag::CornerLongitudePoint4Full => KlvValueType::Int32,
            Tag::PlatformPitchAngleFull => KlvValueType::Int32,
            Tag::PlatformRollAngleFull => KlvValueType::Int32,
            Tag::PlatformAngleOfAttackFull => KlvValueType::Int32,
            Tag::PlatformSideslipAngleFull => KlvValueType::Int32,
            Tag::MiisCoreIdentifier => KlvValueType::Byte,
            Tag::SarMotionImageryLocalSet => KlvValueType::LocalSet,
            Tag::TargetWidthExtended => KlvValueType::IMAPB,
            Tag::RangeImageLocalSet => KlvValueType::LocalSet,
            Tag::GeoRegistrationLocalSet => KlvValueType::LocalSet,
            Tag::CompositeImagingLocalSet => KlvValueType::LocalSet,
            Tag::SegmentLocalSet => KlvValueType::LocalSet,
            Tag::AmendLocalSet => KlvValueType::LocalSet,
            Tag::SdccFlp => KlvValueType::FLP,
            Tag::DensityAltitudeExtended => KlvValueType::IMAPB,
            Tag::SensorEllipsoidHeightExtended => KlvValueType::IMAPB,
            Tag::AlternatePlatformEllipsoidHeightExtended => KlvValueType::IMAPB,
            Tag::StreamDesignator => KlvValueType::Utf8,
            Tag::OperationalBase => KlvValueType::Utf8,
            Tag::BroadcastSource => KlvValueType::Utf8,
            Tag::RangeToRecoveryLocation => KlvValueType::IMAPB,
            Tag::TimeAirborne => KlvValueType::Uint,
            Tag::PropulsionUnitSpeed => KlvValueType::Uint,
            Tag::PlatformCourseAngle => KlvValueType::IMAPB,
            Tag::AltitudeAgl => KlvValueType::IMAPB,
            Tag::RadarAltimeter => KlvValueType::IMAPB,
            Tag::ControlCommand => KlvValueType::DLP,
            Tag::ControlCommandVerificationList => KlvValueType::DLP,
            Tag::SensorAzimuthRate => KlvValueType::IMAPB,
            Tag::SensorElevationRate => KlvValueType::IMAPB,
            Tag::SensorRollRate => KlvValueType::IMAPB,
            Tag::OnboardMiStoragePercentFull => KlvValueType::IMAPB,
            Tag::ActiveWaypointList => KlvValueType::DLP,
            Tag::CountryCodes => KlvValueType::VLP,
            Tag::NumberOfNavsatsInView => KlvValueType::Uint,
            Tag::PositionMethodSource => KlvValueType::Uint,
            Tag::PlatformStatus => KlvValueType::Uint,
            Tag::SensorControlMode => KlvValueType::Uint,
            Tag::SensorFrameRatePack => KlvValueType::DLP,
            Tag::WavelengthsList => KlvValueType::VLP,
            Tag::TargetId => KlvValueType::Utf8,
            Tag::AirbaseLocations => KlvValueType::VLP,
            Tag::TakeoffTime => KlvValueType::Uint,
            Tag::TransmissionFrequency => KlvValueType::IMAPB,
            Tag::OnboardMiStorageCapacity => KlvValueType::Uint,
            Tag::ZoomPercentage => KlvValueType::IMAPB,
            Tag::CommunicationsMethod => KlvValueType::Utf8,
            Tag::LeapSeconds => KlvValueType::Int,
            Tag::CorrectionOffset => KlvValueType::Int,
            Tag::PayloadList => KlvValueType::VLP,
            Tag::ActivePayloads => KlvValueType::Byte,
            Tag::WeaponStores => KlvValueType::VLP,
            Tag::WaypointList => KlvValueType::VLP,
            Tag::ViewDomain => KlvValueType::VLP,
            Tag::MetadataSubstreamIdPack => KlvValueType::Byte,
        }
    }

    #[verifier::when_used_as_spec(spec_from_id)]
    pub fn from_id(id: usize) -> (tag: Tag)
        ensures
            tag == Self::spec_from_id(id),
    {
        match id {
            1 => Tag::Checksum,
            2 => Tag::PrecisionTimeStamp,
            3 => Tag::MissionID,
            4 => Tag::PlatformTailNumber,
            5 => Tag::PlatformHeadingAngle,
            6 => Tag::PlatformPitchAngle,
            7 => Tag::PlatformRollAngle,
            8 => Tag::PlatformTrueAirspeed,
            9 => Tag::PlatformIndicatedAirspeed,
            10 => Tag::PlatformDesignation,
            11 => Tag::ImageSourceSensor,
            12 => Tag::ImageCoordinateSystem,
            13 => Tag::SensorLatitude,
            14 => Tag::SensorLongitude,
            15 => Tag::SensorTrueAltitude,
            16 => Tag::SensorHorizontalFieldOfView,
            17 => Tag::SensorVerticalFieldOfView,
            18 => Tag::SensorRelativeAzimuthAngle,
            19 => Tag::SensorRelativeElevationAngle,
            20 => Tag::SensorRelativeRollAngle,
            21 => Tag::SlantRange,
            22 => Tag::TargetWidth,
            23 => Tag::FrameCenterLatitude,
            24 => Tag::FrameCenterLongitude,
            25 => Tag::FrameCenterElevation,
            26 => Tag::OffsetCornerLatitudePoint1,
            27 => Tag::OffsetCornerLongitudePoint1,
            28 => Tag::OffsetCornerLatitudePoint2,
            29 => Tag::OffsetCornerLongitudePoint2,
            30 => Tag::OffsetCornerLatitudePoint3,
            31 => Tag::OffsetCornerLongitudePoint3,
            32 => Tag::OffsetCornerLatitudePoint4,
            33 => Tag::OffsetCornerLongitudePoint4,
            34 => Tag::IcingDetected,
            35 => Tag::WindDirection,
            36 => Tag::WindSpeed,
            37 => Tag::StaticPressure,
            38 => Tag::DensityAltitude,
            39 => Tag::OutsideAirTemperature,
            40 => Tag::TargetLocationLatitude,
            41 => Tag::TargetLocationLongitude,
            42 => Tag::TargetLocationElevation,
            43 => Tag::TargetTrackGateWidth,
            44 => Tag::TargetTrackGateHeight,
            45 => Tag::TargetErrorEstimateCE90,
            46 => Tag::TargetErrorEstimateLe90,
            47 => Tag::GenericFlagData,
            48 => Tag::SecurityLocalSet,
            49 => Tag::DifferentialPressure,
            50 => Tag::PlatformAngleOfAttack,
            51 => Tag::PlatformVerticalSpeed,
            52 => Tag::PlatformSideslipAngle,
            53 => Tag::AirfieldBarometricPressure,
            54 => Tag::AirfieldElevation,
            55 => Tag::RelativeHumidity,
            56 => Tag::PlatformGroundSpeed,
            57 => Tag::GroundRange,
            58 => Tag::PlatformFuelRemaining,
            59 => Tag::PlatformCallSign,
            60 => Tag::WeaponLoad,
            61 => Tag::WeaponFired,
            62 => Tag::LaserPrfCode,
            63 => Tag::SensorFieldOfViewName,
            64 => Tag::PlatformMagneticHeading,
            65 => Tag::UasDatalinkLsVersionNumber,
            66 => Tag::Deprecated,
            67 => Tag::AlternatePlatformLatitude,
            68 => Tag::AlternatePlatformLongitude,
            69 => Tag::AlternatePlatformAltitude,
            70 => Tag::AlternatePlatformName,
            71 => Tag::AlternatePlatformHeading,
            72 => Tag::EventStartTime,
            73 => Tag::RvtLocalSet,
            74 => Tag::VmtiLocalSet,
            75 => Tag::SensorEllipsoidHeight,
            76 => Tag::AlternatePlatformEllipsoidHeight,
            77 => Tag::OperationalMode,
            78 => Tag::FrameCenterHeightAboveEllipsoid,
            79 => Tag::SensorNorthVelocity,
            80 => Tag::SensorEastVelocity,
            81 => Tag::ImageHorizonPixelPack,
            82 => Tag::CornerLatitudePoint1Full,
            83 => Tag::CornerLongitudePoint1Full,
            84 => Tag::CornerLatitudePoint2Full,
            85 => Tag::CornerLongitudePoint2Full,
            86 => Tag::CornerLatitudePoint3Full,
            87 => Tag::CornerLongitudePoint3Full,
            88 => Tag::CornerLatitudePoint4Full,
            89 => Tag::CornerLongitudePoint4Full,
            90 => Tag::PlatformPitchAngleFull,
            91 => Tag::PlatformRollAngleFull,
            92 => Tag::PlatformAngleOfAttackFull,
            93 => Tag::PlatformSideslipAngleFull,
            94 => Tag::MiisCoreIdentifier,
            95 => Tag::SarMotionImageryLocalSet,
            96 => Tag::TargetWidthExtended,
            97 => Tag::RangeImageLocalSet,
            98 => Tag::GeoRegistrationLocalSet,
            99 => Tag::CompositeImagingLocalSet,
            100 => Tag::SegmentLocalSet,
            101 => Tag::AmendLocalSet,
            102 => Tag::SdccFlp,
            103 => Tag::DensityAltitudeExtended,
            104 => Tag::SensorEllipsoidHeightExtended,
            105 => Tag::AlternatePlatformEllipsoidHeightExtended,
            106 => Tag::StreamDesignator,
            107 => Tag::OperationalBase,
            108 => Tag::BroadcastSource,
            109 => Tag::RangeToRecoveryLocation,
            110 => Tag::TimeAirborne,
            111 => Tag::PropulsionUnitSpeed,
            112 => Tag::PlatformCourseAngle,
            113 => Tag::AltitudeAgl,
            114 => Tag::RadarAltimeter,
            115 => Tag::ControlCommand,
            116 => Tag::ControlCommandVerificationList,
            117 => Tag::SensorAzimuthRate,
            118 => Tag::SensorElevationRate,
            119 => Tag::SensorRollRate,
            120 => Tag::OnboardMiStoragePercentFull,
            121 => Tag::ActiveWaypointList,
            122 => Tag::CountryCodes,
            123 => Tag::NumberOfNavsatsInView,
            124 => Tag::PositionMethodSource,
            125 => Tag::PlatformStatus,
            126 => Tag::SensorControlMode,
            127 => Tag::SensorFrameRatePack,
            128 => Tag::WavelengthsList,
            129 => Tag::TargetId,
            130 => Tag::AirbaseLocations,
            131 => Tag::TakeoffTime,
            132 => Tag::TransmissionFrequency,
            133 => Tag::OnboardMiStorageCapacity,
            134 => Tag::ZoomPercentage,
            135 => Tag::CommunicationsMethod,
            136 => Tag::LeapSeconds,
            137 => Tag::CorrectionOffset,
            138 => Tag::PayloadList,
            139 => Tag::ActivePayloads,
            140 => Tag::WeaponStores,
            141 => Tag::WaypointList,
            142 => Tag::ViewDomain,
            143 => Tag::MetadataSubstreamIdPack,
            _ => Tag::Unknown,
        }
    }
}

impl From<usize> for Tag {
    /// The tag that `id` names; `Unknown` where it names none.
    fn from(id: usize) -> (tag: Tag) {
        Tag::from_id(id)
    }
}

impl FromSpecImpl<usize> for Tag {
    open spec fn obeys_from_spec() -> bool {
        true
    }

    open spec fn from_spec(id: usize) -> Tag {
        Tag::spec_from_id(id)
    }
}

impl From<Tag> for usize {
    /// The number that names `tag` on the wire.
    fn from(tag: Tag) -> (id: usize) {
        tag.id()
    }
}

impl FromSpecImpl<Tag> for usize {
    open spec fn obeys_from_spec() -> bool {
        true
    }

    open spec fn from_spec(tag: Tag) -> usize {
        tag.spec_id()
    }
}

impl From<Tag> for KlvValueType {
    /// How the value of `tag` is encoded.
    fn from(tag: Tag) -> (value_type: KlvValueType) {
        tag.tag_type()
    }
}

impl FromSpecImpl<Tag> for KlvValueType {
    open spec fn obeys_from_spec() -> bool {
        true
    }

    open spec fn from_spec(tag: Tag) -> KlvValueType {
        tag.spec_tag_type()
    }
}

/// Looking a tag up by its own number gives the tag back, and no tag has a
/// number above the largest known one.
pub proof fn lemma_tag_id_round_trip(tag: Tag)
    ensures
        Tag::spec_from_id(tag.spec_id()) == tag,
        tag.spec_id() <= Tag::spec_max_known_id(),
        tag.spec_id() == 0 <==> tag == Tag::Unknown,
{
}

/// A number names a tag exactly when it lies between 1 and the largest known
/// number; the tag then carries that number. Every other number gives
/// `Unknown`.
pub proof fn lemma_tag_lookup(id: usize)
    ensures
        1 <= id <= Tag::spec_max_known_id() ==> Tag::spec_from_id(id).spec_id() == id,
        (id == 0 || id > Tag::spec_max_known_id()) <==> Tag::spec_from_id(id) == Tag::Unknown,
{
}

} // verus!
