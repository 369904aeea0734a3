use orbbec_sdk::sys::enums::{
    OBAlignMode, OBConvertFormat, OBCoordinateSystem, OBDeviceType, OBExceptionType,
    OBFilterConfigValueType, OBFormat, OBFrameAggregateOutputMode, OBHoleFillMode, OBLogSeverity,
    OBPermissionType, OBPropertyID, OBSensorType, OBStreamType,
};
use orbbec_sdk::{Format, LogSeverity, SensorType};

#[test]
fn format_codes_are_those_of_the_native_interface() {
    assert_eq!(OBFormat::Unknown.code(), -1);
    assert_eq!(OBFormat::YUYV.code(), 0);
    assert_eq!(OBFormat::MJPG.code(), 5);
    assert_eq!(OBFormat::Y16.code(), 8);
    assert_eq!(OBFormat::Gyro.code(), 17);
    assert_eq!(OBFormat::Point.code(), 19);
    assert_eq!(OBFormat::RGBPoint.code(), 20);
    assert_eq!(OBFormat::RGB.code(), 22);
    assert_eq!(OBFormat::Y12C4.code(), 34);
}

#[test]
fn format_round_trips_through_its_code() {
    for code in -5..60 {
        let format = OBFormat::from(code);
        if format != OBFormat::Unknown {
            assert_eq!(format.code(), code);
        }
    }
    assert_eq!(OBFormat::from(8), OBFormat::Y16);
    assert_eq!(OBFormat::from(5), OBFormat::MJPG);
    assert_eq!(OBFormat::from(OBFormat::BA81.code()), OBFormat::BA81);
}

#[test]
fn format_of_unused_code_is_unknown() {
    assert_eq!(OBFormat::from(18), OBFormat::Unknown);
    assert_eq!(OBFormat::from(35), OBFormat::Unknown);
    assert_eq!(OBFormat::from(-1), OBFormat::Unknown);
    assert_eq!(OBFormat::from(i32::MAX), OBFormat::Unknown);
    assert_eq!(OBFormat::from(i32::MIN), OBFormat::Unknown);
}

#[test]
fn exception_type_of_each_code() {
    assert_eq!(OBExceptionType::from(0), OBExceptionType::Unknown);
    assert_eq!(OBExceptionType::from(1), OBExceptionType::StdException);
    assert_eq!(OBExceptionType::from(2), OBExceptionType::CameraDisconnected);
    assert_eq!(OBExceptionType::from(3), OBExceptionType::PlatformException);
    assert_eq!(OBExceptionType::from(4), OBExceptionType::InvalidValue);
    assert_eq!(OBExceptionType::from(5), OBExceptionType::WrongAPICallSequence);
    assert_eq!(OBExceptionType::from(6), OBExceptionType::NotImplemented);
    assert_eq!(OBExceptionType::from(7), OBExceptionType::IOException);
    assert_eq!(OBExceptionType::from(8), OBExceptionType::MemoryException);
    assert_eq!(OBExceptionType::from(9), OBExceptionType::UnsupportedOperation);
    assert_eq!(OBExceptionType::from(10), OBExceptionType::Unknown);
    assert_eq!(OBExceptionType::UnsupportedOperation.code(), 9);
}

#[test]
fn filter_value_type_of_each_code() {
    assert_eq!(OBFilterConfigValueType::from(-1), OBFilterConfigValueType::Invalid);
    assert_eq!(OBFilterConfigValueType::from(0), OBFilterConfigValueType::Int);
    assert_eq!(OBFilterConfigValueType::from(1), OBFilterConfigValueType::Float);
    assert_eq!(OBFilterConfigValueType::from(2), OBFilterConfigValueType::Bool);
    assert_eq!(OBFilterConfigValueType::from(3), OBFilterConfigValueType::Invalid);
    assert_eq!(OBFilterConfigValueType::Bool.code(), 2);
}

#[test]
fn device_type_of_each_code() {
    assert_eq!(OBDeviceType::from(-1), OBDeviceType::Unknown);
    assert_eq!(OBDeviceType::from(0), OBDeviceType::SLMonocularCamera);
    assert_eq!(OBDeviceType::from(1), OBDeviceType::SLBinocularCamera);
    assert_eq!(OBDeviceType::from(2), OBDeviceType::TOFCamera);
    assert_eq!(OBDeviceType::from(3), OBDeviceType::Unknown);
    assert_eq!(OBDeviceType::TOFCamera.code(), 2);
}

#[test]
fn log_severity_of_each_code() {
    assert_eq!(OBLogSeverity::from_code(0), Some(OBLogSeverity::Debug));
    assert_eq!(OBLogSeverity::from_code(1), Some(OBLogSeverity::Info));
    assert_eq!(OBLogSeverity::from_code(2), Some(OBLogSeverity::Warn));
    assert_eq!(OBLogSeverity::from_code(3), Some(OBLogSeverity::Error));
    assert_eq!(OBLogSeverity::from_code(4), Some(OBLogSeverity::Fatal));
    assert_eq!(OBLogSeverity::from_code(5), Some(OBLogSeverity::Off));
    assert_eq!(OBLogSeverity::from_code(6), None);
    assert_eq!(OBLogSeverity::from_code(-1), None);
    assert_eq!(LogSeverity::Fatal.code(), 4);
}

#[test]
fn small_enums_have_their_codes() {
    assert_eq!(OBSensorType::Unknown.code(), 0);
    assert_eq!(OBSensorType::Infrared.code(), 1);
    assert_eq!(OBSensorType::Color.code(), 2);
    assert_eq!(OBSensorType::Depth.code(), 3);
    assert_eq!(OBSensorType::Confidence.code(), 9);
    assert_eq!(OBStreamType::Unknown.code(), -1);
    assert_eq!(OBStreamType::Video.code(), 0);
    assert_eq!(OBStreamType::Color.code(), 2);
    assert_eq!(OBStreamType::Depth.code(), 3);
    assert_eq!(OBStreamType::Confidence.code(), 9);
    assert_eq!(OBPermissionType::Read.code(), 1);
    assert_eq!(OBPermissionType::Write.code(), 2);
    assert_eq!(OBPermissionType::ReadWrite.code(), 3);
    assert_eq!(OBHoleFillMode::Top.code(), 0);
    assert_eq!(OBHoleFillMode::Nearest.code(), 1);
    assert_eq!(OBHoleFillMode::Farthest.code(), 2);
    assert_eq!(OBCoordinateSystem::LeftHanded.code(), 0);
    assert_eq!(OBCoordinateSystem::RightHanded.code(), 1);
    assert_eq!(OBAlignMode::Disable.code(), 0);
    assert_eq!(OBAlignMode::Hardware.code(), 1);
    assert_eq!(OBAlignMode::Software.code(), 2);
    assert_eq!(OBFrameAggregateOutputMode::AllTypeFrameRequire.code(), 0);
    assert_eq!(OBFrameAggregateOutputMode::ColorFrameRequire.code(), 1);
    assert_eq!(OBFrameAggregateOutputMode::AnySituation.code(), 2);
    assert_eq!(OBFrameAggregateOutputMode::Disable.code(), 3);
    assert_eq!(OBConvertFormat::YUYVToRGB.code(), 0);
    assert_eq!(OBConvertFormat::MJPGToRGB.code(), 7);
    assert_eq!(OBConvertFormat::Y8ToRGB.code(), 21);
}

#[test]
fn property_identifiers_have_their_codes() {
    assert_eq!(OBPropertyID::LDPBool.code(), 2);
    assert_eq!(OBPropertyID::LaserCurrentFloat.code(), 5);
    assert_eq!(OBPropertyID::MinDepthInt.code(), 22);
    assert_eq!(OBPropertyID::DepthAlignHardwareBool.code(), 42);
    assert_eq!(OBPropertyID::HWNoiseRemoveFilterEnableBool.code(), 211);
    assert_eq!(OBPropertyID::HWNoiseRemoveFilterThresholdFloat.code(), 212);
    assert_eq!(OBPropertyID::ColorAutoExposureBool.code(), 2000);
    assert_eq!(OBPropertyID::ColorExposureInt.code(), 2001);
    assert_eq!(OBPropertyID::DepthGainInt.code(), 2018);
    assert_eq!(OBPropertyID::SDKDisparityToDepthBool.code(), 3004);
    assert_eq!(OBPropertyID::RawDataCameraCalibJsonFile.code(), 4029);
    assert_eq!(OBPropertyID::DebugESGMConfidenceFloat.code(), 5013);
}

#[test]
fn reexported_names_are_the_same_types() {
    let format: Format = OBFormat::Y16;
    let sensor: SensorType = OBSensorType::Depth;
    assert_eq!(format, Format::Y16);
    assert_eq!(sensor.code(), 3);
}
