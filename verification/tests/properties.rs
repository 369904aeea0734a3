use orbbec_sdk::device::device_property::{DeviceProperty, PropertyValue};
use orbbec_sdk::sys::enums::OBPropertyID;
use orbbec_sdk::sys::Float32;

#[test]
fn decompose_gives_identifier_and_value() {
    let mut property = DeviceProperty::MaxDepth(4000);
    let (id, value) = property.decompose();
    assert_eq!(id, OBPropertyID::MaxDepthInt);
    match value {
        PropertyValue::Int(slot) => assert_eq!(*slot, 4000),
        _ => panic!("an integer property gave another kind of value"),
    }
}

#[test]
fn decompose_gives_each_kind_its_slot() {
    let mut switch = DeviceProperty::ColorAutoExposure(true);
    let (id, value) = switch.decompose();
    assert_eq!(id, OBPropertyID::ColorAutoExposureBool);
    assert!(matches!(value, PropertyValue::Bool(slot) if *slot));

    let mut float = DeviceProperty::DebugESGMConfidence(Float32::from_bits(0x3F000000));
    let (id, value) = float.decompose();
    assert_eq!(id, OBPropertyID::DebugESGMConfidenceFloat);
    assert!(matches!(value, PropertyValue::Float(slot) if slot.to_bits() == 0x3F000000));

    let mut file = DeviceProperty::RawDataCameraCalibJsonFile(3);
    let (id, value) = file.decompose();
    assert_eq!(id, OBPropertyID::RawDataCameraCalibJsonFile);
    assert!(matches!(value, PropertyValue::Int(slot) if *slot == 3));
}

#[test]
fn decompose_slot_writes_into_the_property() {
    let mut property = DeviceProperty::LaserPulseWidth(1);
    {
        let (_, value) = property.decompose();
        if let PropertyValue::Int(slot) = value {
            *slot = 99;
        }
    }
    assert_eq!(property, DeviceProperty::LaserPulseWidth(99));

    let mut switch = DeviceProperty::Heartbeat(false);
    {
        let (_, value) = switch.decompose();
        if let PropertyValue::Bool(slot) = value {
            *slot = true;
        }
    }
    assert_eq!(switch, DeviceProperty::Heartbeat(true));

    let mut float = DeviceProperty::DepthUnitFlexibleAdjustment(Float32::from_bits(0));
    {
        let (_, value) = float.decompose();
        if let PropertyValue::Float(slot) = value {
            *slot = Float32::from_bits(1.5f32.to_bits());
        }
    }
    assert_eq!(
        float,
        DeviceProperty::DepthUnitFlexibleAdjustment(Float32::from_bits(1.5f32.to_bits()))
    );
}

#[test]
fn decompose_of_first_and_last_property() {
    let mut first = DeviceProperty::LDP(true);
    assert_eq!(first.decompose().0, OBPropertyID::LDPBool);
    let mut laser = DeviceProperty::LaserCurrent(Float32::from_bits(1));
    assert_eq!(laser.decompose().0, OBPropertyID::LaserCurrentFloat);
    let mut last = DeviceProperty::DebugESGMConfidence(Float32::from_bits(1));
    assert_eq!(last.decompose().0, OBPropertyID::DebugESGMConfidenceFloat);
    let mut mode = DeviceProperty::DevicePerformanceMode(1);
    assert_eq!(mode.decompose().0, OBPropertyID::DevicePerformanceModeInt);
}

#[test]
fn float_bits_are_kept() {
    let value = Float32::from_bits(0.2f32.to_bits());
    assert_eq!(value.to_bits(), 0.2f32.to_bits());
    assert_eq!(f32::from_bits(value.to_bits()), 0.2f32);
    assert_ne!(Float32::from_bits(0), Float32::from_bits(0x8000_0000));
}
