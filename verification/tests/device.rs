use orbbec_sdk::device::device_property::PropertyPayload;
use orbbec_sdk::device::{describe_quoted, Device, DeviceInfo, DeviceListIterator, DeviceProperty};
use orbbec_sdk::error::OrbbecError;
use orbbec_sdk::sys::device::{OBDevice, OBDeviceInfo, OBDeviceList};
use orbbec_sdk::sys::enums::{OBDeviceType, OBPermissionType, OBPropertyID};
use orbbec_sdk::sys::{Float32, OBError};
use orbbec_sdk::{Context, ContextGuard};

fn info(name: &str, serial: &str) -> OBDeviceInfo {
    OBDeviceInfo {
        name: name.to_string(),
        pid: 0x066B,
        vid: 0x2BC5,
        uid: "2-1.3".to_string(),
        serial_number: serial.to_string(),
        firmware_version: "1.0.9".to_string(),
        hardware_version: "1.0".to_string(),
        connection_type: "USB3.1".to_string(),
        min_supported_sdk_version: "2.0.0".to_string(),
        asic_name: "MX6600".to_string(),
        device_type: OBDeviceType::TOFCamera,
    }
}

fn device() -> Device {
    Device::new(OBDevice::new())
}

fn bolt() -> OBDeviceInfo {
    info("Femto Bolt", "CL8A1234")
}

fn disconnected() -> OBError {
    OBError::new(2, "device disconnected", "ob_device_get_int_property", "property_id: 22")
}

#[test]
fn info_reports_the_identity_fields() {
    let info = device().info(bolt(), None).unwrap();
    assert_eq!(info.name(), "Femto Bolt");
    assert_eq!(info.pid(), 0x066B);
    assert_eq!(info.vid(), 0x2BC5);
    assert_eq!(info.uid(), "2-1.3");
    assert_eq!(info.serial_number(), "CL8A1234");
    assert_eq!(info.firmware_version(), "1.0.9");
    assert_eq!(info.hardware_version(), "1.0");
    assert_eq!(info.connection_type(), "USB3.1");
    assert_eq!(info.minimum_supported_sdk_version(), "2.0.0");
    assert_eq!(info.asic_name(), "MX6600");
    assert_eq!(info.device_type(), OBDeviceType::TOFCamera);
}

#[test]
fn info_error_is_handed_on() {
    let failure = OBError::new(2, "device disconnected", "ob_device_get_device_info", "device");
    let error = device().info(bolt(), Some(failure)).err().unwrap();
    assert!(matches!(error, OrbbecError::CameraDisconnected(_)));
    assert_eq!(error.data().function, "ob_device_get_device_info");
    assert!(OBDevice::new().get_info(bolt(), Some(disconnected())).is_err());
    assert_eq!(OBDevice::new().get_info(bolt(), None).unwrap().name, "Femto Bolt");
}

#[test]
fn layout_takes_texts_as_they_are() {
    let mut raw = info("<name>", "<serial>");
    raw.uid = "<uid>".to_string();
    raw.firmware_version = "<fw>".to_string();
    raw.hardware_version = "<hw>".to_string();
    raw.connection_type = "<conn>".to_string();
    raw.min_supported_sdk_version = "<sdk>".to_string();
    raw.asic_name = "<asic>".to_string();
    raw.pid = 0x00AB;
    raw.vid = 0x1_2BC5;
    raw.device_type = OBDeviceType::SLMonocularCamera;
    assert_eq!(
        describe_quoted(&raw),
        "DeviceInfo { name: <name>, pid: 00AB, vid: 2BC5, uid: <uid>, serial_number: <serial>, \
         firmware_version: <fw>, hardware_version: <hw>, connection_type: <conn>, \
         minimum_supported_sdk_version: <sdk>, asic_name: <asic>, device_type: SLMonocularCamera }"
    );
}

#[test]
fn native_info_reports_the_identity_fields() {
    let info = info("Gemini 335", "CP1E5420007N");
    assert_eq!(info.get_name().unwrap(), "Gemini 335");
    assert_eq!(info.get_pid().unwrap(), 0x066B);
    assert_eq!(info.get_vid().unwrap(), 0x2BC5);
    assert_eq!(info.get_uid().unwrap(), "2-1.3");
    assert_eq!(info.get_serial_number().unwrap(), "CP1E5420007N");
    assert_eq!(info.get_firmware_version().unwrap(), "1.0.9");
    assert_eq!(info.get_hardware_version().unwrap(), "1.0");
    assert_eq!(info.get_connection_type().unwrap(), "USB3.1");
    assert_eq!(info.get_min_supported_sdk_version().unwrap(), "2.0.0");
    assert_eq!(info.get_asic_name().unwrap(), "MX6600");
    assert_eq!(info.get_device_type().unwrap(), OBDeviceType::TOFCamera);
}

#[test]
fn identifiers_keep_their_low_sixteen_bits() {
    let mut raw = info("x", "y");
    raw.pid = 0x1_0001;
    raw.vid = -1;
    let info = DeviceInfo::new(raw);
    assert_eq!(info.pid(), 1);
    assert_eq!(info.vid(), 0xFFFF);
}

#[test]
fn description_lists_every_field() {
    let info = device().info(bolt(), None).unwrap();
    assert_eq!(
        info.debug_string(),
        "DeviceInfo { name: \"Femto Bolt\", pid: 066B, vid: 2BC5, uid: \"2-1.3\", \
         serial_number: \"CL8A1234\", firmware_version: \"1.0.9\", hardware_version: \"1.0\", \
         connection_type: \"USB3.1\", minimum_supported_sdk_version: \"2.0.0\", \
         asic_name: \"MX6600\", device_type: TOFCamera }"
    );
}

#[test]
fn description_escapes_its_texts() {
    let mut raw = info("a\"b\\c\n", "");
    raw.device_type = OBDeviceType::SLBinocularCamera;
    raw.pid = 10;
    raw.vid = 0;
    let text = DeviceInfo::new(raw).debug_string();
    assert!(text.starts_with("DeviceInfo { name: \"a\\\"b\\\\c\\n\", pid: 000A, vid: 0000, "));
    assert!(text.contains("serial_number: \"\", "));
    assert!(text.ends_with("device_type: SLBinocularCamera }"));
}

#[test]
fn description_names_each_device_type() {
    for (device_type, name) in [
        (OBDeviceType::Unknown, "Unknown"),
        (OBDeviceType::SLMonocularCamera, "SLMonocularCamera"),
        (OBDeviceType::SLBinocularCamera, "SLBinocularCamera"),
        (OBDeviceType::TOFCamera, "TOFCamera"),
    ] {
        let mut raw = info("n", "s");
        raw.device_type = device_type;
        let text = DeviceInfo::new(raw).debug_string();
        assert!(text.ends_with(&format!("device_type: {} }}", name)));
    }
}

#[test]
fn preset_is_loaded_when_the_runtime_takes_it() {
    let mut device = device();
    assert!(device.load_preset("High Accuracy", None).is_ok());
    assert!(device.load_preset("", None).is_ok());
}

#[test]
fn preset_error_of_the_runtime_is_handed_on() {
    let mut device = device();
    let error = device
        .load_preset("No Such Preset", Some(OBError::new(4, "unknown preset", "ob_device_load_preset", "")))
        .unwrap_err();
    assert!(matches!(error, OrbbecError::InvalidValue(_)));
    assert_eq!(error.data().message, "unknown preset");
    assert_eq!(error.data().function, "ob_device_load_preset");
}

#[test]
fn preset_name_with_nul_is_refused() {
    let mut device = device();
    let error = device.load_preset("High\0Accuracy", None).unwrap_err();
    assert!(matches!(error, OrbbecError::InvalidValue(_)));
    assert_eq!(
        error.data().message,
        "Invalid preset name: nul byte found in provided data at position: 4"
    );
    assert_eq!(error.data().function, "Device::load_preset");
    assert_eq!(error.data().args, "High\0Accuracy");
}

#[test]
fn preset_name_with_nul_is_refused_before_the_runtime() {
    let mut device = device();
    let error = device.load_preset("\0", Some(disconnected())).unwrap_err();
    assert!(matches!(error, OrbbecError::InvalidValue(_)));
    assert_eq!(
        error.data().message,
        "Invalid preset name: nul byte found in provided data at position: 0"
    );
}

#[test]
fn support_is_what_the_device_answers() {
    let device = device();
    let property = DeviceProperty::HWNoiseRemoveFilterEnable(true);
    assert_eq!(device.is_property_supported(property, OBPermissionType::Write, true, None).unwrap(), true);
    assert_eq!(device.is_property_supported(property, OBPermissionType::Read, false, None).unwrap(), false);
    let error = device
        .is_property_supported(property, OBPermissionType::ReadWrite, true, Some(disconnected()))
        .unwrap_err();
    assert!(matches!(error, OrbbecError::CameraDisconnected(_)));
}

#[test]
fn integer_property_round_trips() {
    let mut device = device();
    let written = DeviceProperty::DepthNoiseRemovalFilterMaxDiff(256);
    device.set_property(written, None).unwrap();
    let mut read = DeviceProperty::DepthNoiseRemovalFilterMaxDiff(0);
    device.get_property(&mut read, PropertyPayload::Int(256), None).unwrap();
    assert_eq!(read, written);
}

#[test]
fn boolean_property_round_trips() {
    let mut device = device();
    let written = DeviceProperty::Laser(true);
    device.set_property(written, None).unwrap();
    let mut read = DeviceProperty::Laser(false);
    device.get_property(&mut read, PropertyPayload::Bool(true), None).unwrap();
    assert_eq!(read, written);
}

#[test]
fn float_property_round_trips() {
    let mut device = device();
    let value = Float32::from_bits(0.2f32.to_bits());
    let written = DeviceProperty::HWNoiseRemoveFilterThreshold(value);
    device.set_property(written, None).unwrap();
    let mut read = DeviceProperty::HWNoiseRemoveFilterThreshold(Float32::from_bits(0));
    device.get_property(&mut read, PropertyPayload::Float(value), None).unwrap();
    assert_eq!(read, written);
    match read {
        DeviceProperty::HWNoiseRemoveFilterThreshold(got) => {
            assert_eq!(f32::from_bits(got.to_bits()), 0.2f32)
        }
        _ => panic!("the property changed its identifier"),
    }
}

#[test]
fn property_read_takes_the_answer_of_the_device() {
    let device = device();
    let mut property = DeviceProperty::MinDepth(100);
    device.get_property(&mut property, PropertyPayload::Int(-7), None).unwrap();
    assert_eq!(property, DeviceProperty::MinDepth(-7));
}

#[test]
fn property_read_of_another_kind_is_refused() {
    let device = device();
    let mut property = DeviceProperty::MinDepth(100);
    let error = device.get_property(&mut property, PropertyPayload::Bool(true), None).unwrap_err();
    assert!(matches!(error, OrbbecError::InvalidValue(_)));
    assert_eq!(
        error.data().message,
        "The device answered with a value of another kind than the property carries"
    );
    assert_eq!(error.data().function, "Device::get_property");
    assert_eq!(error.data().args, "");
    assert_eq!(property, DeviceProperty::MinDepth(100));

    let mut switch = DeviceProperty::LDP(false);
    assert!(device.get_property(&mut switch, PropertyPayload::Int(1), None).is_err());
    assert_eq!(switch, DeviceProperty::LDP(false));

    let mut float = DeviceProperty::LaserCurrent(Float32::from_bits(7));
    assert!(device.get_property(&mut float, PropertyPayload::Int(1), None).is_err());
    assert_eq!(float, DeviceProperty::LaserCurrent(Float32::from_bits(7)));
}

#[test]
fn property_error_leaves_the_property() {
    let mut device = device();
    let mut property = DeviceProperty::MinDepth(100);
    let error = device
        .get_property(&mut property, PropertyPayload::Int(5), Some(disconnected()))
        .unwrap_err();
    assert!(matches!(error, OrbbecError::CameraDisconnected(_)));
    assert_eq!(error.data().message, "device disconnected");
    assert_eq!(property, DeviceProperty::MinDepth(100));

    let refused = device.set_property(DeviceProperty::MinDepth(5), Some(disconnected())).unwrap_err();
    assert!(matches!(refused, OrbbecError::CameraDisconnected(_)));
}

#[test]
fn native_property_calls_hand_on_the_answer() {
    let mut device = OBDevice::new();
    assert_eq!(device.get_bool_property(OBPropertyID::LaserBool, true, None).unwrap(), true);
    assert_eq!(device.get_int_property(OBPropertyID::MinDepthInt, 12, None).unwrap(), 12);
    assert_eq!(
        device
            .get_float_property(OBPropertyID::LaserCurrentFloat, Float32::from_bits(9), None)
            .unwrap(),
        Float32::from_bits(9)
    );
    assert!(device.set_bool_property(OBPropertyID::LaserBool, true, None).is_ok());
    assert!(device.set_int_property(OBPropertyID::MinDepthInt, 3, None).is_ok());
    assert!(device
        .set_float_property(OBPropertyID::LaserCurrentFloat, Float32::from_bits(1), None)
        .is_ok());
    assert!(device.get_int_property(OBPropertyID::MinDepthInt, 12, Some(disconnected())).is_err());
    assert!(device.set_int_property(OBPropertyID::MinDepthInt, 3, Some(disconnected())).is_err());
    assert!(device
        .is_property_supported(OBPropertyID::MinDepthInt, OBPermissionType::Read, true, None)
        .unwrap());
}

fn two_devices() -> OBDeviceList {
    OBDeviceList::new(2)
}

fn out_of_range() -> OBError {
    OBError::new(4, "index out of range", "ob_device_list_get_device", "index")
}

#[test]
fn device_list_is_indexed_up_to_its_count() {
    let mut guard = ContextGuard::new();
    let context = Context::new(&mut guard, None).unwrap();
    let list = context.query_device_list(two_devices(), None).unwrap();
    assert_eq!(list.len(), 2);
    assert!(!list.is_empty());
    assert!(std::ptr::eq(list._context, &context));
    assert!(list.get(0, None).is_ok());
    assert!(list.get(1, None).is_ok());
    let error = list.get(2, Some(out_of_range())).err().unwrap();
    assert!(matches!(error, OrbbecError::InvalidValue(_)));
    assert_eq!(error.data().message, "index out of range");
    assert_eq!(error.data().function, "ob_device_list_get_device");
    let error = list.get(2, None).err().unwrap();
    assert!(matches!(error, OrbbecError::InvalidValue(_)));
    assert_eq!(error.data().message, "Index out of range");
    assert_eq!(error.data().function, "OBDeviceList::get_device");
    assert_eq!(error.data().args, "index: 2");
    let error = list.get(0, Some(disconnected())).err().unwrap();
    assert!(matches!(error, OrbbecError::CameraDisconnected(_)));
    assert_eq!(list.native_index(1), 1);
    assert_eq!(list.native_index(usize::MAX), u32::MAX);
}

#[test]
fn device_list_can_be_walked_again() {
    let mut guard = ContextGuard::new();
    let context = Context::new(&mut guard, None).unwrap();
    let list = context.query_device_list(two_devices(), None).unwrap();
    for _ in 0..2 {
        let mut places = Vec::new();
        let mut iterator = list.iter();
        while let Some(place) = iterator.pending() {
            places.push(place);
            assert!(iterator.next(None).unwrap().is_ok());
        }
        assert_eq!(places, vec![0, 1]);
        assert!(iterator.pending().is_none());
        assert!(iterator.next(None).is_none());
        assert!(iterator.next(Some(disconnected())).is_none());
    }
    let mut other = DeviceListIterator::new(&list).unwrap();
    assert!(matches!(other.next(Some(disconnected())), Some(Err(OrbbecError::CameraDisconnected(_)))));
    assert_eq!(other.pending(), Some(1));
    assert!(matches!(other.next(None), Some(Ok(_))));
    assert!(other.next(None).is_none());
}

#[test]
fn empty_device_list_has_nothing() {
    let mut guard = ContextGuard::new();
    let context = Context::new(&mut guard, None).unwrap();
    let list = context.query_device_list(OBDeviceList::new(0), None).unwrap();
    assert!(list.is_empty());
    assert_eq!(list.len(), 0);
    assert!(list.iter().next(None).is_none());
    assert!(list.get(0, None).is_err());
    assert_eq!(list.inner.get_count().unwrap(), 0);
}
