//! Device management and properties
use vstd::prelude::*;
use vstd::string::*;
use crate::device::device_property::PropertyPayload;
use crate::sys::enums::{OBDeviceType, OBPermissionType, OBPropertyID};
use crate::sys::stream::{index_error, make_index_error};
use crate::sys::{Float32, OBError};

verus! {

/// What a device says of itself, with its texts as sequences of characters.
pub struct DeviceInfoView {
    pub name: Seq<char>,
    pub pid: i32,
    pub vid: i32,
    pub uid: Seq<char>,
    pub serial_number: Seq<char>,
    pub firmware_version: Seq<char>,
    pub hardware_version: Seq<char>,
    pub connection_type: Seq<char>,
    pub min_supported_sdk_version: Seq<char>,
    pub asic_name: Seq<char>,
    pub device_type: OBDeviceType,
}

/// A class describing device information, representing the name, id, serial number and other basic information of an RGBD camera.
#[derive(Debug)]
pub struct OBDeviceInfo {
    pub name: String,
    pub pid: i32,
    pub vid: i32,
    pub uid: String,
    pub serial_number: String,
    pub firmware_version: String,
    pub hardware_version: String,
    pub connection_type: String,
    pub min_supported_sdk_version: String,
    pub asic_name: String,
    pub device_type: OBDeviceType,
}

impl View for OBDeviceInfo {
    type V = DeviceInfoView;

    open spec fn view(&self) -> DeviceInfoView {
        DeviceInfoView {
            name: self.name@,
            pid: self.pid,
            vid: self.vid,
            uid: self.uid@,
            serial_number: self.serial_number@,
            firmware_version: self.firmware_version@,
            hardware_version: self.hardware_version@,
            connection_type: self.connection_type@,
            min_supported_sdk_version: self.min_supported_sdk_version@,
            asic_name: self.asic_name@,
            device_type: self.device_type,
        }
    }
}

impl Clone for OBDeviceInfo {
    fn clone(&self) -> (r: Self)
        ensures
            r@ == self@,
    {
        OBDeviceInfo {
            name: self.name.clone(),
            pid: self.pid,
            vid: self.vid,
            uid: self.uid.clone(),
            serial_number: self.serial_number.clone(),
            firmware_version: self.firmware_version.clone(),
            hardware_version: self.hardware_version.clone(),
            connection_type: self.connection_type.clone(),
            min_supported_sdk_version: self.min_supported_sdk_version.clone(),
            asic_name: self.asic_name.clone(),
            device_type: self.device_type,
        }
    }
}

impl OBDeviceInfo {
    /// Get device name
    pub fn get_name(&self) -> (r: Result<&str, OBError>)
        ensures
            r is Ok,
            r->Ok_0@ == self@.name,
    {
        Ok(self.name.as_str())
    }

    /// Get device PID
    pub fn get_pid(&self) -> (r: Result<i32, OBError>)
        ensures
            r == Ok::<i32, OBError>(self@.pid),
    {
        Ok(self.pid)
    }

    /// Get device VID
    pub fn get_vid(&self) -> (r: Result<i32, OBError>)
        ensures
            r == Ok::<i32, OBError>(self@.vid),
    {
        Ok(self.vid)
    }

    /// Get device UID
    pub fn get_uid(&self) -> (r: Result<&str, OBError>)
        ensures
            r is Ok,
            r->Ok_0@ == self@.uid,
    {
        Ok(self.uid.as_str())
    }

    /// Get device serial number
    pub fn get_serial_number(&self) -> (r: Result<&str, OBError>)
        ensures
            r is Ok,
            r->Ok_0@ == self@.serial_number,
    {
        Ok(self.serial_number.as_str())
    }

    /// Get device firmware version
    pub fn get_firmware_version(&self) -> (r: Result<&str, OBError>)
        ensures
            r is Ok,
            r->Ok_0@ == self@.firmware_version,
    {
        Ok(self.firmware_version.as_str())
    }

    /// Get device hardware version
    pub fn get_hardware_version(&self) -> (r: Result<&str, OBError>)
        ensures
            r is Ok,
            r->Ok_0@ == self@.hardware_version,
    {
        Ok(self.hardware_version.as_str())
    }

    /// Get device connection type
    pub fn get_connection_type(&self) -> (r: Result<&str, OBError>)
        ensures
            r is Ok,
            r->Ok_0@ == self@.connection_type,
    {
        Ok(self.connection_type.as_str())
    }

    /// Get device minimum supported SDK version
    pub fn get_min_supported_sdk_version(&self) -> (r: Result<&str, OBError>)
        ensures
            r is Ok,
            r->Ok_0@ == self@.min_supported_sdk_version,
    {
        Ok(self.min_supported_sdk_version.as_str())
    }

    /// Get device ASIC name
    pub fn get_asic_name(&self) -> (r: Result<&str, OBError>)
        ensures
            r is Ok,
            r->Ok_0@ == self@.asic_name,
    {
        Ok(self.asic_name.as_str())
    }

    /// Get device type
    pub fn get_device_type(&self) -> (r: Result<OBDeviceType, OBError>)
        ensures
            r == Ok::<OBDeviceType, OBError>(self@.device_type),
    {
        Ok(self.device_type)
    }
}

/// What is known of a device: the value that was last written to each property
/// through this handle.
pub struct DeviceView {
    pub written: Map<OBPropertyID, PropertyPayload>,
}

impl DeviceView {
    /// A device through whose handle nothing has been written.
    pub open spec fn fresh() -> DeviceView {
        DeviceView { written: Map::empty() }
    }

    /// This device after `payload` was written under `property_id`.
    pub open spec fn with_written(self, property_id: OBPropertyID, payload: PropertyPayload) -> DeviceView {
        DeviceView { written: self.written.insert(property_id, payload) }
    }
}

/// Class representing a single device
pub struct OBDevice {
    written: Ghost<Map<OBPropertyID, PropertyPayload>>,
}

impl View for OBDevice {
    type V = DeviceView;

    closed spec fn view(&self) -> DeviceView {
        DeviceView { written: self.written@ }
    }
}

impl Clone for OBDevice {
    fn clone(&self) -> (r: Self)
        ensures
            r@ == self@,
    {
        OBDevice { written: self.written }
    }
}

impl OBDevice {
    /// The handle of a device, before anything is written through it.
    pub fn new() -> (r: Self)
        ensures
            r@ == DeviceView::fresh(),
    {
        OBDevice { written: Ghost(Map::empty()) }
    }

    /// Get device information: `reported` is what the runtime read of the
    /// device, `error` what it left in the error slot. What came with an error
    /// is not looked at.
    pub fn get_info(&self, reported: OBDeviceInfo, error: Option<OBError>) -> (r: Result<OBDeviceInfo, OBError>)
        ensures
            error is None ==> r == Ok::<OBDeviceInfo, OBError>(reported),
            error is Some ==> r == Err::<OBDeviceInfo, OBError>(error->0),
    {
        match OBError::consume(error) {
            Ok(()) => Ok(reported),
            Err(e) => Err(e),
        }
    }

    /// Check if a device property is supported: `reported` is what the device
    /// answered, `error` what the runtime left in the error slot.
    pub fn is_property_supported(
        &self,
        property_id: OBPropertyID,
        permission: OBPermissionType,
        reported: bool,
        error: Option<OBError>,
    ) -> (r: Result<bool, OBError>)
        ensures
            error is None ==> r == Ok::<bool, OBError>(reported),
            error is Some ==> r == Err::<bool, OBError>(error->0),
    {
        match OBError::consume(error) {
            Ok(()) => Ok(reported),
            Err(e) => Err(e),
        }
    }

    /// Records a write that the device took.
    fn record(&mut self, property_id: OBPropertyID, Ghost(payload): Ghost<PropertyPayload>)
        ensures
            final(self)@ == old(self)@.with_written(property_id, payload),
    {
        self.written = Ghost(self.written@.insert(property_id, payload));
    }

    /// Set boolean property: `error` is what the runtime left in the error
    /// slot. A write that the device took is the last written value from then
    /// on; a write that failed changes nothing.
    pub fn set_bool_property(&mut self, property_id: OBPropertyID, value: bool, error: Option<OBError>) -> (r:
        Result<(), OBError>)
        ensures
            error is None ==> r is Ok && final(self)@ == old(self)@.with_written(
                property_id,
                PropertyPayload::Bool(value),
            ),
            error is Some ==> r == Err::<(), OBError>(error->0) && final(self)@ == old(self)@,
    {
        match OBError::consume(error) {
            Ok(()) => {
                self.record(property_id, Ghost(PropertyPayload::Bool(value)));
                Ok(())
            },
            Err(e) => Err(e),
        }
    }

    /// Get boolean property: `reported` is the value that the device answered
    /// with, `error` what the runtime left in the error slot.
    pub fn get_bool_property(&self, property_id: OBPropertyID, reported: bool, error: Option<OBError>) -> (r:
        Result<bool, OBError>)
        ensures
            error is None ==> r == Ok::<bool, OBError>(reported),
            error is Some ==> r == Err::<bool, OBError>(error->0),
    {
        match OBError::consume(error) {
            Ok(()) => Ok(reported),
            Err(e) => Err(e),
        }
    }

    /// Set integer property: `error` is what the runtime left in the error
    /// slot. A write that the device took is the last written value from then
    /// on; a write that failed changes nothing.
    pub fn set_int_property(&mut self, property_id: OBPropertyID, value: i32, error: Option<OBError>) -> (r:
        Result<(), OBError>)
        ensures
            error is None ==> r is Ok && final(self)@ == old(self)@.with_written(
                property_id,
                PropertyPayload::Int(value),
            ),
            error is Some ==> r == Err::<(), OBError>(error->0) && final(self)@ == old(self)@,
    {
        match OBError::consume(error) {
            Ok(()) => {
                self.record(property_id, Ghost(PropertyPayload::Int(value)));
                Ok(())
            },
            Err(e) => Err(e),
        }
    }

    /// Get integer property: `reported` is the value that the device answered
    /// with, `error` what the runtime left in the error slot.
    pub fn get_int_property(&self, property_id: OBPropertyID, reported: i32, error: Option<OBError>) -> (r:
        Result<i32, OBError>)
        ensures
            error is None ==> r == Ok::<i32, OBError>(reported),
            error is Some ==> r == Err::<i32, OBError>(error->0),
    {
        match OBError::consume(error) {
            Ok(()) => Ok(reported),
            Err(e) => Err(e),
        }
    }

    /// Set float property: `error` is what the runtime left in the error slot.
    /// A write that the device took is the last written value from then on; a
    /// write that failed changes nothing.
    pub fn set_float_property(
        &mut self,
        property_id: OBPropertyID,
        value: Float32,
        error: Option<OBError>,
    ) -> (r: Result<(), OBError>)
        ensures
            error is None ==> r is Ok && final(self)@ == old(self)@.with_written(
                property_id,
                PropertyPayload::Float(value),
            ),
            error is Some ==> r == Err::<(), OBError>(error->0) && final(self)@ == old(self)@,
    {
        match OBError::consume(error) {
            Ok(()) => {
                self.record(property_id, Ghost(PropertyPayload::Float(value)));
                Ok(())
            },
            Err(e) => Err(e),
        }
    }

    /// Get float property: `reported` is the value that the device answered
    /// with, `error` what the runtime left in the error slot.
    pub fn get_float_property(
        &self,
        property_id: OBPropertyID,
        reported: Float32,
        error: Option<OBError>,
    ) -> (r: Result<Float32, OBError>)
        ensures
            error is None ==> r == Ok::<Float32, OBError>(reported),
            error is Some ==> r == Err::<Float32, OBError>(error->0),
    {
        match OBError::consume(error) {
            Ok(()) => Ok(reported),
            Err(e) => Err(e),
        }
    }

    /// Load the device preset
    /// After loading the preset, the settings in the preset will set to the device immediately. Therefore, it is recommended to re-read the device settings to update the user program temporarily.
    /// What was written through this handle before is no longer known to hold.
    pub fn load_preset(&mut self, preset_name: &str, error: Option<OBError>) -> (r: Result<(), OBError>)
        ensures
            error is None ==> r is Ok && final(self)@ == DeviceView::fresh(),
            error is Some ==> r == Err::<(), OBError>(error->0) && final(self)@ == old(self)@,
    {
        match OBError::consume(error) {
            Ok(()) => {
                self.written = Ghost(Map::empty());
                Ok(())
            },
            Err(e) => Err(e),
        }
    }
}

/// List of devices: the runtime keeps the devices and hands each over when it
/// is asked for; the list itself tells how many there are.
#[derive(Debug)]
pub struct OBDeviceList {
    count: u32,
}

impl View for OBDeviceList {
    type V = nat;

    closed spec fn view(&self) -> nat {
        self.count as nat
    }
}

impl OBDeviceList {
    /// The list of as many devices as the runtime counted.
    pub fn new(count: u32) -> (r: Self)
        ensures
            r@ == count,
    {
        OBDeviceList { count }
    }

    /// Get the number of devices in the list
    pub fn get_count(&self) -> (r: Result<u32, OBError>)
        ensures
            r == Ok::<u32, OBError>(self@ as u32),
            self@ <= u32::MAX,
    {
        Ok(self.count)
    }

    /// The index that the runtime is asked with for the device at `index`:
    /// the index itself, or the largest that 32 bits hold where it is beyond
    /// them, which is then beyond the list too.
    pub fn native_index(&self, index: usize) -> (r: u32)
        ensures
            index <= u32::MAX ==> r == index,
            index > u32::MAX ==> r == u32::MAX && r >= self@,
    {
        if index <= u32::MAX as usize {
            index as u32
        } else {
            u32::MAX
        }
    }

    /// Get the device object at the specified index: `error` is what the
    /// runtime left in the error slot.
    ///
    /// An error of the runtime is handed on as it is; that is how an index at
    /// or beyond the end of the list is refused. Where the runtime reported
    /// none for such an index, the error is of kind `InvalidValue` and says
    /// so. A device that is handed over is a new handle, through which
    /// nothing has been written.
    pub fn get_device(&self, index: u32, error: Option<OBError>) -> (r: Result<OBDevice, OBError>)
        ensures
            error is Some ==> r == Err::<OBDevice, OBError>(error->0),
            error is None && index < self@ ==> r is Ok && r->Ok_0@ == DeviceView::fresh(),
            error is None && index >= self@ ==> r is Err && r->Err_0@ == index_error(
                "OBDeviceList::get_device"@,
                index as nat,
            ),
    {
        match OBError::consume(error) {
            Ok(()) => {
                if index < self.count {
                    Ok(OBDevice::new())
                } else {
                    Err(make_index_error("OBDeviceList::get_device", index))
                }
            },
            Err(e) => Err(e),
        }
    }
}

} // verus!
