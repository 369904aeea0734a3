//! Device module
use vstd::prelude::*;
use vstd::string::*;
use crate::device::device_property::{PropertyPayload, PropertyValue};
use crate::error::{OrbbecError, OrbbecErrorData};
use crate::sys::device::{DeviceInfoView, DeviceView, OBDevice, OBDeviceInfo, OBDeviceList};
use crate::sys::enums::{OBDeviceType, OBExceptionType, OBPermissionType};
use crate::sys::stream::index_error;
use crate::sys::{ErrorView, OBError};
use crate::text::{
    debug_quoted,
    debug_text,
    first_nul,
    hex4,
    hex4_text,
    is_first_nul,
    nul_error_message,
    nul_error_text,
    nul_free,
};
use crate::Context;

pub mod device_property;

pub use device_property::DeviceProperty;

verus! {

/// Device information
pub struct DeviceInfo {
    pub inner: OBDeviceInfo,
}

impl View for DeviceInfo {
    type V = DeviceInfoView;

    open spec fn view(&self) -> DeviceInfoView {
        self.inner@
    }
}

/// The name of a device type, as `Debug` writes it.
pub open spec fn device_kind_name(device_type: OBDeviceType) -> Seq<char> {
    match device_type {
        OBDeviceType::Unknown => "Unknown"@,
        OBDeviceType::SLMonocularCamera => "SLMonocularCamera"@,
        OBDeviceType::SLBinocularCamera => "SLBinocularCamera"@,
        OBDeviceType::TOFCamera => "TOFCamera"@,
    }
}

/// What a device says of itself with each of its texts quoted as `Debug`
/// quotes a string.
pub open spec fn quoted(info: DeviceInfoView) -> DeviceInfoView {
    DeviceInfoView {
        name: debug_text(info.name),
        pid: info.pid,
        vid: info.vid,
        uid: debug_text(info.uid),
        serial_number: debug_text(info.serial_number),
        firmware_version: debug_text(info.firmware_version),
        hardware_version: debug_text(info.hardware_version),
        connection_type: debug_text(info.connection_type),
        min_supported_sdk_version: debug_text(info.min_supported_sdk_version),
        asic_name: debug_text(info.asic_name),
        device_type: info.device_type,
    }
}

/// The description of a device laid out field by field, from texts that are
/// quoted already: each text as it is, the two USB identifiers in four
/// hexadecimal digits, the device type by its name.
pub open spec fn device_info_layout(info: DeviceInfoView) -> Seq<char> {
    "DeviceInfo { name: "@ + info.name + ", pid: "@ + hex4_text((info.pid as u16) as nat) + ", vid: "@
        + hex4_text((info.vid as u16) as nat) + ", uid: "@ + info.uid + ", serial_number: "@
        + info.serial_number + ", firmware_version: "@ + info.firmware_version
        + ", hardware_version: "@ + info.hardware_version + ", connection_type: "@
        + info.connection_type + ", minimum_supported_sdk_version: "@
        + info.min_supported_sdk_version + ", asic_name: "@ + info.asic_name + ", device_type: "@
        + device_kind_name(info.device_type) + " }"@
}

/// The description of a device, field by field: the texts quoted as `Debug`
/// quotes a string, the two USB identifiers in four hexadecimal digits.
pub open spec fn device_info_text(info: DeviceInfoView) -> Seq<char> {
    device_info_layout(quoted(info))
}

/// Lays out the description of a device from texts that are quoted already.
pub fn describe_quoted(info: &OBDeviceInfo) -> (r: String)
    ensures
        r@ == device_info_layout(info@),
{
    let kind_name = match info.device_type {
        OBDeviceType::Unknown => "Unknown",
        OBDeviceType::SLMonocularCamera => "SLMonocularCamera",
        OBDeviceType::SLBinocularCamera => "SLBinocularCamera",
        OBDeviceType::TOFCamera => "TOFCamera",
    };
    let pid: u16 = #[verifier::truncate]
    (info.pid as u16);
    let vid: u16 = #[verifier::truncate]
    (info.vid as u16);
    let mut r = String::from_str("DeviceInfo { name: ");
    r.append(info.name.as_str());
    r.append(", pid: ");
    r.append(hex4(pid).as_str());
    r.append(", vid: ");
    r.append(hex4(vid).as_str());
    r.append(", uid: ");
    r.append(info.uid.as_str());
    r.append(", serial_number: ");
    r.append(info.serial_number.as_str());
    r.append(", firmware_version: ");
    r.append(info.firmware_version.as_str());
    r.append(", hardware_version: ");
    r.append(info.hardware_version.as_str());
    r.append(", connection_type: ");
    r.append(info.connection_type.as_str());
    r.append(", minimum_supported_sdk_version: ");
    r.append(info.min_supported_sdk_version.as_str());
    r.append(", asic_name: ");
    r.append(info.asic_name.as_str());
    r.append(", device_type: ");
    r.append(kind_name);
    r.append(" }");
    r
}

impl DeviceInfo {
    pub fn new(inner: OBDeviceInfo) -> (r: Self)
        ensures
            r.inner == inner,
    {
        DeviceInfo { inner }
    }

    /// Get the device name
    pub fn name(&self) -> (r: String)
        ensures
            r@ == self@.name,
    {
        self.inner.name.clone()
    }

    /// Get the device USB product ID: the low 16 bits of what the runtime
    /// reports.
    pub fn pid(&self) -> (r: u16)
        ensures
            r == self@.pid as u16,
    {
        #[verifier::truncate]
        (self.inner.pid as u16)
    }

    /// Get the device USB vendor ID: the low 16 bits of what the runtime
    /// reports.
    pub fn vid(&self) -> (r: u16)
        ensures
            r == self@.vid as u16,
    {
        #[verifier::truncate]
        (self.inner.vid as u16)
    }

    /// Get the device unique identifier (based on the port it is connected, platform specific)
    pub fn uid(&self) -> (r: String)
        ensures
            r@ == self@.uid,
    {
        self.inner.uid.clone()
    }

    /// Get the device serial number
    pub fn serial_number(&self) -> (r: String)
        ensures
            r@ == self@.serial_number,
    {
        self.inner.serial_number.clone()
    }

    /// Get the device firmware version
    pub fn firmware_version(&self) -> (r: String)
        ensures
            r@ == self@.firmware_version,
    {
        self.inner.firmware_version.clone()
    }

    /// Get the device hardware version
    pub fn hardware_version(&self) -> (r: String)
        ensures
            r@ == self@.hardware_version,
    {
        self.inner.hardware_version.clone()
    }

    /// Get the device connection type
    pub fn connection_type(&self) -> (r: String)
        ensures
            r@ == self@.connection_type,
    {
        self.inner.connection_type.clone()
    }

    /// Get the device minimum supported SDK version
    pub fn minimum_supported_sdk_version(&self) -> (r: String)
        ensures
            r@ == self@.min_supported_sdk_version,
    {
        self.inner.min_supported_sdk_version.clone()
    }

    /// Get the device ASIC name
    pub fn asic_name(&self) -> (r: String)
        ensures
            r@ == self@.asic_name,
    {
        self.inner.asic_name.clone()
    }

    /// Get the device type
    pub fn device_type(&self) -> (r: OBDeviceType)
        ensures
            r == self@.device_type,
    {
        self.inner.device_type
    }

    /// The description of the device for a log or a listing, all fields on one
    /// line.
    pub fn debug_string(&self) -> (r: String)
        ensures
            r@ == device_info_text(self@),
    {
        let quoted = OBDeviceInfo {
            name: debug_quoted(self.inner.name.as_str()),
            pid: self.inner.pid,
            vid: self.inner.vid,
            uid: debug_quoted(self.inner.uid.as_str()),
            serial_number: debug_quoted(self.inner.serial_number.as_str()),
            firmware_version: debug_quoted(self.inner.firmware_version.as_str()),
            hardware_version: debug_quoted(self.inner.hardware_version.as_str()),
            connection_type: debug_quoted(self.inner.connection_type.as_str()),
            min_supported_sdk_version: debug_quoted(self.inner.min_supported_sdk_version.as_str()),
            asic_name: debug_quoted(self.inner.asic_name.as_str()),
            device_type: self.inner.device_type,
        };
        describe_quoted(&quoted)
    }
}

/// The error for a preset name with a zero byte at `position`.
pub open spec fn preset_name_error(preset_name: Seq<char>, position: nat) -> ErrorView {
    ErrorView {
        kind: OBExceptionType::InvalidValue,
        message: "Invalid preset name: "@ + nul_error_text(position),
        function: "Device::load_preset"@,
        args: preset_name,
    }
}

/// The error for an answer of the device that is of another kind than the
/// property that was asked for.
pub open spec fn kind_error() -> ErrorView {
    ErrorView {
        kind: OBExceptionType::InvalidValue,
        message: "The device answered with a value of another kind than the property carries"@,
        function: "Device::get_property"@,
        args: ""@,
    }
}

fn make_kind_error() -> (r: OrbbecError)
    ensures
        r@ == kind_error(),
{
    OrbbecError::InvalidValue(
        OrbbecErrorData {
            message: String::from_str(
                "The device answered with a value of another kind than the property carries",
            ),
            function: String::from_str("Device::get_property"),
            args: String::from_str(""),
        },
    )
}

/// A single Orbbec device
pub struct Device {
    pub inner: OBDevice,
}

impl View for Device {
    type V = DeviceView;

    open spec fn view(&self) -> DeviceView {
        self.inner@
    }
}

impl Device {
    pub fn new(inner: OBDevice) -> (r: Self)
        ensures
            r.inner == inner,
    {
        Device { inner }
    }

    pub fn inner(&self) -> (r: &OBDevice)
        ensures
            *r == self.inner,
    {
        &self.inner
    }

    /// Get the device information: `reported` is what the runtime read of the
    /// device, `error` what it left in the error slot. Where the runtime
    /// reported an error, that error is handed on and `reported` is not looked
    /// at.
    pub fn info(&self, reported: OBDeviceInfo, error: Option<OBError>) -> (r: Result<DeviceInfo, OrbbecError>)
        ensures
            error is None ==> r is Ok && r->Ok_0.inner == reported,
            error is Some ==> r is Err && r->Err_0@ == error->0@,
    {
        match self.inner.get_info(reported, error) {
            Ok(info) => Ok(DeviceInfo::new(info)),
            Err(e) => Err(OrbbecError::from_native(e)),
        }
    }

    /// Load a preset configuration to the device: `error` is what the runtime
    /// left in the error slot.
    ///
    /// A name with a zero byte in it cannot be handed to the runtime: it is
    /// refused with an error of kind `InvalidValue` that tells where the first
    /// one stands, whatever `error` holds, and the device is as before.
    /// ### Arguments
    /// * `preset_name` - The name of the preset to load
    pub fn load_preset(&mut self, preset_name: &str, error: Option<OBError>) -> (r: Result<(), OrbbecError>)
        ensures
            !nul_free(preset_name.spec_bytes()) ==> {
                &&& r is Err
                &&& exists|position: int|
                    is_first_nul(preset_name.spec_bytes(), position) && r->Err_0@
                        == preset_name_error(preset_name@, position as nat)
                &&& final(self)@ == old(self)@
            },
            nul_free(preset_name.spec_bytes()) && error is None ==> r is Ok && final(self)@
                == DeviceView::fresh(),
            nul_free(preset_name.spec_bytes()) && error is Some ==> {
                &&& r is Err
                &&& r->Err_0@ == error->0@
                &&& final(self)@ == old(self)@
            },
    {
        match first_nul(preset_name) {
            Some(position) => {
                let err_data = OrbbecErrorData {
                    message: nul_error_message("Invalid preset name: ", position),
                    function: String::from_str("Device::load_preset"),
                    args: String::from_str(preset_name),
                };
                assert(is_first_nul(preset_name.spec_bytes(), position as int));
                Err(OrbbecError::InvalidValue(err_data))
            },
            None => {
                match self.inner.load_preset(preset_name, error) {
                    Ok(()) => Ok(()),
                    Err(e) => Err(OrbbecError::from_native(e)),
                }
            },
        }
    }

    /// Check if a device property is supported: `reported` is what the device
    /// answered, `error` what the runtime left in the error slot.
    /// ### Arguments
    /// * `property_id` - The property to check
    /// * `permission` - The permission type to check (read, write, or read/write)
    pub fn is_property_supported(
        &self,
        property: DeviceProperty,
        permission: OBPermissionType,
        reported: bool,
        error: Option<OBError>,
    ) -> (r: Result<bool, OrbbecError>)
        ensures
            error is None ==> r == Ok::<bool, OrbbecError>(reported),
            error is Some ==> r is Err && r->Err_0@ == error->0@,
    {
        let mut property = property;
        let (prop_id, _) = property.decompose();

        match self.inner.is_property_supported(prop_id, permission, reported, error) {
            Ok(supported) => Ok(supported),
            Err(e) => Err(OrbbecError::from_native(e)),
        }
    }

    /// Set a property value on the device: `error` is what the runtime left in
    /// the error slot. After a write that the device took, the value of the
    /// property is the last one written under its identifier; a write that
    /// failed changes nothing.
    /// ### Arguments
    /// * `property` - The property to set and its value
    pub fn set_property(&mut self, property: DeviceProperty, error: Option<OBError>) -> (r: Result<
        (),
        OrbbecError,
    >)
        ensures
            error is None ==> r is Ok && final(self)@ == old(self)@.with_written(
                property.id(),
                property.payload(),
            ),
            error is Some ==> r is Err && r->Err_0@ == error->0@ && final(self)@ == old(self)@,
    {
        let mut property = property;
        let (prop_id, prop_type) = property.decompose();

        let outcome = match prop_type {
            PropertyValue::Bool(value) => self.inner.set_bool_property(prop_id, *value, error),
            PropertyValue::Int(value) => self.inner.set_int_property(prop_id, *value, error),
            PropertyValue::Float(value) => self.inner.set_float_property(prop_id, *value, error),
        };
        match outcome {
            Ok(()) => Ok(()),
            Err(e) => Err(OrbbecError::from_native(e)),
        }
    }

    /// Get a property value from the device: `reported` is the value that the
    /// device answered with, `error` what the runtime left in the error slot.
    ///
    /// The property keeps its identifier. Where the runtime reported an error,
    /// that error is handed on and `reported` is not looked at. An answer of
    /// another kind than the property carries is an error of kind
    /// `InvalidValue`. In both cases the property keeps its value. Otherwise
    /// its value is the answer.
    /// ### Arguments
    /// * `property` - The property to get
    pub fn get_property(
        &self,
        property: &mut DeviceProperty,
        reported: PropertyPayload,
        error: Option<OBError>,
    ) -> (r: Result<(), OrbbecError>)
        ensures
            final(property).id() == old(property).id(),
            error is Some ==> r is Err && r->Err_0@ == error->0@ && *final(property) == *old(property),
            error is None && reported.kind() != old(property).id().kind() ==> {
                &&& r is Err
                &&& r->Err_0@ == kind_error()
                &&& *final(property) == *old(property)
            },
            error is None && reported.kind() == old(property).id().kind() ==> {
                &&& r is Ok
                &&& final(property).payload() == reported
            },
    {
        proof {
            DeviceProperty::lemma_kind_fixed_by_id(*property);
        }
        let ghost before = *property;
        let (prop_id, prop_type) = property.decompose();

        match (prop_type, reported) {
            (PropertyValue::Bool(value), PropertyPayload::Bool(answer)) => {
                match self.inner.get_bool_property(prop_id, answer, error) {
                    Ok(v) => {
                        *value = v;
                    },
                    Err(e) => {
                        proof {
                            DeviceProperty::lemma_fixed_by_id_and_payload(before, *property);
                        }
                        return Err(OrbbecError::from_native(e));
                    },
                }
            },
            (PropertyValue::Int(value), PropertyPayload::Int(answer)) => {
                match self.inner.get_int_property(prop_id, answer, error) {
                    Ok(v) => {
                        *value = v;
                    },
                    Err(e) => {
                        proof {
                            DeviceProperty::lemma_fixed_by_id_and_payload(before, *property);
                        }
                        return Err(OrbbecError::from_native(e));
                    },
                }
            },
            (PropertyValue::Float(value), PropertyPayload::Float(answer)) => {
                match self.inner.get_float_property(prop_id, answer, error) {
                    Ok(v) => {
                        *value = v;
                    },
                    Err(e) => {
                        proof {
                            DeviceProperty::lemma_fixed_by_id_and_payload(before, *property);
                        }
                        return Err(OrbbecError::from_native(e));
                    },
                }
            },
            (_, _) => {
                proof {
                    DeviceProperty::lemma_fixed_by_id_and_payload(before, *property);
                }
                return match OBError::consume(error) {
                    Ok(()) => Err(make_kind_error()),
                    Err(e) => Err(OrbbecError::from_native(e)),
                };
            },
        }
        Ok(())
    }

    /// A property that is written to a device and then read back, from a device
    /// that answers with the value last written under the identifier, is the
    /// property that was written: its value makes the round trip, for a switch,
    /// an integer and a float alike.
    pub proof fn lemma_set_then_get(
        before: DeviceView,
        after: DeviceView,
        written: DeviceProperty,
        asked: DeviceProperty,
        read: DeviceProperty,
    )
        requires
            after.written == before.written.insert(written.id(), written.payload()),
            asked.id() == written.id(),
            read.id() == asked.id(),
            read.payload() == after.written[asked.id()],
        ensures
            read == written,
    {
        DeviceProperty::lemma_fixed_by_id_and_payload(read, written);
    }
}

/// A list of Orbbec devices available
pub struct DeviceList<'a> {
    pub inner: OBDeviceList,
    /// We hold a reference to the context to ensure it lives as long as the device list
    pub _context: &'a Context,
}

impl<'a> DeviceList<'a> {
    /// How many devices the list has.
    pub open spec fn spec_len(&self) -> nat {
        self.inner@
    }

    pub fn new(inner: OBDeviceList, context: &'a Context) -> (r: Self)
        ensures
            r.inner == inner,
            r._context == context,
    {
        DeviceList { inner, _context: context }
    }

    /// Get the number of devices in the list
    pub fn len(&self) -> (r: usize)
        ensures
            r == self.spec_len(),
    {
        self.inner.get_count().unwrap() as usize
    }

    /// Check if the device list is empty
    pub fn is_empty(&self) -> (r: bool)
        ensures
            r == (self.spec_len() == 0),
    {
        self.len() == 0
    }

    /// The index that the runtime is asked with for the device at `index`:
    /// the index itself, or the largest that 32 bits hold where it is beyond
    /// them.
    pub fn native_index(&self, index: usize) -> (r: u32)
        ensures
            index <= u32::MAX ==> r == index,
            index > u32::MAX ==> r == u32::MAX && r >= self.spec_len(),
    {
        self.inner.native_index(index)
    }

    /// Get the device at the specified index: `error` is what the runtime left
    /// in the error slot when it was asked for the device.
    ///
    /// An error of the runtime is handed on as it is; that is how an index at
    /// or beyond the end of the list is refused. Where the runtime reported
    /// none for such an index, the error is of kind `InvalidValue` and says
    /// so. A device that is handed over is a new handle.
    /// ### Arguments
    /// * `index` - The index of the device to get
    pub fn get(&self, index: usize, error: Option<OBError>) -> (r: Result<Device, OrbbecError>)
        ensures
            error is Some ==> r is Err && r->Err_0@ == error->0@,
            error is None && index < self.spec_len() ==> r is Ok && r->Ok_0@ == DeviceView::fresh(),
            error is None && index >= self.spec_len() ==> r is Err && r->Err_0@ == index_error(
                "OBDeviceList::get_device"@,
                if index <= u32::MAX {
                    index as nat
                } else {
                    u32::MAX as nat
                },
            ),
    {
        match self.inner.get_device(self.native_index(index), error) {
            Ok(device) => Ok(Device::new(device)),
            Err(e) => Err(OrbbecError::from_native(e)),
        }
    }

    /// The devices of the list from the first on, one at each call of `next`.
    pub fn iter<'b>(&'b self) -> (r: DeviceListIterator<'a, 'b>)
        ensures
            r.device_list == self,
            r.index == 0,
            r.count == self.spec_len(),
    {
        DeviceListIterator { device_list: self, index: 0, count: self.len() }
    }
}

pub struct DeviceListIterator<'a, 'b> {
    pub device_list: &'b DeviceList<'a>,
    pub index: usize,
    pub count: usize,
}

impl<'a, 'b> DeviceListIterator<'a, 'b> {
    pub fn new(device_list: &'b DeviceList<'a>) -> (r: Result<Self, OrbbecError>)
        ensures
            r is Ok,
            r->Ok_0.device_list == device_list,
            r->Ok_0.index == 0,
            r->Ok_0.count == device_list.spec_len(),
    {
        Ok(DeviceListIterator { device_list, index: 0, count: device_list.len() })
    }

    /// The place of the device that the next call of `next` asks the runtime
    /// for, or `None` where the iterator has come to the end and the runtime
    /// is not asked.
    pub fn pending(&self) -> (r: Option<usize>)
        ensures
            self.index < self.count ==> r == Some(self.index),
            self.index >= self.count ==> r is None,
    {
        if self.index >= self.count {
            None
        } else {
            Some(self.index)
        }
    }

    /// The next device of the list, or `None` after the last: `error` is what
    /// the runtime left in the error slot when it was asked for the device at
    /// the place that the iterator stands at. After the last device the
    /// runtime is not asked, and `error` is not looked at. Otherwise the
    /// iterator moves on by one.
    pub fn next(&mut self, error: Option<OBError>) -> (r: Option<Result<Device, OrbbecError>>)
        ensures
            final(self).device_list == old(self).device_list,
            final(self).count == old(self).count,
            old(self).index >= old(self).count ==> r is None && final(self).index == old(self).index,
            old(self).index < old(self).count ==> {
                &&& final(self).index == old(self).index + 1
                &&& r is Some
                &&& error is Some ==> r->0 is Err && r->0->Err_0@ == error->0@
                &&& error is None && old(self).index < old(self).device_list.spec_len() ==> r->0 is Ok
                    && r->0->Ok_0@ == DeviceView::fresh()
                &&& error is None && old(self).index >= old(self).device_list.spec_len() ==> r->0 is Err
            },
    {
        if self.index >= self.count {
            None
        } else {
            let device = self.device_list.get(self.index, error);
            self.index += 1;
            Some(device)
        }
    }
}

} // verus!
