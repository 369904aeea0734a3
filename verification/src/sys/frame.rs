//! Frame and FrameSet related operations
use vstd::prelude::*;
use vstd::slice::*;
use crate::sys::enums::OBFormat;
use crate::sys::{Float32, OBError};

verus! {

/// What a frame holds, with its bytes as a sequence.
pub struct FrameView {
    pub format: OBFormat,
    pub width: u32,
    pub height: u32,
    pub data: Seq<u8>,
    pub device_timestamp_us: u64,
    pub system_timestamp_us: u64,
    pub global_timestamp_us: u64,
    pub scale: Float32,
}

/// A container of one or multiple frames: what was read of one frame of the
/// runtime. The frames of a set stay with the runtime until they are looked
/// up.
#[derive(Debug)]
pub struct OBFrame {
    /// Format of the data
    pub format: OBFormat,
    /// Width in pixels or points
    pub width: u32,
    /// Height in pixels or points
    pub height: u32,
    /// The bytes of the buffer
    pub data: Vec<u8>,
    /// Time of capture by the device clock, in microseconds
    pub device_timestamp_us: u64,
    /// Time of arrival by the system clock, in microseconds
    pub system_timestamp_us: u64,
    /// Time of capture on the clock that devices share, in microseconds
    pub global_timestamp_us: u64,
    /// For depth data, the factor that turns a raw value into millimeters; for
    /// points, the factor on each coordinate
    pub scale: Float32,
}

impl View for OBFrame {
    type V = FrameView;

    open spec fn view(&self) -> FrameView {
        FrameView {
            format: self.format,
            width: self.width,
            height: self.height,
            data: self.data@,
            device_timestamp_us: self.device_timestamp_us,
            system_timestamp_us: self.system_timestamp_us,
            global_timestamp_us: self.global_timestamp_us,
            scale: self.scale,
        }
    }
}

/// The view of a frame that may be absent.
pub open spec fn frame_view(frame: Option<OBFrame>) -> Option<FrameView> {
    match frame {
        Some(f) => Some(f@),
        None => None,
    }
}

impl Clone for OBFrame {
    fn clone(&self) -> (r: Self)
        ensures
            r@ == self@,
    {
        let data = self.data.clone();
        assert(data@ =~= self.data@);
        OBFrame {
            format: self.format,
            width: self.width,
            height: self.height,
            data,
            device_timestamp_us: self.device_timestamp_us,
            system_timestamp_us: self.system_timestamp_us,
            global_timestamp_us: self.global_timestamp_us,
            scale: self.scale,
        }
    }
}

/// What looking up a role in a set gives: `found` is the frame that the runtime
/// handed over, or `None` where the set has no frame of the role; `error` is
/// what it left in the error slot. That the role is absent is no error. A
/// frame that came with an error is not looked at.
fn member(found: Option<OBFrame>, error: Option<OBError>) -> (r: Result<Option<OBFrame>, OBError>)
    ensures
        error is None ==> r == Ok::<Option<OBFrame>, OBError>(found),
        error is Some ==> r == Err::<Option<OBFrame>, OBError>(error->0),
{
    match OBError::consume(error) {
        Ok(()) => Ok(found),
        Err(e) => Err(e),
    }
}

impl OBFrame {
    /// The frame with the given format, size and bytes, and with every time
    /// and the scale at zero.
    pub fn new(format: OBFormat, width: u32, height: u32, data: Vec<u8>) -> (r: Self)
        ensures
            r@ == (FrameView {
                format,
                width,
                height,
                data: data@,
                device_timestamp_us: 0,
                system_timestamp_us: 0,
                global_timestamp_us: 0,
                scale: Float32 { bits: 0 },
            }),
    {
        OBFrame {
            format,
            width,
            height,
            data,
            device_timestamp_us: 0,
            system_timestamp_us: 0,
            global_timestamp_us: 0,
            scale: Float32 { bits: 0 },
        }
    }

    /// Get the data buffer of a frame
    pub fn get_data(&self) -> (r: Result<&[u8], OBError>)
        ensures
            r is Ok,
            r->Ok_0@ == self@.data,
    {
        Ok(self.data.as_slice())
    }

    /// Get the format of the frame
    pub fn get_format(&self) -> (r: Result<OBFormat, OBError>)
        ensures
            r == Ok::<OBFormat, OBError>(self@.format),
    {
        Ok(self.format)
    }

    /// Get the depth frame from the frameset: `found` is the frame that the
    /// runtime handed over, or `None` where the set has no depth frame, which
    /// is no error; `error` is what it left in the error slot.
    pub fn get_depth_frame(&self, found: Option<OBFrame>, error: Option<OBError>) -> (r: Result<
        Option<OBFrame>,
        OBError,
    >)
        ensures
            error is None ==> r == Ok::<Option<OBFrame>, OBError>(found),
            error is Some ==> r == Err::<Option<OBFrame>, OBError>(error->0),
    {
        member(found, error)
    }

    /// Get the color frame from the frameset: `found` is the frame that the
    /// runtime handed over, or `None` where the set has no color frame, which
    /// is no error; `error` is what it left in the error slot.
    pub fn get_color_frame(&self, found: Option<OBFrame>, error: Option<OBError>) -> (r: Result<
        Option<OBFrame>,
        OBError,
    >)
        ensures
            error is None ==> r == Ok::<Option<OBFrame>, OBError>(found),
            error is Some ==> r == Err::<Option<OBFrame>, OBError>(error->0),
    {
        member(found, error)
    }

    /// Get the point cloud frame from the frameset: `found` is the frame that
    /// the runtime handed over, or `None` where the set has no point cloud
    /// frame, which is no error; `error` is what it left in the error slot.
    pub fn get_points_frame(&self, found: Option<OBFrame>, error: Option<OBError>) -> (r: Result<
        Option<OBFrame>,
        OBError,
    >)
        ensures
            error is None ==> r == Ok::<Option<OBFrame>, OBError>(found),
            error is Some ==> r == Err::<Option<OBFrame>, OBError>(error->0),
    {
        member(found, error)
    }

    /// Get the width of the video frame.
    pub fn get_video_width(&self) -> (r: Result<u32, OBError>)
        ensures
            r == Ok::<u32, OBError>(self@.width),
    {
        Ok(self.width)
    }

    /// Get the height of the video frame.
    pub fn get_video_height(&self) -> (r: Result<u32, OBError>)
        ensures
            r == Ok::<u32, OBError>(self@.height),
    {
        Ok(self.height)
    }

    /// Get the width of the point cloud frame.
    pub fn get_points_width(&self) -> (r: Result<u32, OBError>)
        ensures
            r == Ok::<u32, OBError>(self@.width),
    {
        Ok(self.width)
    }

    /// Get the height of the point cloud frame.
    pub fn get_points_height(&self) -> (r: Result<u32, OBError>)
        ensures
            r == Ok::<u32, OBError>(self@.height),
    {
        Ok(self.height)
    }

    /// Get the point cloud coordinate scale.
    pub fn get_points_scale(&self) -> (r: Result<Float32, OBError>)
        ensures
            r == Ok::<Float32, OBError>(self@.scale),
    {
        Ok(self.scale)
    }
}

} // verus!
