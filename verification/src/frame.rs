//! Frame module
use vstd::prelude::*;
use vstd::slice::*;
use vstd::std_specs::convert::FromSpecImpl;
use crate::error::OrbbecError;
use crate::sys::enums::OBFormat;
use crate::sys::frame::{frame_view, FrameView, OBFrame};
use crate::sys::{Float32, OBError};

verus! {

/// Frame trait
pub trait Frame: From<OBFrame> {
    /// The frame of the runtime that this one wraps.
    spec fn frame(&self) -> OBFrame;

    /// The frame of the runtime that this one wraps.
    fn as_frame(&self) -> (r: &OBFrame)
        ensures
            *r == self.frame(),
    ;

    /// Wraps a frame of the runtime as a frame of this role.
    fn wrap(frame: OBFrame) -> (r: Self)
        ensures
            r.frame() == frame,
    ;
}

/// Single video frame
#[derive(Debug)]
pub struct VideoFrame {
    pub inner: OBFrame,
}

impl View for VideoFrame {
    type V = FrameView;

    open spec fn view(&self) -> FrameView {
        self.inner@
    }
}

impl VideoFrame {
    /// Get the raw data of the video frame
    pub fn raw_data(&self) -> (r: &[u8])
        ensures
            r@ == self@.data,
    {
        self.inner.data.as_slice()
    }

    /// Get the width of the video frame: the low 16 bits of the width that the
    /// runtime reports.
    pub fn width(&self) -> (r: u16)
        ensures
            r == self@.width as u16,
    {
        #[verifier::truncate]
        (self.inner.width as u16)
    }

    /// Get the height of the video frame: the low 16 bits of the height that
    /// the runtime reports.
    pub fn height(&self) -> (r: u16)
        ensures
            r == self@.height as u16,
    {
        #[verifier::truncate]
        (self.inner.height as u16)
    }

    /// Get the format of the video frame data
    pub fn format(&self) -> (r: OBFormat)
        ensures
            r == self@.format,
    {
        self.inner.format
    }

    /// Get the time of capture by the device clock, in microseconds
    pub fn timestamp_us(&self) -> (r: u64)
        ensures
            r == self@.device_timestamp_us,
    {
        self.inner.device_timestamp_us
    }

    /// Get the time of arrival by the system clock, in microseconds
    pub fn system_timestamp_us(&self) -> (r: u64)
        ensures
            r == self@.system_timestamp_us,
    {
        self.inner.system_timestamp_us
    }

    /// Get the time of capture on the clock that devices share, in
    /// microseconds
    pub fn global_timestamp_us(&self) -> (r: u64)
        ensures
            r == self@.global_timestamp_us,
    {
        self.inner.global_timestamp_us
    }

    /// For a depth frame: the factor that turns a raw pixel value into a
    /// distance in millimeters.
    pub fn depth_scale(&self) -> (r: Float32)
        ensures
            r == self@.scale,
    {
        self.inner.scale
    }
}

impl From<OBFrame> for VideoFrame {
    fn from(frame: OBFrame) -> (r: Self) {
        VideoFrame { inner: frame }
    }
}

impl FromSpecImpl<OBFrame> for VideoFrame {
    open spec fn obeys_from_spec() -> bool {
        true
    }

    open spec fn from_spec(frame: OBFrame) -> Self {
        VideoFrame { inner: frame }
    }
}

impl Frame for VideoFrame {
    open spec fn frame(&self) -> OBFrame {
        self.inner
    }

    fn as_frame(&self) -> (r: &OBFrame) {
        &self.inner
    }

    fn wrap(frame: OBFrame) -> (r: Self) {
        VideoFrame { inner: frame }
    }
}

/// A frame of points in space.
#[derive(Debug)]
pub struct PointCloudFrame {
    pub inner: OBFrame,
}

impl View for PointCloudFrame {
    type V = FrameView;

    open spec fn view(&self) -> FrameView {
        self.inner@
    }
}

impl PointCloudFrame {
    /// Get the raw data of the points
    pub fn raw_data(&self) -> (r: &[u8])
        ensures
            r@ == self@.data,
    {
        self.inner.data.as_slice()
    }

    /// Get the format of the points
    pub fn format(&self) -> (r: OBFormat)
        ensures
            r == self@.format,
    {
        self.inner.format
    }

    /// Whether each point carries a color: told by the format of the frame
    /// alone, which is then that of colored points.
    pub fn has_color(&self) -> (r: bool)
        ensures
            r == (self@.format == OBFormat::RGBPoint),
    {
        self.inner.format == OBFormat::RGBPoint
    }

    /// The factor on each coordinate of a point.
    pub fn coordinate_scale(&self) -> (r: Float32)
        ensures
            r == self@.scale,
    {
        self.inner.scale
    }
}

impl From<OBFrame> for PointCloudFrame {
    fn from(frame: OBFrame) -> (r: Self) {
        PointCloudFrame { inner: frame }
    }
}

impl FromSpecImpl<OBFrame> for PointCloudFrame {
    open spec fn obeys_from_spec() -> bool {
        true
    }

    open spec fn from_spec(frame: OBFrame) -> Self {
        PointCloudFrame { inner: frame }
    }
}

impl Frame for PointCloudFrame {
    open spec fn frame(&self) -> OBFrame {
        self.inner
    }

    fn as_frame(&self) -> (r: &OBFrame) {
        &self.inner
    }

    fn wrap(frame: OBFrame) -> (r: Self) {
        PointCloudFrame { inner: frame }
    }
}

/// A container of multiple frames.
#[derive(Debug)]
pub struct FrameSet {
    pub inner: OBFrame,
}

impl View for FrameSet {
    type V = FrameView;

    open spec fn view(&self) -> FrameView {
        self.inner@
    }
}

/// The view of a video frame that may be absent.
pub open spec fn video_view(frame: Option<VideoFrame>) -> Option<FrameView> {
    match frame {
        Some(f) => Some(f@),
        None => None,
    }
}

/// The view of a point cloud frame that may be absent.
pub open spec fn points_view(frame: Option<PointCloudFrame>) -> Option<FrameView> {
    match frame {
        Some(f) => Some(f@),
        None => None,
    }
}

impl FrameSet {
    /// Get the depth frame from the frameset: `found` is the frame that the
    /// runtime handed over, or `None` where the set has no depth frame;
    /// `error` is what it left in the error slot.
    ///
    /// A set that has no depth frame gives `Ok(None)`: absence is no error.
    /// Where the runtime reported an error, that error is handed on and
    /// `found` is not looked at.
    pub fn get_depth_frame(&self, found: Option<OBFrame>, error: Option<OBError>) -> (r: Result<
        Option<VideoFrame>,
        OrbbecError,
    >)
        ensures
            error is None ==> r is Ok && video_view(r->Ok_0) == frame_view(found),
            error is Some ==> r is Err && r->Err_0@ == error->0@,
    {
        match self.inner.get_depth_frame(found, error) {
            Ok(Some(frame)) => Ok(Some(VideoFrame::from(frame))),
            Ok(None) => Ok(None),
            Err(e) => Err(OrbbecError::from_native(e)),
        }
    }

    /// Get the color frame from the frameset: `found` is the frame that the
    /// runtime handed over, or `None` where the set has no color frame;
    /// `error` is what it left in the error slot.
    ///
    /// A set that has no color frame gives `Ok(None)`: absence is no error.
    /// Where the runtime reported an error, that error is handed on and
    /// `found` is not looked at.
    pub fn get_color_frame(&self, found: Option<OBFrame>, error: Option<OBError>) -> (r: Result<
        Option<VideoFrame>,
        OrbbecError,
    >)
        ensures
            error is None ==> r is Ok && video_view(r->Ok_0) == frame_view(found),
            error is Some ==> r is Err && r->Err_0@ == error->0@,
    {
        match self.inner.get_color_frame(found, error) {
            Ok(Some(frame)) => Ok(Some(VideoFrame::from(frame))),
            Ok(None) => Ok(None),
            Err(e) => Err(OrbbecError::from_native(e)),
        }
    }

    /// Get the point cloud frame from the frameset: `found` is the frame that
    /// the runtime handed over, or `None` where the set has no point cloud
    /// frame; `error` is what it left in the error slot.
    ///
    /// A set that has no point cloud frame gives `Ok(None)`: absence is no
    /// error. Where the runtime reported an error, that error is handed on and
    /// `found` is not looked at.
    pub fn get_points_frame(&self, found: Option<OBFrame>, error: Option<OBError>) -> (r: Result<
        Option<PointCloudFrame>,
        OrbbecError,
    >)
        ensures
            error is None ==> r is Ok && points_view(r->Ok_0) == frame_view(found),
            error is Some ==> r is Err && r->Err_0@ == error->0@,
    {
        match self.inner.get_points_frame(found, error) {
            Ok(Some(frame)) => Ok(Some(PointCloudFrame::from(frame))),
            Ok(None) => Ok(None),
            Err(e) => Err(OrbbecError::from_native(e)),
        }
    }
}

impl From<OBFrame> for FrameSet {
    fn from(frame: OBFrame) -> (r: Self) {
        FrameSet { inner: frame }
    }
}

impl FromSpecImpl<OBFrame> for FrameSet {
    open spec fn obeys_from_spec() -> bool {
        true
    }

    open spec fn from_spec(frame: OBFrame) -> Self {
        FrameSet { inner: frame }
    }
}

impl Frame for FrameSet {
    open spec fn frame(&self) -> OBFrame {
        self.inner
    }

    fn as_frame(&self) -> (r: &OBFrame) {
        &self.inner
    }

    fn wrap(frame: OBFrame) -> (r: Self) {
        FrameSet { inner: frame }
    }
}

} // verus!
