//! Stream module
use vstd::prelude::*;
use vstd::std_specs::convert::FromSpecImpl;
use crate::error::OrbbecError;
use crate::sys::enums::OBFormat;
use crate::sys::stream::{
    index_error,
    is_first_match,
    no_match,
    no_match_error,
    OBCameraIntrinsic,
    OBStreamProfile,
    OBStreamProfileList,
};
use crate::sys::{Float32, OBError};

verus! {

/// Stream profile trait
pub trait StreamProfile {
    /// The profile that the runtime knows this one by.
    spec fn profile(&self) -> OBStreamProfile;

    /// The profile that the runtime knows this one by.
    fn as_profile(&self) -> (r: &OBStreamProfile)
        ensures
            *r == self.profile(),
    ;
}

/// Camera intrinsic for a stream
#[derive(Debug, Clone, Copy, PartialEq, Eq, Structural)]
pub struct CameraIntrinsic {
    /// Focal length in pixels along X axis
    pub fx: Float32,
    /// Focal length in pixels along Y axis
    pub fy: Float32,
    /// Optical center abscissa
    pub cx: Float32,
    /// Optical center ordinate
    pub cy: Float32,
    /// Image width in pixels
    pub width: u16,
    /// Image height in pixels
    pub height: u16,
}

impl From<OBCameraIntrinsic> for CameraIntrinsic {
    /// The same focal lengths and optical center, and the image size as unsigned
    /// numbers.
    fn from(intrinsic: OBCameraIntrinsic) -> (r: Self) {
        CameraIntrinsic {
            fx: intrinsic.fx(),
            fy: intrinsic.fy(),
            cx: intrinsic.cx(),
            cy: intrinsic.cy(),
            width: #[verifier::truncate]
            (intrinsic.width() as u16),
            height: #[verifier::truncate]
            (intrinsic.height() as u16),
        }
    }
}

impl FromSpecImpl<OBCameraIntrinsic> for CameraIntrinsic {
    open spec fn obeys_from_spec() -> bool {
        true
    }

    open spec fn from_spec(intrinsic: OBCameraIntrinsic) -> Self {
        CameraIntrinsic::of(intrinsic)
    }
}

impl CameraIntrinsic {
    /// The same focal lengths and optical center, and the image size as unsigned
    /// numbers.
    pub open spec fn of(intrinsic: OBCameraIntrinsic) -> CameraIntrinsic {
        CameraIntrinsic {
            fx: intrinsic.fx,
            fy: intrinsic.fy,
            cx: intrinsic.cx,
            cy: intrinsic.cy,
            width: intrinsic.width as u16,
            height: intrinsic.height as u16,
        }
    }
}

/// Video Stream profile
#[derive(Debug, Clone, Copy, PartialEq, Eq, Structural)]
pub struct VideoStreamProfile {
    pub inner: OBStreamProfile,
}

impl VideoStreamProfile {
    pub fn new(inner: OBStreamProfile) -> (r: Self)
        ensures
            r == (VideoStreamProfile { inner }),
    {
        VideoStreamProfile { inner }
    }

    pub fn inner(&self) -> (r: &OBStreamProfile)
        ensures
            *r == self.inner,
    {
        &self.inner
    }

    /// Width of the stream in pixels
    pub fn width(&self) -> (r: u32)
        ensures
            r == self.inner.width,
    {
        self.inner.width
    }

    /// Height of the stream in pixels
    pub fn height(&self) -> (r: u32)
        ensures
            r == self.inner.height,
    {
        self.inner.height
    }

    /// Pixel format of the stream
    pub fn format(&self) -> (r: OBFormat)
        ensures
            r == self.inner.format,
    {
        self.inner.format
    }

    /// Frame rate of the stream in frames per second
    pub fn fps(&self) -> (r: u32)
        ensures
            r == self.inner.fps,
    {
        self.inner.fps
    }

    /// Get the camera intrinsic parameters for this video stream profile:
    /// `reported` is what the runtime answered, `error` what it left in the
    /// error slot. Where the runtime reported an error, that error is handed
    /// on and `reported` is not looked at.
    pub fn get_intrinsic(&self, reported: OBCameraIntrinsic, error: Option<OBError>) -> (r: Result<
        CameraIntrinsic,
        OrbbecError,
    >)
        ensures
            error is None ==> r == Ok::<CameraIntrinsic, OrbbecError>(CameraIntrinsic::of(reported)),
            error is Some ==> r is Err && r->Err_0@ == error->0@,
    {
        match self.inner.get_video_intrinsic(reported, error) {
            Ok(intrinsic) => Ok(CameraIntrinsic::from(intrinsic)),
            Err(e) => Err(OrbbecError::from_native(e)),
        }
    }
}

impl StreamProfile for VideoStreamProfile {
    open spec fn profile(&self) -> OBStreamProfile {
        self.inner
    }

    fn as_profile(&self) -> (r: &OBStreamProfile) {
        &self.inner
    }
}

/// List of video stream profiles
#[derive(Debug)]
pub struct StreamProfileList {
    pub inner: OBStreamProfileList,
}

impl View for StreamProfileList {
    type V = Seq<OBStreamProfile>;

    open spec fn view(&self) -> Seq<OBStreamProfile> {
        self.inner@
    }
}

impl StreamProfileList {
    pub fn new(inner: OBStreamProfileList) -> (r: Self)
        ensures
            r.inner == inner,
    {
        StreamProfileList { inner }
    }

    /// Get the number of stream profiles in the list
    pub fn len(&self) -> (r: usize)
        ensures
            r == self@.len(),
    {
        self.inner.get_count().unwrap() as usize
    }

    /// Check if the list is empty
    pub fn is_empty(&self) -> (r: bool)
        ensures
            r == (self@.len() == 0),
    {
        self.len() == 0
    }

    /// Get the stream profile at the specified index: `error` is what the
    /// runtime left in the error slot when it was asked for the profile.
    ///
    /// An error of the runtime is handed on as it is; that is how an index at
    /// or beyond the end of the list is refused. Where the runtime reported
    /// none for such an index, the error is of kind `InvalidValue` and says
    /// so.
    pub fn get(&self, index: usize, error: Option<OBError>) -> (r: Result<VideoStreamProfile, OrbbecError>)
        ensures
            error is Some ==> r is Err && r->Err_0@ == error->0@,
            error is None && index < self@.len() ==> r == Ok::<VideoStreamProfile, OrbbecError>(
                VideoStreamProfile { inner: self@[index as int] },
            ),
            error is None && index >= self@.len() ==> r is Err && r->Err_0@ == index_error(
                "OBStreamProfileList::get_stream_profile"@,
                if index <= u32::MAX {
                    index as nat
                } else {
                    u32::MAX as nat
                },
            ),
    {
        match self.inner.get_stream_profile(self.inner.native_index(index), error) {
            Ok(profile) => Ok(VideoStreamProfile::new(profile)),
            Err(e) => Err(OrbbecError::from_native(e)),
        }
    }

    /// Get the corresponding video stream profile through the passed parameters.
    ///
    /// The profile that comes back has exactly the given width, height, format
    /// and frame rate, and is the first such profile of the list. Where the list
    /// holds none, the error is of kind `InvalidValue` and says what was asked
    /// for.
    /// ### Arguments
    /// * `width` - Width of the stream in pixels
    /// * `height` - Height of the stream in pixels
    /// * `format` - Pixel format of the stream
    /// * `fps` - Frame rate of the stream in frames per second
    pub fn get_video_stream_profile(
        &self,
        width: u16,
        height: u16,
        format: OBFormat,
        fps: u8,
    ) -> (r: Result<VideoStreamProfile, OrbbecError>)
        ensures
            match r {
                Ok(profile) => exists|index: int|
                    is_first_match(self@, index, width as int, height as int, format, fps as int)
                        && profile.inner == self@[index],
                Err(error) => {
                    &&& no_match(self@, width as int, height as int, format, fps as int)
                    &&& error@ == no_match_error(width as int, height as int, format, fps as int)
                },
            },
    {
        match self.inner.get_video_stream_profile(width as i32, height as i32, format, fps as i32) {
            Ok(profile) => {
                proof {
                    let index = choose|index: int|
                        is_first_match(self@, index, width as int, height as int, format, fps as int)
                            && profile == self@[index];
                    assert(is_first_match(self@, index, width as int, height as int, format, fps as int));
                }
                Ok(VideoStreamProfile::new(profile))
            },
            Err(error) => Err(OrbbecError::from_native(error)),
        }
    }

    /// A request for what some profile of the list has is met by a profile with
    /// exactly the requested width, height, format and frame rate; a request
    /// for what no profile has is refused.
    pub proof fn lemma_match_exact(
        profiles: Seq<OBStreamProfile>,
        width: int,
        height: int,
        format: OBFormat,
        fps: int,
    )
        ensures
            (exists|i: int| 0 <= i < profiles.len() && (#[trigger] profiles[i]).spec_matches(width, height, format, fps))
                <==> (exists|index: int| is_first_match(profiles, index, width, height, format, fps)),
            (exists|index: int| is_first_match(profiles, index, width, height, format, fps)) <==> !no_match(
                profiles,
                width,
                height,
                format,
                fps,
            ),
            forall|index: int| #[trigger]
                is_first_match(profiles, index, width, height, format, fps) ==> {
                    &&& profiles[index].width == width
                    &&& profiles[index].height == height
                    &&& profiles[index].format == format
                    &&& profiles[index].fps == fps
                },
    {
        if exists|i: int| 0 <= i < profiles.len() && (#[trigger] profiles[i]).spec_matches(width, height, format, fps) {
            let i = choose|i: int| 0 <= i < profiles.len() && (#[trigger] profiles[i]).spec_matches(width, height, format, fps);
            Self::lemma_first_match_exists(profiles, i, width, height, format, fps);
        }
    }

    /// Before any profile that meets a request stands a first one that does.
    proof fn lemma_first_match_exists(
        profiles: Seq<OBStreamProfile>,
        i: int,
        width: int,
        height: int,
        format: OBFormat,
        fps: int,
    )
        requires
            0 <= i < profiles.len(),
            profiles[i].spec_matches(width, height, format, fps),
        ensures
            exists|index: int| is_first_match(profiles, index, width, height, format, fps),
        decreases i,
    {
        if forall|j: int| 0 <= j < i ==> !(#[trigger] profiles[j]).spec_matches(width, height, format, fps) {
            assert(is_first_match(profiles, i, width, height, format, fps));
        } else {
            let j = choose|j: int| 0 <= j < i && (#[trigger] profiles[j]).spec_matches(width, height, format, fps);
            Self::lemma_first_match_exists(profiles, j, width, height, format, fps);
        }
    }
}

} // verus!
