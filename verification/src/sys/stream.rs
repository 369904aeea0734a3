//! Stream profiles and related operations
use vstd::prelude::*;
use vstd::string::*;
use crate::sys::enums::{OBExceptionType, OBFormat, OBStreamType};
use crate::sys::{ErrorView, Float32, OBError};
use crate::text::{decimal, decimal_text, signed_decimal, signed_decimal_text};

verus! {

/// Camera intrinsic parameters
#[derive(Debug, Clone, Copy, PartialEq, Eq, Structural)]
pub struct OBCameraIntrinsic {
    pub fx: Float32,
    pub fy: Float32,
    pub cx: Float32,
    pub cy: Float32,
    pub width: i16,
    pub height: i16,
}

impl OBCameraIntrinsic {
    /// Focal length in pixels along X axis
    pub fn fx(&self) -> (r: Float32)
        ensures
            r == self.fx,
    {
        self.fx
    }

    /// Focal length in pixels along Y axis
    pub fn fy(&self) -> (r: Float32)
        ensures
            r == self.fy,
    {
        self.fy
    }

    /// Optical center abscissa
    pub fn cx(&self) -> (r: Float32)
        ensures
            r == self.cx,
    {
        self.cx
    }

    /// Optical center ordinate
    pub fn cy(&self) -> (r: Float32)
        ensures
            r == self.cy,
    {
        self.cy
    }

    /// Image width in pixels
    pub fn width(&self) -> (r: i16)
        ensures
            r == self.width,
    {
        self.width
    }

    /// Image height in pixels
    pub fn height(&self) -> (r: i16)
        ensures
            r == self.height,
    {
        self.height
    }
}

/// Stream profile: one capture configuration that a sensor offers.
#[derive(Debug, Clone, Copy, PartialEq, Eq, Structural)]
pub struct OBStreamProfile {
    pub stream_type: OBStreamType,
    pub format: OBFormat,
    pub width: u32,
    pub height: u32,
    pub fps: u32,
}

impl OBStreamProfile {
    /// The profile of a video stream with the given format, resolution and
    /// frame rate.
    pub fn new(stream_type: OBStreamType, format: OBFormat, width: u32, height: u32, fps: u32) -> (r: Self)
        ensures
            r == (OBStreamProfile { stream_type, format, width, height, fps }),
    {
        OBStreamProfile { stream_type, format, width, height, fps }
    }

    /// Get the type of the stream
    pub fn get_type(&self) -> (r: Result<OBStreamType, OBError>)
        ensures
            r == Ok::<OBStreamType, OBError>(self.stream_type),
    {
        Ok(self.stream_type)
    }

    /// Get video stream profile intrinsic: `reported` is what the runtime
    /// answered, `error` what it left in the error slot. What came with an
    /// error is not looked at.
    pub fn get_video_intrinsic(&self, reported: OBCameraIntrinsic, error: Option<OBError>) -> (r: Result<
        OBCameraIntrinsic,
        OBError,
    >)
        ensures
            error is None ==> r == Ok::<OBCameraIntrinsic, OBError>(reported),
            error is Some ==> r == Err::<OBCameraIntrinsic, OBError>(error->0),
    {
        match OBError::consume(error) {
            Ok(()) => Ok(reported),
            Err(e) => Err(e),
        }
    }

    /// Get stream profile format
    pub fn get_format(&self) -> (r: Result<OBFormat, OBError>)
        ensures
            r == Ok::<OBFormat, OBError>(self.format),
    {
        Ok(self.format)
    }

    /// Get the frame rate of the video stream.
    pub fn get_video_fps(&self) -> (r: Result<u32, OBError>)
        ensures
            r == Ok::<u32, OBError>(self.fps),
    {
        Ok(self.fps)
    }

    /// Get the width of the video stream.
    pub fn get_video_width(&self) -> (r: Result<u32, OBError>)
        ensures
            r == Ok::<u32, OBError>(self.width),
    {
        Ok(self.width)
    }

    /// Get the height of the video stream.
    pub fn get_video_height(&self) -> (r: Result<u32, OBError>)
        ensures
            r == Ok::<u32, OBError>(self.height),
    {
        Ok(self.height)
    }

    /// Whether this profile has exactly the given resolution, format and frame
    /// rate.
    pub open spec fn spec_matches(self, width: int, height: int, format: OBFormat, fps: int) -> bool {
        &&& self.width == width
        &&& self.height == height
        &&& self.format == format
        &&& self.fps == fps
    }

    /// Whether this profile has exactly the given resolution, format and frame
    /// rate. A negative number is the width, height or rate of no profile.
    pub fn matches(&self, width: i32, height: i32, format: OBFormat, fps: i32) -> (r: bool)
        ensures
            r == self.spec_matches(width as int, height as int, format, fps as int),
    {
        width >= 0 && height >= 0 && fps >= 0 && self.width == width as u32 && self.height
            == height as u32 && self.format == format && self.fps == fps as u32
    }
}

/// Whether `index` is the place of the first profile in `profiles` that has
/// exactly the given resolution, format and frame rate.
pub open spec fn is_first_match(
    profiles: Seq<OBStreamProfile>,
    index: int,
    width: int,
    height: int,
    format: OBFormat,
    fps: int,
) -> bool {
    &&& 0 <= index < profiles.len()
    &&& profiles[index].spec_matches(width, height, format, fps)
    &&& forall|j: int| 0 <= j < index ==> !(#[trigger] profiles[j]).spec_matches(width, height, format, fps)
}

/// Whether no profile in `profiles` has exactly the given resolution, format
/// and frame rate.
pub open spec fn no_match(
    profiles: Seq<OBStreamProfile>,
    width: int,
    height: int,
    format: OBFormat,
    fps: int,
) -> bool {
    forall|j: int| 0 <= j < profiles.len() ==> !(#[trigger] profiles[j]).spec_matches(width, height, format, fps)
}

/// The error for an index at or beyond the end of a list, where the runtime
/// reported none.
pub open spec fn index_error(function: Seq<char>, index: nat) -> ErrorView {
    ErrorView {
        kind: OBExceptionType::InvalidValue,
        message: "Index out of range"@,
        function,
        args: "index: "@ + decimal_text(index),
    }
}

/// The error for a request that no profile of a list meets.
pub open spec fn no_match_error(width: int, height: int, format: OBFormat, fps: int) -> ErrorView {
    ErrorView {
        kind: OBExceptionType::InvalidValue,
        message: "No stream profile has the requested width, height, format and frame rate"@,
        function: "OBStreamProfileList::get_video_stream_profile"@,
        args: "width: "@ + signed_decimal_text(width) + ", height: "@ + signed_decimal_text(height)
            + ", format: "@ + signed_decimal_text(format.spec_code() as int) + ", fps: "@
            + signed_decimal_text(fps),
    }
}

/// Builds the error for an index at or beyond the end of a list.
pub fn make_index_error(function: &str, index: u32) -> (r: OBError)
    ensures
        r@ == index_error(function@, index as nat),
{
    let mut args = String::from_str("index: ");
    let digits = decimal(index as u64);
    args.append(digits.as_str());
    OBError {
        exception_type: OBExceptionType::InvalidValue,
        message: String::from_str("Index out of range"),
        function: String::from_str(function),
        args,
    }
}

/// List of video stream profiles, in the order in which the sensor
/// enumerates them.
#[derive(Debug)]
pub struct OBStreamProfileList {
    profiles: Vec<OBStreamProfile>,
}

impl View for OBStreamProfileList {
    type V = Seq<OBStreamProfile>;

    closed spec fn view(&self) -> Seq<OBStreamProfile> {
        self.profiles@
    }
}

impl OBStreamProfileList {
    #[verifier::type_invariant]
    spec fn counted(&self) -> bool {
        self.profiles@.len() <= u32::MAX
    }

    /// The list of the given profiles, in their order.
    pub fn new(profiles: Vec<OBStreamProfile>) -> (r: Self)
        requires
            profiles@.len() <= u32::MAX,
        ensures
            r@ == profiles@,
    {
        OBStreamProfileList { profiles }
    }

    /// Get the number of stream profiles in the list
    pub fn get_count(&self) -> (r: Result<u32, OBError>)
        ensures
            r is Ok,
            r->Ok_0 == self@.len(),
    {
        proof {
            use_type_invariant(self);
        }
        Ok(self.profiles.len() as u32)
    }

    /// The index that the runtime is asked with for the profile at `index`:
    /// the index itself, or the largest that 32 bits hold where it is beyond
    /// them, which is then beyond the list too.
    pub fn native_index(&self, index: usize) -> (r: u32)
        ensures
            index <= u32::MAX ==> r == index,
            index > u32::MAX ==> r == u32::MAX && r >= self@.len(),
    {
        proof {
            use_type_invariant(self);
        }
        if index <= u32::MAX as usize {
            index as u32
        } else {
            u32::MAX
        }
    }

    /// Get the stream profile at the specified index: `error` is what the
    /// runtime left in the error slot.
    ///
    /// An error of the runtime is handed on as it is; that is how an index at
    /// or beyond the end of the list is refused. Where the runtime reported
    /// none for such an index, the error is of kind `InvalidValue` and says
    /// so.
    pub fn get_stream_profile(&self, index: u32, error: Option<OBError>) -> (r: Result<OBStreamProfile, OBError>)
        ensures
            error is Some ==> r == Err::<OBStreamProfile, OBError>(error->0),
            error is None && index < self@.len() ==> r == Ok::<OBStreamProfile, OBError>(
                self@[index as int],
            ),
            error is None && index >= self@.len() ==> r is Err && r->Err_0@ == index_error(
                "OBStreamProfileList::get_stream_profile"@,
                index as nat,
            ),
    {
        match OBError::consume(error) {
            Ok(()) => {
                if (index as usize) < self.profiles.len() {
                    Ok(self.profiles[index as usize])
                } else {
                    Err(make_index_error("OBStreamProfileList::get_stream_profile", index))
                }
            },
            Err(e) => Err(e),
        }
    }

    /// The place of the first profile in the list that has exactly the given
    /// resolution, format and frame rate, if there is one.
    pub fn position(&self, width: i32, height: i32, format: OBFormat, fps: i32) -> (r: Option<u32>)
        ensures
            match r {
                Some(index) => is_first_match(
                    self@,
                    index as int,
                    width as int,
                    height as int,
                    format,
                    fps as int,
                ),
                None => no_match(self@, width as int, height as int, format, fps as int),
            },
    {
        proof {
            use_type_invariant(self);
        }
        let mut index: usize = 0;
        while index < self.profiles.len()
            invariant
                self.profiles@.len() <= u32::MAX,
                0 <= index <= self.profiles@.len(),
                forall|j: int|
                    0 <= j < index ==> !(#[trigger] self.profiles@[j]).spec_matches(
                        width as int,
                        height as int,
                        format,
                        fps as int,
                    ),
            decreases self.profiles@.len() - index,
        {
            if self.profiles[index].matches(width, height, format, fps) {
                return Some(index as u32);
            }
            index = index + 1;
        }
        None
    }

    /// Match the corresponding stream profile through the passed parameters:
    /// the profile must have exactly the given width, height, format and frame
    /// rate. If there are multiple matches, the first one in the list is
    /// returned. If there is none, the error is of kind `InvalidValue`.
    pub fn get_video_stream_profile(
        &self,
        width: i32,
        height: i32,
        format: OBFormat,
        fps: i32,
    ) -> (r: Result<OBStreamProfile, OBError>)
        ensures
            match r {
                Ok(profile) => exists|index: int|
                    is_first_match(self@, index, width as int, height as int, format, fps as int)
                        && profile == self@[index],
                Err(error) => {
                    &&& no_match(self@, width as int, height as int, format, fps as int)
                    &&& error@ == no_match_error(width as int, height as int, format, fps as int)
                },
            },
    {
        match self.position(width, height, format, fps) {
            Some(index) => {
                proof {
                    use_type_invariant(self);
                }
                Ok(self.profiles[index as usize])
            },
            None => {
                let mut args = String::from_str("width: ");
                args.append(signed_decimal(width as i64).as_str());
                args.append(", height: ");
                args.append(signed_decimal(height as i64).as_str());
                args.append(", format: ");
                args.append(signed_decimal(format.code() as i64).as_str());
                args.append(", fps: ");
                args.append(signed_decimal(fps as i64).as_str());
                Err(
                    OBError {
                        exception_type: OBExceptionType::InvalidValue,
                        message: String::from_str(
                            "No stream profile has the requested width, height, format and frame rate",
                        ),
                        function: String::from_str("OBStreamProfileList::get_video_stream_profile"),
                        args,
                    },
                )
            },
        }
    }
}

} // verus!
