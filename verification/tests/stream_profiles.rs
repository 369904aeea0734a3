use orbbec_sdk::error::OrbbecError;
use orbbec_sdk::stream::{CameraIntrinsic, StreamProfileList, VideoStreamProfile};
use orbbec_sdk::sys::enums::{OBFormat, OBStreamType};
use orbbec_sdk::sys::stream::{OBCameraIntrinsic, OBStreamProfile, OBStreamProfileList};
use orbbec_sdk::sys::{Float32, OBError};

fn float(value: f32) -> Float32 {
    Float32::from_bits(value.to_bits())
}

fn intrinsic(width: i16, height: i16) -> OBCameraIntrinsic {
    OBCameraIntrinsic {
        fx: float(504.5),
        fy: float(504.25),
        cx: float(320.0),
        cy: float(240.5),
        width,
        height,
    }
}

fn two_profiles() -> StreamProfileList {
    let profiles = vec![
        OBStreamProfile::new(OBStreamType::Depth, OBFormat::Y16, 848, 480, 15),
        OBStreamProfile::new(OBStreamType::Color, OBFormat::MJPG, 1280, 720, 15),
    ];
    StreamProfileList::new(OBStreamProfileList::new(profiles))
}

#[test]
fn match_returns_first_listed_profile() {
    let list = two_profiles();
    let profile = list.get_video_stream_profile(848, 480, OBFormat::Y16, 15).unwrap();
    assert_eq!(profile, list.get(0, None).unwrap());
    assert_eq!(profile.width(), 848);
    assert_eq!(profile.height(), 480);
    assert_eq!(profile.format(), OBFormat::Y16);
    assert_eq!(profile.fps(), 15);
    assert_eq!(list.inner.position(848, 480, OBFormat::Y16, 15), Some(0));
}

#[test]
fn match_of_absent_profile_is_invalid_value() {
    let list = two_profiles();
    let error = list.get_video_stream_profile(640, 480, OBFormat::Y16, 30).unwrap_err();
    assert!(matches!(error, OrbbecError::InvalidValue(_)));
    assert_eq!(
        error.data().message,
        "No stream profile has the requested width, height, format and frame rate"
    );
    assert_eq!(error.data().function, "OBStreamProfileList::get_video_stream_profile");
    assert_eq!(error.data().args, "width: 640, height: 480, format: 8, fps: 30");
    assert_eq!(list.inner.position(640, 480, OBFormat::Y16, 30), None);
}

#[test]
fn match_finds_every_listed_profile() {
    let list = two_profiles();
    for index in 0..list.len() {
        let listed = list.get(index, None).unwrap();
        let found = list
            .get_video_stream_profile(
                listed.width() as u16,
                listed.height() as u16,
                listed.format(),
                listed.fps() as u8,
            )
            .unwrap();
        assert_eq!(found.width(), listed.width());
        assert_eq!(found.height(), listed.height());
        assert_eq!(found.format(), listed.format());
        assert_eq!(found.fps(), listed.fps());
    }
}

#[test]
fn match_needs_all_four_fields() {
    let list = two_profiles();
    assert!(list.get_video_stream_profile(848, 480, OBFormat::Y16, 30).is_err());
    assert!(list.get_video_stream_profile(848, 480, OBFormat::MJPG, 15).is_err());
    assert!(list.get_video_stream_profile(848, 720, OBFormat::Y16, 15).is_err());
    assert!(list.get_video_stream_profile(1280, 480, OBFormat::Y16, 15).is_err());
    assert!(list.get_video_stream_profile(0, 0, OBFormat::Unknown, 0).is_err());
}

#[test]
fn match_takes_the_first_of_two_equal_requests() {
    let first = OBStreamProfile::new(OBStreamType::Depth, OBFormat::Y16, 640, 400, 30);
    let second = OBStreamProfile::new(OBStreamType::Infrared, OBFormat::Y16, 640, 400, 30);
    let list = StreamProfileList::new(OBStreamProfileList::new(vec![first, second]));
    let found = list.get_video_stream_profile(640, 400, OBFormat::Y16, 30).unwrap();
    assert_eq!(found, VideoStreamProfile::new(first));
    assert_ne!(found, VideoStreamProfile::new(second));
}

#[test]
fn negative_request_matches_nothing() {
    let list = two_profiles();
    let error = list.inner.get_video_stream_profile(-848, 480, OBFormat::Y16, 15).unwrap_err();
    assert_eq!(error.args, "width: -848, height: 480, format: 8, fps: 15");
    assert_eq!(list.inner.position(848, -1, OBFormat::Y16, 15), None);
}

#[test]
fn empty_list_matches_nothing() {
    let list = StreamProfileList::new(OBStreamProfileList::new(Vec::new()));
    assert!(list.is_empty());
    assert_eq!(list.len(), 0);
    assert!(list.get_video_stream_profile(848, 480, OBFormat::Y16, 15).is_err());
    assert!(list.get(0, None).is_err());
}

#[test]
fn get_is_bounded_by_the_count() {
    let list = two_profiles();
    assert_eq!(list.len(), 2);
    assert!(!list.is_empty());
    assert_eq!(list.inner.get_count().unwrap(), 2);
    assert_eq!(list.get(1, None).unwrap().format(), OBFormat::MJPG);
    let reported = OBError::new(4, "index out of range", "ob_stream_profile_list_get_profile", "index");
    let error = list.get(2, Some(reported)).unwrap_err();
    assert!(matches!(error, OrbbecError::InvalidValue(_)));
    assert_eq!(error.data().message, "index out of range");
    assert_eq!(error.data().function, "ob_stream_profile_list_get_profile");
    let error = list.get(2, None).unwrap_err();
    assert!(matches!(error, OrbbecError::InvalidValue(_)));
    assert_eq!(error.data().message, "Index out of range");
    assert_eq!(error.data().function, "OBStreamProfileList::get_stream_profile");
    assert_eq!(error.data().args, "index: 2");
    let far = list.get(usize::MAX, None).unwrap_err();
    assert_eq!(far.data().args, "index: 4294967295");
    assert_eq!(list.inner.native_index(1), 1);
    assert_eq!(list.inner.native_index(usize::MAX), u32::MAX);
    let failed = OBError::new(2, "gone", "ob_stream_profile_list_get_profile", "index");
    assert!(matches!(list.get(0, Some(failed)), Err(OrbbecError::CameraDisconnected(_))));
}

#[test]
fn profile_reports_its_fields() {
    let profile = OBStreamProfile::new(OBStreamType::Color, OBFormat::RGB, 1920, 1080, 30);
    assert_eq!(profile.get_type().unwrap(), OBStreamType::Color);
    assert_eq!(profile.get_format().unwrap(), OBFormat::RGB);
    assert_eq!(profile.get_video_width().unwrap(), 1920);
    assert_eq!(profile.get_video_height().unwrap(), 1080);
    assert_eq!(profile.get_video_fps().unwrap(), 30);
    assert_eq!(profile.get_video_intrinsic(intrinsic(1920, 1080), None).unwrap(), intrinsic(1920, 1080));
    let failure = OBError::new(4, "not a video profile", "ob_video_stream_profile_get_intrinsic", "profile");
    assert!(profile.get_video_intrinsic(intrinsic(0, 0), Some(failure)).is_err());
    assert!(profile.matches(1920, 1080, OBFormat::RGB, 30));
    assert!(!profile.matches(1920, 1080, OBFormat::BGR, 30));
}

#[test]
fn intrinsic_keeps_floats_and_widens_size() {
    let profile = VideoStreamProfile::new(OBStreamProfile::new(
        OBStreamType::Depth,
        OBFormat::Y16,
        848,
        480,
        15,
    ));
    let got = profile.get_intrinsic(intrinsic(848, 480), None).unwrap();
    assert_eq!(
        got,
        CameraIntrinsic {
            fx: float(504.5),
            fy: float(504.25),
            cx: float(320.0),
            cy: float(240.5),
            width: 848,
            height: 480,
        }
    );
    assert_eq!(f32::from_bits(got.fx.to_bits()), 504.5);
    let failure = OBError::new(4, "not a video profile", "ob_video_stream_profile_get_intrinsic", "profile");
    let error = profile.get_intrinsic(intrinsic(1, 1), Some(failure)).unwrap_err();
    assert!(matches!(error, OrbbecError::InvalidValue(_)));
    assert_eq!(error.data().message, "not a video profile");
    let negative = CameraIntrinsic::from(intrinsic(-1, -2));
    assert_eq!(negative.width, 65535);
    assert_eq!(negative.height, 65534);
}
