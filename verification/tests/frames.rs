use orbbec_sdk::error::OrbbecError;
use orbbec_sdk::frame::{Frame, FrameSet, PointCloudFrame, VideoFrame};
use orbbec_sdk::sys::enums::OBFormat;
use orbbec_sdk::sys::frame::OBFrame;
use orbbec_sdk::sys::{Float32, OBError};

fn frame(format: OBFormat, width: u32, height: u32, data: Vec<u8>) -> OBFrame {
    OBFrame {
        format,
        width,
        height,
        data,
        device_timestamp_us: 1_000,
        system_timestamp_us: 2_000,
        global_timestamp_us: 3_000,
        scale: Float32::from_bits(1.0f32.to_bits()),
    }
}

fn color() -> OBFrame {
    frame(OBFormat::RGB, 2, 1, vec![1, 2, 3, 4, 5, 6])
}

fn depth() -> OBFrame {
    frame(OBFormat::Y16, 2, 2, vec![10, 0, 20, 0, 30, 0, 40, 0])
}

fn set() -> FrameSet {
    FrameSet::from(OBFrame::new(OBFormat::Unknown, 0, 0, Vec::new()))
}

fn invalid() -> OBError {
    OBError::new(4, "frame is null", "ob_frameset_get_depth_frame", "frameset")
}

#[test]
fn frameset_with_only_color_has_no_depth() {
    let set = set();
    assert!(set.get_depth_frame(None, None).unwrap().is_none());
    let frame = set.get_color_frame(Some(color()), None).unwrap().unwrap();
    assert_eq!(frame.format(), OBFormat::RGB);
    assert_eq!(frame.width(), 2);
    assert_eq!(frame.height(), 1);
    assert_eq!(frame.raw_data(), &[1, 2, 3, 4, 5, 6]);
    assert!(set.get_points_frame(None, None).unwrap().is_none());
}

#[test]
fn frameset_gives_each_role_its_frame() {
    let set = set();
    let depth_frame = set.get_depth_frame(Some(depth()), None).unwrap().unwrap();
    assert_eq!(depth_frame.format(), OBFormat::Y16);
    assert_eq!(depth_frame.raw_data(), &[10, 0, 20, 0, 30, 0, 40, 0]);
    assert_eq!((depth_frame.width(), depth_frame.height()), (2, 2));
    let color_frame = set.get_color_frame(Some(color()), None).unwrap().unwrap();
    assert_eq!(color_frame.format(), OBFormat::RGB);
    let points = frame(OBFormat::RGBPoint, 1, 1, vec![9; 24]);
    let cloud = set.get_points_frame(Some(points), None).unwrap().unwrap();
    assert!(cloud.has_color());
    assert_eq!(cloud.raw_data().len(), 24);
}

#[test]
fn lookup_error_is_handed_on() {
    let set = set();
    let error = set.get_depth_frame(Some(depth()), Some(invalid())).unwrap_err();
    assert!(matches!(error, OrbbecError::InvalidValue(_)));
    assert_eq!(error.data().message, "frame is null");
    assert_eq!(error.data().function, "ob_frameset_get_depth_frame");
    assert!(matches!(set.get_color_frame(None, Some(invalid())), Err(OrbbecError::InvalidValue(_))));
    assert!(matches!(set.get_points_frame(None, Some(invalid())), Err(OrbbecError::InvalidValue(_))));
}

#[test]
fn video_frame_reports_its_fields() {
    let frame = VideoFrame::from(depth());
    assert_eq!(frame.width(), 2);
    assert_eq!(frame.height(), 2);
    assert_eq!(frame.format(), OBFormat::Y16);
    assert_eq!(frame.raw_data().len(), 8);
    assert_eq!(frame.timestamp_us(), 1_000);
    assert_eq!(frame.system_timestamp_us(), 2_000);
    assert_eq!(frame.global_timestamp_us(), 3_000);
    assert_eq!(f32::from_bits(frame.depth_scale().to_bits()), 1.0);
}

#[test]
fn video_frame_size_keeps_low_sixteen_bits() {
    let frame = VideoFrame::from(frame(OBFormat::Y8, 65536 + 640, 65535, Vec::new()));
    assert_eq!(frame.width(), 640);
    assert_eq!(frame.height(), 65535);
}

#[test]
fn point_cloud_color_is_told_by_the_format() {
    let plain = PointCloudFrame::from(frame(OBFormat::Point, 4, 1, vec![0; 48]));
    let colored = PointCloudFrame::from(frame(OBFormat::RGBPoint, 4, 1, vec![0; 48]));
    let odd = PointCloudFrame::from(frame(OBFormat::RGB, 4, 1, vec![0; 96]));
    assert!(!plain.has_color());
    assert!(colored.has_color());
    assert!(!odd.has_color());
    assert_eq!(plain.format(), OBFormat::Point);
    assert_eq!(f32::from_bits(colored.coordinate_scale().to_bits()), 1.0);
}

#[test]
fn native_frame_reports_its_fields() {
    let frame = depth();
    assert_eq!(frame.get_data().unwrap(), &[10, 0, 20, 0, 30, 0, 40, 0]);
    assert_eq!(frame.get_format().unwrap(), OBFormat::Y16);
    assert_eq!(frame.get_video_width().unwrap(), 2);
    assert_eq!(frame.get_video_height().unwrap(), 2);
    assert_eq!(frame.get_points_width().unwrap(), 2);
    assert_eq!(frame.get_points_height().unwrap(), 2);
    assert_eq!(frame.get_points_scale().unwrap(), Float32::from_bits(1.0f32.to_bits()));
    assert!(frame.get_depth_frame(None, None).unwrap().is_none());
    assert_eq!(frame.get_color_frame(Some(color()), None).unwrap().unwrap().data, vec![1, 2, 3, 4, 5, 6]);
    assert!(frame.get_points_frame(Some(color()), Some(invalid())).is_err());
}

#[test]
fn new_frame_has_zero_times() {
    let frame = OBFrame::new(OBFormat::Y8, 3, 1, vec![7, 8, 9]);
    assert_eq!(frame.format, OBFormat::Y8);
    assert_eq!((frame.width, frame.height), (3, 1));
    assert_eq!(frame.data, vec![7, 8, 9]);
    assert_eq!(frame.device_timestamp_us, 0);
    assert_eq!(frame.system_timestamp_us, 0);
    assert_eq!(frame.global_timestamp_us, 0);
    assert_eq!(frame.scale, Float32::from_bits(0));
}

#[test]
fn frame_copy_is_equal_and_apart() {
    let frame = depth();
    let mut copy = frame.clone();
    assert_eq!(copy.data, frame.data);
    copy.data[0] = 99;
    assert_eq!(frame.data[0], 10);
}

#[test]
fn wrapping_keeps_the_frame() {
    let frame = VideoFrame::wrap(color());
    assert_eq!(frame.as_frame().get_format().unwrap(), OBFormat::RGB);
    let set = FrameSet::wrap(OBFrame::new(OBFormat::Unknown, 0, 0, Vec::new()));
    assert_eq!(set.as_frame().get_video_width().unwrap(), 0);
    let cloud = PointCloudFrame::wrap(frame_of_points());
    assert_eq!(cloud.as_frame().get_data().unwrap().len(), 12);
}

fn frame_of_points() -> OBFrame {
    frame(OBFormat::Point, 1, 1, vec![0; 12])
}
