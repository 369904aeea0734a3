use orbbec_sdk::device::Device;
use orbbec_sdk::error::OrbbecError;
use orbbec_sdk::pipeline::{Config, Pipeline};
use orbbec_sdk::stream::VideoStreamProfile;
use orbbec_sdk::sys::device::{OBDevice, OBDeviceInfo};
use orbbec_sdk::sys::enums::{
    OBAlignMode, OBDeviceType, OBFormat, OBFrameAggregateOutputMode, OBSensorType, OBStreamType,
};
use orbbec_sdk::sys::frame::OBFrame;
use orbbec_sdk::sys::pipeline::{OBConfig, OBPipeline, OBPipelineState};
use orbbec_sdk::sys::stream::{OBStreamProfile, OBStreamProfileList};
use orbbec_sdk::sys::OBError;

fn device() -> Device {
    Device::new(OBDevice::new())
}

fn info() -> OBDeviceInfo {
    OBDeviceInfo {
        name: "Femto Bolt".to_string(),
        pid: 1,
        vid: 2,
        uid: "u".to_string(),
        serial_number: "s".to_string(),
        firmware_version: "f".to_string(),
        hardware_version: "h".to_string(),
        connection_type: "c".to_string(),
        min_supported_sdk_version: "m".to_string(),
        asic_name: "a".to_string(),
        device_type: OBDeviceType::TOFCamera,
    }
}

fn profile(stream_type: OBStreamType, format: OBFormat, width: u32, height: u32) -> VideoStreamProfile {
    VideoStreamProfile::new(OBStreamProfile::new(stream_type, format, width, height, 15))
}

fn frameset() -> OBFrame {
    OBFrame::new(OBFormat::Unknown, 0, 0, vec![42])
}

fn disconnected() -> OBError {
    OBError::new(2, "device disconnected", "ob_pipeline_wait_for_frameset", "timeout_ms: 100")
}

#[test]
fn config_starts_empty() {
    let config = Config::new(None).unwrap();
    assert!(config.inner.streams().is_empty());
    assert_eq!(config.inner.align_mode(), None);
    assert_eq!(config.inner.depth_scale_after_align_require(), None);
    assert_eq!(config.inner.frame_aggregate_output_mode(), None);
    let error = Config::new(Some(OBError::new(8, "m", "ob_create_config", ""))).unwrap_err();
    assert!(matches!(error, OrbbecError::MemoryException(_)));
}

#[test]
fn config_accumulates_streams_and_settings() {
    let depth = profile(OBStreamType::Depth, OBFormat::Y16, 848, 480);
    let color = profile(OBStreamType::Color, OBFormat::MJPG, 1280, 720);
    let mut config = Config::new(None).unwrap();
    config.enable_stream_with_profile(&depth, None).unwrap();
    config.enable_stream_with_profile(&color, None).unwrap();
    config.set_align_mode(OBAlignMode::Software, None).unwrap();
    config.set_depth_scale_after_align_require(true, None).unwrap();
    config
        .set_frame_aggregate_output_mode(OBFrameAggregateOutputMode::AllTypeFrameRequire, None)
        .unwrap();
    assert_eq!(config.inner.streams(), &[depth.inner, color.inner]);
    assert_eq!(config.inner.align_mode(), Some(OBAlignMode::Software));
    assert_eq!(config.inner.depth_scale_after_align_require(), Some(true));
    assert_eq!(
        config.inner.frame_aggregate_output_mode(),
        Some(OBFrameAggregateOutputMode::AllTypeFrameRequire)
    );
}

#[test]
fn config_error_changes_nothing() {
    let depth = profile(OBStreamType::Depth, OBFormat::Y16, 848, 480);
    let refused = || Some(OBError::new(4, "bad", "ob_config", ""));
    let mut config = Config::new(None).unwrap();
    assert!(matches!(
        config.enable_stream_with_profile(&depth, refused()),
        Err(OrbbecError::InvalidValue(_))
    ));
    assert!(config.set_align_mode(OBAlignMode::Hardware, refused()).is_err());
    assert!(config.set_depth_scale_after_align_require(true, refused()).is_err());
    assert!(config
        .set_frame_aggregate_output_mode(OBFrameAggregateOutputMode::Disable, refused())
        .is_err());
    assert!(config.inner.streams().is_empty());
    assert_eq!(config.inner.align_mode(), None);
    assert_eq!(config.inner.depth_scale_after_align_require(), None);
    assert_eq!(config.inner.frame_aggregate_output_mode(), None);
}

#[test]
fn new_pipeline_is_created_and_not_started() {
    let pipeline = Pipeline::new(&device(), None).unwrap();
    assert_eq!(pipeline.inner.state(), OBPipelineState::Created);
    assert!(!pipeline.is_started());
    assert!(!pipeline.is_stopped());
    assert!(!pipeline.has_callback());
    assert_eq!(pipeline.inner.frame_sync(), None);
    assert!(pipeline.inner.config().is_none());
    let error = Pipeline::new(&device(), Some(disconnected()));
    assert!(matches!(error, Err(OrbbecError::CameraDisconnected(_))));
}

#[test]
fn pipeline_knows_its_device() {
    let mut pipeline = Pipeline::new(&device(), None).unwrap();
    let got = pipeline.get_device(None).ok().unwrap();
    assert_eq!(got.info(info(), None).ok().unwrap().name(), "Femto Bolt");
    assert!(pipeline.get_device(Some(disconnected())).is_err());
}

#[test]
fn start_moves_to_started_with_the_config() {
    let depth = profile(OBStreamType::Depth, OBFormat::Y16, 848, 480);
    let mut config = Config::new(None).unwrap();
    config.enable_stream_with_profile(&depth, None).unwrap();
    let mut pipeline = Pipeline::new(&device(), None).unwrap();
    pipeline.start(&config, None).unwrap();
    assert!(pipeline.is_started());
    assert!(!pipeline.has_callback());
    assert_eq!(pipeline.inner.config().unwrap().streams(), &[depth.inner]);
}

#[test]
fn failed_start_leaves_the_pipeline_not_started() {
    let config = Config::new(None).unwrap();
    let mut pipeline = Pipeline::new(&device(), None).unwrap();
    let failure = OBError::new(5, "no stream enabled", "ob_pipeline_start_with_config", "config");
    let error = pipeline.start(&config, Some(failure)).unwrap_err();
    assert!(matches!(error, OrbbecError::WrongAPICallSequence(_)));
    assert_eq!(error.data().message, "no stream enabled");
    assert_eq!(error.data().function, "ob_pipeline_start_with_config");
    assert_eq!(error.data().args, "config");
    assert!(!pipeline.is_started());
    assert_eq!(pipeline.inner.state(), OBPipelineState::Created);
    assert!(pipeline.inner.config().is_none());

    pipeline.stop(None).unwrap();
    assert!(pipeline.start_with_callback(&config, Some(disconnected())).is_err());
    assert!(pipeline.is_stopped());
    assert!(!pipeline.has_callback());
}

#[test]
fn stop_twice_is_in_order() {
    let config = Config::new(None).unwrap();
    let mut pipeline = Pipeline::new(&device(), None).unwrap();
    pipeline.start(&config, None).unwrap();
    assert!(pipeline.stop(None).is_ok());
    assert!(pipeline.is_stopped());
    assert!(pipeline.stop(None).is_ok());
    assert!(pipeline.is_stopped());
    assert!(!pipeline.is_started());
    assert!(!pipeline.has_callback());
    assert!(pipeline.stop(Some(disconnected())).is_ok());
    assert!(pipeline.is_stopped());
}

#[test]
fn stop_after_failed_stop_is_in_order() {
    let config = Config::new(None).unwrap();
    let mut pipeline = Pipeline::new(&device(), None).unwrap();
    pipeline.start(&config, None).unwrap();
    assert!(pipeline.stop(Some(disconnected())).is_err());
    assert!(pipeline.is_stopped());
    assert!(pipeline.stop(Some(disconnected())).is_ok());
    assert!(pipeline.stop(None).is_ok());
    assert!(pipeline.is_stopped());
}

#[test]
fn stop_before_start_is_in_order() {
    let mut pipeline = Pipeline::new(&device(), None).unwrap();
    assert!(pipeline.stop(None).is_ok());
    assert!(pipeline.is_stopped());
}

#[test]
fn stop_error_still_stops() {
    let config = Config::new(None).unwrap();
    let mut pipeline = Pipeline::new(&device(), None).unwrap();
    pipeline.start_with_callback(&config, None).unwrap();
    let error = pipeline.stop(Some(disconnected())).unwrap_err();
    assert!(matches!(error, OrbbecError::CameraDisconnected(_)));
    assert!(pipeline.is_stopped());
    assert!(!pipeline.has_callback());
}

#[test]
fn stopped_pipeline_can_be_started_again() {
    let config = Config::new(None).unwrap();
    let mut pipeline = Pipeline::new(&device(), None).unwrap();
    pipeline.start(&config, None).unwrap();
    pipeline.stop(None).unwrap();
    pipeline.start(&config, None).unwrap();
    assert!(pipeline.is_started());
}

#[test]
fn wait_without_pending_frame_is_none() {
    let config = Config::new(None).unwrap();
    let mut pipeline = Pipeline::new(&device(), None).unwrap();
    pipeline.start(&config, None).unwrap();
    assert!(pipeline.wait_for_frames(0, None, None).unwrap().is_none());
    assert!(pipeline.wait_for_frames(100, None, None).unwrap().is_none());
    assert!(pipeline.is_started());
}

#[test]
fn wait_hands_on_the_frameset() {
    let config = Config::new(None).unwrap();
    let mut pipeline = Pipeline::new(&device(), None).unwrap();
    pipeline.start(&config, None).unwrap();
    let frames = pipeline.wait_for_frames(100, Some(frameset()), None).unwrap().unwrap();
    assert_eq!(frames.inner.data, vec![42]);
    let depth = OBFrame::new(OBFormat::Y16, 1, 1, vec![1, 0]);
    assert_eq!(frames.get_depth_frame(Some(depth), None).unwrap().unwrap().raw_data(), &[1, 0]);
    assert!(frames.get_color_frame(None, None).unwrap().is_none());
}

#[test]
fn wait_hands_on_the_error() {
    let mut pipeline = Pipeline::new(&device(), None).unwrap();
    let error = pipeline.wait_for_frames(100, Some(frameset()), Some(disconnected())).unwrap_err();
    assert!(matches!(error, OrbbecError::CameraDisconnected(_)));
    assert_eq!(error.to_string(), "Camera Disconnected: device disconnected");
    let error = pipeline.wait_for_frames(0, None, Some(disconnected())).unwrap_err();
    assert!(matches!(error, OrbbecError::CameraDisconnected(_)));
}

#[test]
fn timeout_is_held_to_thirty_two_bits() {
    assert_eq!(Pipeline::native_timeout(0), 0);
    assert_eq!(Pipeline::native_timeout(100), 100);
    assert_eq!(Pipeline::native_timeout(u32::MAX as u128), u32::MAX);
    assert_eq!(Pipeline::native_timeout(u32::MAX as u128 + 1), u32::MAX);
    assert_eq!(Pipeline::native_timeout((1u128 << 32) + 250), u32::MAX);
    assert_eq!(Pipeline::native_timeout(u128::MAX), u32::MAX);
    assert_eq!(
        Pipeline::native_timeout(std::time::Duration::from_millis(1500).as_millis()),
        1500
    );
}

#[test]
fn callback_gets_frames_until_stop() {
    let config = Config::new(None).unwrap();
    let mut pipeline = Pipeline::new(&device(), None).unwrap();
    assert!(pipeline.deliver(frameset()).is_none());
    pipeline.start_with_callback(&config, None).unwrap();
    assert!(pipeline.is_started());
    assert!(pipeline.has_callback());
    let delivered = pipeline.deliver(frameset()).unwrap();
    assert_eq!(delivered.inner.data, vec![42]);
    pipeline.stop(None).unwrap();
    assert!(pipeline.deliver(frameset()).is_none());
}

#[test]
fn frame_sync_is_set_when_the_runtime_takes_it() {
    let mut pipeline = Pipeline::new(&device(), None).unwrap();
    pipeline.set_frame_sync(true, None).unwrap();
    assert_eq!(pipeline.inner.frame_sync(), Some(true));
    assert!(pipeline.set_frame_sync(false, Some(disconnected())).is_err());
    assert_eq!(pipeline.inner.frame_sync(), Some(true));
    pipeline.set_frame_sync(false, None).unwrap();
    assert_eq!(pipeline.inner.frame_sync(), Some(false));
}

#[test]
fn profile_lists_are_handed_on() {
    let depth = profile(OBStreamType::Depth, OBFormat::Y16, 848, 480);
    let color = profile(OBStreamType::Color, OBFormat::MJPG, 1280, 720);
    let mut pipeline = Pipeline::new(&device(), None).unwrap();
    let list = pipeline
        .get_stream_profiles(OBSensorType::Depth, OBStreamProfileList::new(vec![depth.inner]), None)
        .unwrap();
    assert_eq!(list.len(), 1);
    assert_eq!(list.get_video_stream_profile(848, 480, OBFormat::Y16, 15).unwrap(), depth);
    let failure = Some(OBError::new(4, "no such sensor", "ob_pipeline_get_stream_profile_list", "9"));
    assert!(matches!(
        pipeline.get_stream_profiles(OBSensorType::Confidence, OBStreamProfileList::new(Vec::new()), failure),
        Err(OrbbecError::InvalidValue(_))
    ));

    let aligned = pipeline
        .get_d2c_depth_profiles(
            &color,
            OBAlignMode::Hardware,
            OBStreamProfileList::new(vec![depth.inner]),
            None,
        )
        .unwrap();
    assert_eq!(aligned.get(0, None).unwrap(), depth);
    assert!(pipeline
        .get_d2c_depth_profiles(
            &color,
            OBAlignMode::Software,
            OBStreamProfileList::new(Vec::new()),
            Some(disconnected()),
        )
        .is_err());
}

#[test]
fn native_pipeline_follows_the_runtime() {
    let device = device();
    let mut pipeline = OBPipeline::new(device.inner(), None).unwrap();
    let config = OBConfig::new(None).unwrap();
    assert_eq!(pipeline.state(), OBPipelineState::Created);
    pipeline.enable_frame_sync(None).unwrap();
    assert_eq!(pipeline.frame_sync(), Some(true));
    pipeline.disable_frame_sync(None).unwrap();
    assert_eq!(pipeline.frame_sync(), Some(false));
    pipeline.start_with_config(&config, None).unwrap();
    assert_eq!(pipeline.state(), OBPipelineState::Started);
    assert!(pipeline.wait_for_frameset(10, None, None).unwrap().is_none());
    assert!(pipeline.wait_for_frameset(10, Some(frameset()), None).unwrap().is_some());
    pipeline.stop(None).unwrap();
    assert_eq!(pipeline.state(), OBPipelineState::Stopped);
    assert_eq!(pipeline.get_device(None).ok().unwrap().get_info(info(), None).unwrap().name, "Femto Bolt");
}
