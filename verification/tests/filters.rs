use orbbec_sdk::error::OrbbecError;
use orbbec_sdk::filter::{
    AlignFilter, AsFilter, DecimationFilter, Filter, FormatConvertFilter, HoleFillingFilter,
    SpatialAdvancedFilter, SpatialFastFilter, SpatialModerateFilter, TemporalFilter, ThresholdFilter,
};
use orbbec_sdk::frame::{FrameSet, VideoFrame};
use orbbec_sdk::stream::VideoStreamProfile;
use orbbec_sdk::sys::enums::{
    OBConvertFormat, OBFilterConfigValueType, OBFormat, OBHoleFillMode, OBStreamType,
};
use orbbec_sdk::sys::filter::{
    OBConfigValue, OBFilter, OBFilterConfigSchemaItem, OBFilterConfigSchemaList,
};
use orbbec_sdk::sys::frame::OBFrame;
use orbbec_sdk::sys::stream::OBStreamProfile;
use orbbec_sdk::sys::{Float32, Float64, OBError};

fn float(value: f32) -> Float32 {
    Float32::from_bits(value.to_bits())
}

fn frame(data: Vec<u8>) -> OBFrame {
    OBFrame::new(OBFormat::Y16, 2, 1, data)
}

fn refused() -> OBError {
    OBError::new(4, "value out of range", "ob_filter_set_config_value", "decimate")
}

#[test]
fn filters_of_every_runtime_are_made_unconfigured() {
    let decimation = DecimationFilter::new(None).unwrap();
    assert_eq!(decimation.inner.name(), "DecimationFilter");
    assert!(decimation.inner.is_unconfigured());
    assert_eq!(FormatConvertFilter::new(None).unwrap().inner.name(), "FormatConverter");
    assert_eq!(ThresholdFilter::new(None).unwrap().inner.name(), "ThresholdFilter");
    let align = AlignFilter::new(None).unwrap();
    assert_eq!(align.inner.name(), "Align");
    assert!(align.inner.is_unconfigured());
    assert_eq!(align.inner.align_target(), None);
}

#[test]
fn filter_error_of_the_runtime_is_handed_on() {
    let failure = || Some(OBError::new(8, "no memory", "ob_create_filter", "name"));
    assert!(matches!(DecimationFilter::new(failure()), Err(OrbbecError::MemoryException(_))));
    assert!(matches!(FormatConvertFilter::new(failure()), Err(OrbbecError::MemoryException(_))));
    assert!(matches!(ThresholdFilter::new(failure()), Err(OrbbecError::MemoryException(_))));
    assert!(matches!(AlignFilter::new(failure()), Err(OrbbecError::MemoryException(_))));
    assert!(matches!(TemporalFilter::new(true, failure()), Err(OrbbecError::MemoryException(_))));
    assert!(matches!(TemporalFilter::new(false, failure()), Err(OrbbecError::MemoryException(_))));
}

#[test]
fn optional_filters_are_made_when_present() {
    assert_eq!(HoleFillingFilter::new(true, None).unwrap().inner.name(), "HoleFillingFilter");
    assert_eq!(TemporalFilter::new(true, None).unwrap().inner.name(), "TemporalFilter");
    assert_eq!(SpatialFastFilter::new(true, None).unwrap().inner.name(), "SpatialFastFilter");
    assert_eq!(SpatialModerateFilter::new(true, None).unwrap().inner.name(), "SpatialModerateFilter");
    assert_eq!(SpatialAdvancedFilter::new(true, None).unwrap().inner.name(), "SpatialAdvancedFilter");
}

#[test]
fn absent_filter_is_not_implemented() {
    let error = HoleFillingFilter::new(false, None).unwrap_err();
    assert!(matches!(error, OrbbecError::NotImplemented(_)));
    assert_eq!(error.data().message, "HoleFillingFilter is not available");
    assert_eq!(error.data().function, "HoleFillingFilter::new");
    assert_eq!(error.data().args, "");

    let error = TemporalFilter::new(false, None).unwrap_err();
    assert_eq!(error.data().message, "TemporalFilter is not available");
    assert_eq!(error.data().function, "TemporalFilter::new");
    let error = SpatialFastFilter::new(false, None).unwrap_err();
    assert_eq!(error.data().message, "SpatialFastFilter is not available");
    let error = SpatialModerateFilter::new(false, None).unwrap_err();
    assert_eq!(error.data().message, "SpatialModerateFilter is not available");
    let error = SpatialAdvancedFilter::new(false, None).unwrap_err();
    assert!(matches!(error, OrbbecError::NotImplemented(_)));
    assert_eq!(error.data().message, "SpatialAdvancedFilter is not available");
    assert_eq!(error.data().function, "SpatialAdvancedFilter::new");
}

#[test]
fn setters_write_under_their_names() {
    let mut decimation = DecimationFilter::new(None).unwrap();
    decimation.set_factor(2, None).unwrap();
    assert_eq!(decimation.inner.configured("decimate"), Some(OBConfigValue::Whole(2)));
    assert!(!decimation.inner.is_unconfigured());

    let mut convert = FormatConvertFilter::new(None).unwrap();
    convert.set_convert_type(OBConvertFormat::MJPGToRGB, None).unwrap();
    assert_eq!(convert.inner.configured("convertType"), Some(OBConfigValue::Whole(7)));

    let mut hole = HoleFillingFilter::new(true, None).unwrap();
    hole.set_mode(OBHoleFillMode::Farthest, None).unwrap();
    assert_eq!(hole.inner.configured("hole_filling_mode"), Some(OBConfigValue::Whole(2)));

    let mut temporal = TemporalFilter::new(true, None).unwrap();
    temporal.set_threshold(float(0.1), None).unwrap();
    temporal.set_weight(float(0.4), None).unwrap();
    assert_eq!(temporal.inner.configured("diff_scale"), Some(OBConfigValue::Float(float(0.1))));
    assert_eq!(temporal.inner.configured("weight"), Some(OBConfigValue::Float(float(0.4))));

    let mut fast = SpatialFastFilter::new(true, None).unwrap();
    fast.set_radius(4, None).unwrap();
    assert_eq!(fast.inner.configured("radius"), Some(OBConfigValue::Whole(4)));

    let mut moderate = SpatialModerateFilter::new(true, None).unwrap();
    moderate.set_threshold(160, None).unwrap();
    moderate.set_magnitude(3, None).unwrap();
    moderate.set_radius(5, None).unwrap();
    assert_eq!(moderate.inner.configured("disp_diff"), Some(OBConfigValue::Whole(160)));
    assert_eq!(moderate.inner.configured("magnitude"), Some(OBConfigValue::Whole(3)));
    assert_eq!(moderate.inner.configured("radius"), Some(OBConfigValue::Whole(5)));

    let mut advanced = SpatialAdvancedFilter::new(true, None).unwrap();
    advanced.set_alpha(float(0.5), None).unwrap();
    advanced.set_threshold(10000, None).unwrap();
    advanced.set_radius(8, None).unwrap();
    advanced.set_magnitude(5, None).unwrap();
    assert_eq!(advanced.inner.configured("alpha"), Some(OBConfigValue::Float(float(0.5))));
    assert_eq!(advanced.inner.configured("disp_diff"), Some(OBConfigValue::Whole(10000)));
    assert_eq!(advanced.inner.configured("radius"), Some(OBConfigValue::Whole(8)));
    assert_eq!(advanced.inner.configured("magnitude"), Some(OBConfigValue::Whole(5)));

    let mut threshold = ThresholdFilter::new(None).unwrap();
    threshold.set_min_depth(200, None).unwrap();
    threshold.set_max_depth(4000, None).unwrap();
    assert_eq!(threshold.inner.configured("min"), Some(OBConfigValue::Whole(200)));
    assert_eq!(threshold.inner.configured("max"), Some(OBConfigValue::Whole(4000)));
}

#[test]
fn align_setters_write_under_their_names() {
    let mut align = AlignFilter::new(None).unwrap();
    align.set_align_to_stream_type(OBStreamType::Color, None).unwrap();
    align.set_add_distortion(true, None).unwrap();
    align.set_gap_fill(false, None).unwrap();
    align.set_match_resolution(true, None).unwrap();
    assert_eq!(align.inner.configured("AlignType"), Some(OBConfigValue::Whole(2)));
    assert_eq!(align.inner.configured("TargetDistortion"), Some(OBConfigValue::Whole(1)));
    assert_eq!(align.inner.configured("GapFillCopy"), Some(OBConfigValue::Whole(0)));
    assert_eq!(align.inner.configured("MatchTargetRes"), Some(OBConfigValue::Whole(1)));

    align.set_align_to_stream_type(OBStreamType::Unknown, None).unwrap();
    assert_eq!(align.inner.configured("AlignType"), Some(OBConfigValue::Whole(u32::MAX)));
    align.set_align_to_stream_type(OBStreamType::Depth, None).unwrap();
    assert_eq!(align.inner.configured("AlignType"), Some(OBConfigValue::Whole(3)));
}

#[test]
fn align_target_profile_is_kept() {
    let profile =
        VideoStreamProfile::new(OBStreamProfile::new(OBStreamType::Color, OBFormat::MJPG, 1280, 720, 30));
    let mut align = AlignFilter::new(None).unwrap();
    let error = align.set_align_to_stream_profile(&profile, Some(refused())).unwrap_err();
    assert!(matches!(error, OrbbecError::InvalidValue(_)));
    assert_eq!(align.inner.align_target(), None);
    assert!(align.inner.is_unconfigured());
    align.set_align_to_stream_profile(&profile, None).unwrap();
    assert_eq!(align.inner.align_target(), Some(profile.inner));
    assert!(!align.inner.is_unconfigured());
}

#[test]
fn last_value_set_is_the_one_in_force() {
    let mut threshold = ThresholdFilter::new(None).unwrap();
    threshold.set_min_depth(100, None).unwrap();
    threshold.set_max_depth(9000, None).unwrap();
    threshold.set_min_depth(300, None).unwrap();
    assert_eq!(threshold.inner.configured("min"), Some(OBConfigValue::Whole(300)));
    assert_eq!(threshold.inner.configured("max"), Some(OBConfigValue::Whole(9000)));
    assert_eq!(threshold.inner.configured("decimate"), None);
}

#[test]
fn refused_value_changes_nothing() {
    let mut decimation = DecimationFilter::new(None).unwrap();
    decimation.set_factor(2, None).unwrap();
    let error = decimation.set_factor(200, Some(refused())).unwrap_err();
    assert!(matches!(error, OrbbecError::InvalidValue(_)));
    assert_eq!(error.data().message, "value out of range");
    assert_eq!(decimation.inner.configured("decimate"), Some(OBConfigValue::Whole(2)));

    let mut fresh = DecimationFilter::new(None).unwrap();
    assert!(fresh.set_factor(9, Some(refused())).is_err());
    assert!(fresh.inner.is_unconfigured());
    assert_eq!(fresh.inner.configured("decimate"), None);
}

#[test]
fn process_wraps_what_the_runtime_made() {
    let filter = DecimationFilter::new(None).unwrap();
    let input = VideoFrame::from(frame(vec![1, 2, 3, 4]));
    let output = filter.process(&input, frame(vec![1, 2]), None).unwrap();
    assert_eq!(output.raw_data(), &[1, 2]);
    assert_eq!(input.raw_data(), &[1, 2, 3, 4]);
}

#[test]
fn process_hands_on_the_error() {
    let filter = ThresholdFilter::new(None).unwrap();
    let input = VideoFrame::from(frame(vec![1, 2, 3, 4]));
    let failure = OBError::new(9, "not a depth frame", "ob_filter_process", "frame");
    let error = filter.process(&input, frame(vec![7, 7]), Some(failure)).unwrap_err();
    assert!(matches!(error, OrbbecError::UnsupportedOperation(_)));
    assert_eq!(error.data().message, "not a depth frame");
}

#[test]
fn process_keeps_the_role_of_the_input() {
    let align = AlignFilter::new(None).unwrap();
    let single = VideoFrame::from(frame(vec![1]));
    let aligned: VideoFrame = align.process(&single, frame(vec![2]), None).unwrap();
    assert_eq!(aligned.raw_data(), &[2]);
    let set = FrameSet::from(frame(Vec::new()));
    let aligned_set: FrameSet = align.process(&set, frame(vec![3]), None).unwrap();
    assert_eq!(aligned_set.inner.data, vec![3]);
}

#[test]
fn fresh_filters_agree_on_the_same_answer() {
    let first = DecimationFilter::new(None).unwrap();
    let second = DecimationFilter::new(None).unwrap();
    let input = VideoFrame::from(frame(vec![5, 6, 7, 8]));
    let a = first.process(&input, frame(vec![5, 6]), None).unwrap();
    let b = second.process(&input, frame(vec![5, 6]), None).unwrap();
    assert_eq!(a.raw_data(), b.raw_data());
    assert_eq!(a.format(), b.format());
    assert_eq!(first.inner.configured("decimate"), second.inner.configured("decimate"));
    assert_eq!(first.as_filter().name(), second.as_filter().name());
}

#[test]
fn native_filter_is_made_by_name() {
    let filter = OBFilter::new("NoiseRemovalFilter", true, None).unwrap().unwrap();
    assert_eq!(filter.name(), "NoiseRemovalFilter");
    assert!(filter.is_unconfigured());
    assert!(OBFilter::new("NoiseRemovalFilter", false, None).unwrap().is_none());
    assert!(OBFilter::new("NoiseRemovalFilter", true, Some(refused())).is_err());
}

#[test]
fn native_filter_hands_on_values_and_lists() {
    let mut filter = OBFilter::new("ThresholdFilter", true, None).unwrap().unwrap();
    filter.set_config_value("min", OBConfigValue::Whole(5), None).unwrap();
    filter.set_config_value("max", OBConfigValue::Whole(6), None).unwrap();
    filter.set_config_value("min", OBConfigValue::Whole(7), None).unwrap();
    assert_eq!(filter.configured("min"), Some(OBConfigValue::Whole(7)));
    assert_eq!(filter.configured("max"), Some(OBConfigValue::Whole(6)));
    assert_eq!(filter.configured("mi"), None);
    let reported = Float64::from_bits(7.0f64.to_bits());
    assert_eq!(filter.get_config_value("min", reported, None).unwrap(), reported);
    assert!(filter.get_config_value("min", reported, Some(refused())).is_err());

    let item = OBFilterConfigSchemaItem {
        name: "min".to_string(),
        type_code: 0,
        min: Float64::from_bits(0.0f64.to_bits()),
        max: Float64::from_bits(16000.0f64.to_bits()),
        step: Float64::from_bits(1.0f64.to_bits()),
        def: Float64::from_bits(0.0f64.to_bits()),
        desc: "lowest depth kept".to_string(),
    };
    let list = filter
        .get_config_schema_list(OBFilterConfigSchemaList::new(vec![item]), None)
        .unwrap();
    assert_eq!(list.get_count().unwrap(), 1);
    let got = list.get_filter_config_item(0, None).unwrap();
    assert_eq!(got.name(), "min");
    assert_eq!(got.value_type(), OBFilterConfigValueType::Int);
    assert_eq!(f64::from_bits(got.minimum().to_bits()), 0.0);
    assert_eq!(f64::from_bits(got.maximum().to_bits()), 16000.0);
    assert_eq!(f64::from_bits(got.step().to_bits()), 1.0);
    assert_eq!(f64::from_bits(got.default().to_bits()), 0.0);
    assert_eq!(got.description(), "lowest depth kept");
    let reported = OBError::new(4, "index out of range", "ob_filter_config_schema_list_get_item", "1");
    assert_eq!(list.get_filter_config_item(1, Some(reported)).unwrap_err().message(), "index out of range");
    let error = list.get_filter_config_item(1, None).unwrap_err();
    assert_eq!(error.message(), "Index out of range");
    assert_eq!(error.function(), "OBFilterConfigSchemaList::get_filter_config_item");
    assert_eq!(error.args(), "index: 1");
}

#[test]
fn schema_item_of_unknown_type_is_invalid() {
    let item = OBFilterConfigSchemaItem {
        name: "x".to_string(),
        type_code: 12,
        min: Float64::from_bits(0),
        max: Float64::from_bits(0),
        step: Float64::from_bits(0),
        def: Float64::from_bits(0),
        desc: String::new(),
    };
    assert_eq!(item.value_type(), OBFilterConfigValueType::Invalid);
    let boolean = OBFilterConfigSchemaItem { type_code: 2, ..item.clone() };
    assert_eq!(boolean.value_type(), OBFilterConfigValueType::Bool);
}

#[test]
fn settings_name_what_the_runtime_is_handed() {
    assert_eq!(DecimationFilter::factor_setting(2), ("decimate", OBConfigValue::Whole(2)));
    assert_eq!(
        FormatConvertFilter::convert_type_setting(OBConvertFormat::MJPGToRGB),
        ("convertType", OBConfigValue::Whole(7))
    );
    assert_eq!(
        HoleFillingFilter::mode_setting(OBHoleFillMode::Nearest),
        ("hole_filling_mode", OBConfigValue::Whole(1))
    );
    assert_eq!(TemporalFilter::threshold_setting(float(0.1)), ("diff_scale", OBConfigValue::Float(float(0.1))));
    assert_eq!(TemporalFilter::weight_setting(float(0.4)), ("weight", OBConfigValue::Float(float(0.4))));
    assert_eq!(SpatialFastFilter::radius_setting(4), ("radius", OBConfigValue::Whole(4)));
    assert_eq!(SpatialModerateFilter::radius_setting(5), ("radius", OBConfigValue::Whole(5)));
    assert_eq!(SpatialModerateFilter::magnitude_setting(3), ("magnitude", OBConfigValue::Whole(3)));
    assert_eq!(SpatialModerateFilter::threshold_setting(160), ("disp_diff", OBConfigValue::Whole(160)));
    assert_eq!(SpatialAdvancedFilter::alpha_setting(float(0.5)), ("alpha", OBConfigValue::Float(float(0.5))));
    assert_eq!(SpatialAdvancedFilter::threshold_setting(9), ("disp_diff", OBConfigValue::Whole(9)));
    assert_eq!(SpatialAdvancedFilter::radius_setting(8), ("radius", OBConfigValue::Whole(8)));
    assert_eq!(SpatialAdvancedFilter::magnitude_setting(5), ("magnitude", OBConfigValue::Whole(5)));
    assert_eq!(ThresholdFilter::min_depth_setting(200), ("min", OBConfigValue::Whole(200)));
    assert_eq!(ThresholdFilter::max_depth_setting(4000), ("max", OBConfigValue::Whole(4000)));
    assert_eq!(
        AlignFilter::align_to_stream_type_setting(OBStreamType::Unknown),
        ("AlignType", OBConfigValue::Whole(u32::MAX))
    );
    assert_eq!(AlignFilter::add_distortion_setting(true), ("TargetDistortion", OBConfigValue::Whole(1)));
    assert_eq!(AlignFilter::gap_fill_setting(false), ("GapFillCopy", OBConfigValue::Whole(0)));
    assert_eq!(AlignFilter::match_resolution_setting(true), ("MatchTargetRes", OBConfigValue::Whole(1)));
}
