//! Device properties
use vstd::prelude::*;
use crate::sys::enums::OBPropertyID;
use crate::sys::Float32;

verus! {

/// The three kinds of value that a device property can carry.
#[derive(Debug, Clone, Copy, PartialEq, Eq, Hash, Structural)]
pub enum PropertyKind {
    /// A switch
    Bool,
    /// A 32-bit signed integer
    Int,
    /// A 32-bit float
    Float,
}

/// The value that a property carries, apart from the property that carries it.
#[derive(Debug, Clone, Copy, PartialEq, Eq, Hash, Structural)]
pub enum PropertyPayload {
    Bool(bool),
    Int(i32),
    Float(Float32),
}

impl PropertyPayload {
    /// The kind of this value.
    pub open spec fn kind(self) -> PropertyKind {
        match self {
            PropertyPayload::Bool(_) => PropertyKind::Bool,
            PropertyPayload::Int(_) => PropertyKind::Int,
            PropertyPayload::Float(_) => PropertyKind::Float,
        }
    }
}

/// Property value: the place inside a [`DeviceProperty`] where its value is kept.
#[derive(Debug)]
pub enum PropertyValue<'a> {
    Bool(&'a mut bool),
    Int(&'a mut i32),
    Float(&'a mut Float32),
}

/// Device property
#[derive(Debug, Clone, Copy, PartialEq, Eq, Structural)]
pub enum DeviceProperty {
    /// LDP switch
    LDP(bool),
    /// Laser switch
    Laser(bool),
    /// Laser pulse width
    LaserPulseWidth(i32),
    /// Laser current (unit: mA)
    LaserCurrent(Float32),
    /// IR flood switch
    Flood(bool),
    /// IR flood level
    FloodLevel(i32),
    /// Enable/disable temperature compensation
    TemperatureCompensation(bool),
    /// Depth mirror
    DepthMirror(bool),
    /// Depth flip
    DepthFlip(bool),
    /// Depth Postfilter
    DepthPostfilter(bool),
    /// Depth Holefilter
    DepthHolefilter(bool),
    /// IR mirror
    IRMirror(bool),
    /// IR flip
    IRFlip(bool),
    /// Minimum depth threshold
    MinDepth(i32),
    /// Maximum depth threshold
    MaxDepth(i32),
    /// Software filter switch
    DepthNoiseRemovalFilter(bool),
    /// LDP status
    LDPStatus(bool),
    /// Maxdiff for depth noise removal filter
    DepthNoiseRemovalFilterMaxDiff(i32),
    /// MaxSpeckleSize for depth noise removal filter
    DepthNoiseRemovalFilterMaxSpeckleSize(i32),
    /// Hardware d2c is on
    DepthAlignHardware(bool),
    /// Timestamp adjustment
    TimestampOffset(i32),
    /// Hardware distortion switch Rectify
    HardwareDistortionSwitch(bool),
    /// Fan mode switch
    FanWorkMode(i32),
    /// Multi-resolution D2C mode
    DepthAlignHardwareMode(i32),
    /// Anti-collusion activation status
    AntiCollusionActivationStatus(bool),
    /// Depth precision level
    DepthPrecisionLevel(i32),
    /// TOF filter range configuration
    TofFilterRange(i32),
    /// Laser mode
    LaserMode(i32),
    /// brt2r-rectify function switch
    Rectify2(bool),
    /// Color mirror
    ColorMirror(bool),
    /// Color flip
    ColorFlip(bool),
    /// Indicator switch
    IndicatorLight(bool),
    /// Disparity to depth switch
    DisparityToDepth(bool),
    /// BRT function switch
    BRT(bool),
    /// Watchdog function switch
    Watchdog(bool),
    /// External signal trigger restart function switch
    ExternalSignalReset(bool),
    /// Heartbeat monitoring function switch
    Heartbeat(bool),
    /// Depth cropping mode device
    DepthCroppingMode(i32),
    /// D2C preprocessing switch
    D2CPreprocess(bool),
    /// Enable/disable GPM function
    GPM(bool),
    /// Custom RGB cropping switch
    RGBCustomCrop(bool),
    /// Device operating mode (power consumption)
    DeviceWorkMode(i32),
    /// Device communication type
    DeviceCommunicationType(i32),
    /// Switch infrared imaging mode
    SwitchIRMode(i32),
    /// Laser power level
    LaserPowerLevelControl(i32),
    /// LDP's measure distance
    LDPMeasureDistance(i32),
    /// Reset device time to zero
    TimerResetSignal(bool),
    /// Enable send reset device time signal to other device
    TimerResetTriggerOutEnable(bool),
    /// Delay to reset device time
    TimerResetDelayUs(i32),
    /// Signal to capture image
    CaptureImageSignal(bool),
    /// Right IR sensor mirror state
    IRRightMirror(bool),
    /// Number frame to capture once a 'OB_PROP_CAPTURE_IMAGE_SIGNAL_BOOL' effect
    CaptureImageFrameNumber(i32),
    /// Right IR sensor flip state
    IRRightFlip(bool),
    /// Color sensor rotation
    ColorRotate(i32),
    /// IR/Left-IR sensor rotation
    IRRotate(i32),
    /// Right IR sensor rotation
    IRRightRotate(i32),
    /// Depth sensor rotation
    DepthRotate(i32),
    /// Get hardware laser power actual level
    LaserPowerActualLevel(i32),
    /// USB's power state
    USBPowerState(i32),
    /// DC's power state
    DCPowerState(i32),
    /// Device development mode switch
    DeviceDevelopmentMode(i32),
    /// Multi-DeviceSync synchronized signal trigger out is enable state
    SyncSignalTriggerOut(bool),
    /// Restore factory settings and factory parameters
    RestoreFactorySettings(bool),
    /// Enter recovery mode when boot the device
    BootIntoRecoveryMode(bool),
    /// Query whether the current device is running in recovery mode
    DeviceInRecoveryMode(bool),
    /// Capture interval mode
    CaptureIntervalMode(i32),
    /// Capture time interval
    CaptureImageTimeInterval(i32),
    /// Capture number interval
    CaptureImageNumberInterval(i32),
    /// Timer reset enable
    TimerResetEnable(bool),
    /// Enable or disable the device to retry USB2.0 re-identification
    DeviceUSB2RepeatIdentify(bool),
    /// Reboot device delay mode
    DeviceRebootDelay(i32),
    /// Query the status of laser overcurrent protection
    LaserOvercurrentProtectionStatus(bool),
    /// Query the status of laser pulse width protection
    LaserPulseWidthProtectionStatus(bool),
    /// Laser always on
    LaserAlwaysOn(bool),
    /// Laser on/off alternate mode
    LaserOnOffPattern(i32),
    /// Depth unit flexible adjustment
    DepthUnitFlexibleAdjustment(Float32),
    /// Laser control
    LaserControl(i32),
    /// IR brightness
    IRBrightness(i32),
    /// Slave/secondary device synchronization status
    SlaveDeviceSyncStatus(bool),
    /// Color AE max exposure
    ColorAEMaxExposure(i32),
    /// Max exposure time of IR auto exposure
    IRAEMaxExposure(i32),
    /// Disparity search range mode
    DispSearchRangeMode(i32),
    /// Laser high temperature protection
    LaserHighTemperatureProtect(bool),
    /// Low exposure laser control
    LowExposureLaserControl(bool),
    /// Check pps sync in signal
    CheckPPSSyncInSignal(bool),
    /// Disparity search range offset
    DispSearchOffset(i32),
    /// Repower device
    DeviceRepower(bool),
    /// Frame interleave config index
    FrameInterleaveConfigIndex(i32),
    /// Frame interleave enable
    FrameInterleaveEnable(bool),
    /// Laser pattern sync with delay
    FrameInterleaveLaserPatternSyncDelay(i32),
    /// Get the health check result from device
    OnChipCalibrationHealthCheck(Float32),
    /// Enable or disable on-chip calibration
    OnChipCalibrationEnable(bool),
    /// Hardware noise remove filter switch
    HWNoiseRemoveFilterEnable(bool),
    /// Hardware noise remove filter threshold
    HWNoiseRemoveFilterThreshold(Float32),
    /// Soft trigger auto capture enable
    DeviceAutoCaptureEnable(bool),
    /// Soft trigger auto capture interval time
    DeviceAutoCaptureIntervalTime(i32),
    /// PTP time synchronization enable
    DevicePTPClockSyncEnable(bool),
    /// Depth with confidence stream enable
    DepthWithConfidenceStreamEnable(bool),
    /// Enable or disable confidence stream filter
    ConfidenceStreamFilter(bool),
    /// Confidence stream filter threshold
    ConfidenceStreamFilterThreshold(i32),
    /// Confidence stream mirror enable
    ConfidenceMirror(bool),
    /// Confidence stream flip enable
    ConfidenceFlip(bool),
    /// Confidence stream rotate
    ConfidenceRotate(i32),
    /// Color camera auto exposure
    ColorAutoExposure(bool),
    /// Color camera exposure adjustment
    ColorExposure(i32),
    /// Color camera gain adjustment
    ColorGain(i32),
    /// Color camera automatic white balance
    ColorAutoWhiteBalance(bool),
    /// Color camera white balance adjustment
    ColorWhiteBalance(i32),
    /// Color camera brightness adjustment
    ColorBrightness(i32),
    /// Color camera sharpness adjustment
    ColorSharpness(i32),
    /// Color camera shutter adjustment
    ColorShutter(i32),
    /// Color camera saturation adjustment
    ColorSaturation(i32),
    /// Color camera contrast adjustment
    ColorContrast(i32),
    /// Color camera gamma adjustment
    ColorGamma(i32),
    /// Color camera image rotation
    ColorRoll(i32),
    /// Color camera auto exposure priority
    ColorAutoExposurePriority(i32),
    /// Color camera brightness compensation
    ColorBacklightCompensation(i32),
    /// Color camera color tint
    ColorHue(i32),
    /// Color Camera Power Line Frequency
    ColorPowerLineFrequency(i32),
    /// Automatic exposure of depth camera
    DepthAutoExposure(bool),
    /// Depth camera exposure adjustment
    DepthExposure(i32),
    /// Depth camera gain adjustment
    DepthGain(i32),
    /// Infrared camera auto exposure
    IRAutoExposure(bool),
    /// Infrared camera exposure adjustment
    IRExposure(i32),
    /// Infrared camera gain adjustment
    IRGain(i32),
    /// Select Infrared camera data source channel
    IRChannelDataSource(i32),
    /// Depth effect dedistortion
    DepthRMFilter(bool),
    /// Color camera maximal gain
    ColorMaximalGain(i32),
    /// Color camera shutter gain
    ColorMaximalShutter(i32),
    /// Enable/disable IR short exposure function
    IRShortExposure(bool),
    /// Color camera HDR
    ColorHDR(bool),
    /// IR long exposure mode switch
    IRLongExposure(bool),
    /// Setting and getting the USB device frame skipping mode status
    SkipFrame(bool),
    /// Depth HDR merge
    HDRMerge(bool),
    /// Color camera FOCUS
    ColorFocus(i32),
    /// IR rectify status
    IRRectify(bool),
    /// Depth camera priority
    DepthAutoExposurePriority(i32),
    /// Software disparity to depth
    SDKDisparityToDepth(bool),
    /// Depth data unpacking function switch
    SDKDepthFrameUnpack(bool),
    /// IR data unpacking function switch
    SDKIRFrameUnpack(bool),
    /// Accel data conversion function switch
    SDKAccelFrameTransformed(bool),
    /// Gyro data conversion function switch
    SDKGyroFrameTransformed(bool),
    /// Left IR frame data unpacking function switch
    SDKIRLeftFrameUnpack(bool),
    /// Right IR frame data unpacking function switch
    SDKIRRightFrameUnpack(bool),
    /// Read the current network bandwidth type of the network device
    NetworkBandwidthType(i32),
    /// Switch device performance mode
    DevicePerformanceMode(i32),
    /// Calibration JSON file read from device
    RawDataCameraCalibJsonFile(i32),
    /// Confidence degree
    DebugESGMConfidence(Float32),
}

impl OBPropertyID {
    /// The kind of value that the property with this identifier carries.
    pub open spec fn kind(self) -> PropertyKind {
        match self {
            OBPropertyID::LDPBool => PropertyKind::Bool,
            OBPropertyID::LaserBool => PropertyKind::Bool,
            OBPropertyID::LaserPulseWidthInt => PropertyKind::Int,
            OBPropertyID::LaserCurrentFloat => PropertyKind::Float,
            OBPropertyID::FloodBool => PropertyKind::Bool,
            OBPropertyID::FloodLevelInt => PropertyKind::Int,
            OBPropertyID::TemperatureCompensationBool => PropertyKind::Bool,
            OBPropertyID::DepthMirrorBool => PropertyKind::Bool,
            OBPropertyID::DepthFlipBool => PropertyKind::Bool,
            OBPropertyID::DepthPostfilterBool => PropertyKind::Bool,
            OBPropertyID::DepthHolefilterBool => PropertyKind::Bool,
            OBPropertyID::IRMirrorBool => PropertyKind::Bool,
            OBPropertyID::IRFlipBool => PropertyKind::Bool,
            OBPropertyID::MinDepthInt => PropertyKind::Int,
            OBPropertyID::MaxDepthInt => PropertyKind::Int,
            OBPropertyID::DepthNoiseRemovalFilterBool => PropertyKind::Bool,
            OBPropertyID::LDPStatusBool => PropertyKind::Bool,
            OBPropertyID::DepthNoiseRemovalFilterMaxDiffInt => PropertyKind::Int,
            OBPropertyID::DepthNoiseRemovalFilterMaxSpeckleSizeInt => PropertyKind::Int,
            OBPropertyID::DepthAlignHardwareBool => PropertyKind::Bool,
            OBPropertyID::TimestampOffsetInt => PropertyKind::Int,
            OBPropertyID::HardwareDistortionSwitchBool => PropertyKind::Bool,
            OBPropertyID::FanWorkModeInt => PropertyKind::Int,
            OBPropertyID::DepthAlignHardwareModeInt => PropertyKind::Int,
            OBPropertyID::AntiCollusionActivationStatusBool => PropertyKind::Bool,
            OBPropertyID::DepthPrecisionLevelInt => PropertyKind::Int,
            OBPropertyID::TofFilterRangeInt => PropertyKind::Int,
            OBPropertyID::LaserModeInt => PropertyKind::Int,
            OBPropertyID::Rectify2Bool => PropertyKind::Bool,
            OBPropertyID::ColorMirrorBool => PropertyKind::Bool,
            OBPropertyID::ColorFlipBool => PropertyKind::Bool,
            OBPropertyID::IndicatorLightBool => PropertyKind::Bool,
            OBPropertyID::DisparityToDepthBool => PropertyKind::Bool,
            OBPropertyID::BRTBool => PropertyKind::Bool,
            OBPropertyID::WatchdogBool => PropertyKind::Bool,
            OBPropertyID::ExternalSignalResetBool => PropertyKind::Bool,
            OBPropertyID::HeartbeatBool => PropertyKind::Bool,
            OBPropertyID::DepthCroppingModeInt => PropertyKind::Int,
            OBPropertyID::D2CPreprocessBool => PropertyKind::Bool,
            OBPropertyID::GPMBool => PropertyKind::Bool,
            OBPropertyID::RGBCustomCropBool => PropertyKind::Bool,
            OBPropertyID::DeviceWorkModeInt => PropertyKind::Int,
            OBPropertyID::DeviceCommunicationTypeInt => PropertyKind::Int,
            OBPropertyID::SwitchIRModeInt => PropertyKind::Int,
            OBPropertyID::LaserPowerLevelControlInt => PropertyKind::Int,
            OBPropertyID::LDPMeasureDistanceInt => PropertyKind::Int,
            OBPropertyID::TimerResetSignalBool => PropertyKind::Bool,
            OBPropertyID::TimerResetTriggerOutEnableBool => PropertyKind::Bool,
            OBPropertyID::TimerResetDelayUsInt => PropertyKind::Int,
            OBPropertyID::CaptureImageSignalBool => PropertyKind::Bool,
            OBPropertyID::IRRightMirrorBool => PropertyKind::Bool,
            OBPropertyID::CaptureImageFrameNumberInt => PropertyKind::Int,
            OBPropertyID::IRRightFlipBool => PropertyKind::Bool,
            OBPropertyID::ColorRotateInt => PropertyKind::Int,
            OBPropertyID::IRRotateInt => PropertyKind::Int,
            OBPropertyID::IRRightRotateInt => PropertyKind::Int,
            OBPropertyID::DepthRotateInt => PropertyKind::Int,
            OBPropertyID::LaserPowerActualLevelInt => PropertyKind::Int,
            OBPropertyID::USBPowerStateInt => PropertyKind::Int,
            OBPropertyID::DCPowerStateInt => PropertyKind::Int,
            OBPropertyID::DeviceDevelopmentModeInt => PropertyKind::Int,
            OBPropertyID::SyncSignalTriggerOutBool => PropertyKind::Bool,
            OBPropertyID::RestoreFactorySettingsBool => PropertyKind::Bool,
            OBPropertyID::BootIntoRecoveryModeBool => PropertyKind::Bool,
            OBPropertyID::DeviceInRecoveryModeBool => PropertyKind::Bool,
            OBPropertyID::CaptureIntervalModeInt => PropertyKind::Int,
            OBPropertyID::CaptureImageTimeIntervalInt => PropertyKind::Int,
            OBPropertyID::CaptureImageNumberIntervalInt => PropertyKind::Int,
            OBPropertyID::TimerResetEnableBool => PropertyKind::Bool,
            OBPropertyID::DeviceUSB2RepeatIdentifyBool => PropertyKind::Bool,
            OBPropertyID::DeviceRebootDelayInt => PropertyKind::Int,
            OBPropertyID::LaserOvercurrentProtectionStatusBool => PropertyKind::Bool,
            OBPropertyID::LaserPulseWidthProtectionStatusBool => PropertyKind::Bool,
            OBPropertyID::LaserAlwaysOnBool => PropertyKind::Bool,
            OBPropertyID::LaserOnOffPatternInt => PropertyKind::Int,
            OBPropertyID::DepthUnitFlexibleAdjustmentFloat => PropertyKind::Float,
            OBPropertyID::LaserControlInt => PropertyKind::Int,
            OBPropertyID::IRBrightnessInt => PropertyKind::Int,
            OBPropertyID::SlaveDeviceSyncStatusBool => PropertyKind::Bool,
            OBPropertyID::ColorAEMaxExposureInt => PropertyKind::Int,
            OBPropertyID::IRAEMaxExposureInt => PropertyKind::Int,
            OBPropertyID::DispSearchRangeModeInt => PropertyKind::Int,
            OBPropertyID::LaserHighTemperatureProtectBool => PropertyKind::Bool,
            OBPropertyID::LowExposureLaserControlBool => PropertyKind::Bool,
            OBPropertyID::CheckPPSSyncInSignalBool => PropertyKind::Bool,
            OBPropertyID::DispSearchOffsetInt => PropertyKind::Int,
            OBPropertyID::DeviceRepowerBool => PropertyKind::Bool,
            OBPropertyID::FrameInterleaveConfigIndexInt => PropertyKind::Int,
            OBPropertyID::FrameInterleaveEnableBool => PropertyKind::Bool,
            OBPropertyID::FrameInterleaveLaserPatternSyncDelayInt => PropertyKind::Int,
            OBPropertyID::OnChipCalibrationHealthCheckFloat => PropertyKind::Float,
            OBPropertyID::OnChipCalibrationEnableBool => PropertyKind::Bool,
            OBPropertyID::HWNoiseRemoveFilterEnableBool => PropertyKind::Bool,
            OBPropertyID::HWNoiseRemoveFilterThresholdFloat => PropertyKind::Float,
            OBPropertyID::DeviceAutoCaptureEnableBool => PropertyKind::Bool,
            OBPropertyID::DeviceAutoCaptureIntervalTimeInt => PropertyKind::Int,
            OBPropertyID::DevicePTPClockSyncEnableBool => PropertyKind::Bool,
            OBPropertyID::DepthWithConfidenceStreamEnableBool => PropertyKind::Bool,
            OBPropertyID::ConfidenceStreamFilterBool => PropertyKind::Bool,
            OBPropertyID::ConfidenceStreamFilterThresholdInt => PropertyKind::Int,
            OBPropertyID::ConfidenceMirrorBool => PropertyKind::Bool,
            OBPropertyID::ConfidenceFlipBool => PropertyKind::Bool,
            OBPropertyID::ConfidenceRotateInt => PropertyKind::Int,
            OBPropertyID::ColorAutoExposureBool => PropertyKind::Bool,
            OBPropertyID::ColorExposureInt => PropertyKind::Int,
            OBPropertyID::ColorGainInt => PropertyKind::Int,
            OBPropertyID::ColorAutoWhiteBalanceBool => PropertyKind::Bool,
            OBPropertyID::ColorWhiteBalanceInt => PropertyKind::Int,
            OBPropertyID::ColorBrightnessInt => PropertyKind::Int,
            OBPropertyID::ColorSharpnessInt => PropertyKind::Int,
            OBPropertyID::ColorShutterInt => PropertyKind::Int,
            OBPropertyID::ColorSaturationInt => PropertyKind::Int,
            OBPropertyID::ColorContrastInt => PropertyKind::Int,
            OBPropertyID::ColorGammaInt => PropertyKind::Int,
            OBPropertyID::ColorRollInt => PropertyKind::Int,
            OBPropertyID::ColorAutoExposurePriorityInt => PropertyKind::Int,
            OBPropertyID::ColorBacklightCompensationInt => PropertyKind::Int,
            OBPropertyID::ColorHueInt => PropertyKind::Int,
            OBPropertyID::ColorPowerLineFrequencyInt => PropertyKind::Int,
            OBPropertyID::DepthAutoExposureBool => PropertyKind::Bool,
            OBPropertyID::DepthExposureInt => PropertyKind::Int,
            OBPropertyID::DepthGainInt => PropertyKind::Int,
            OBPropertyID::IRAutoExposureBool => PropertyKind::Bool,
            OBPropertyID::IRExposureInt => PropertyKind::Int,
            OBPropertyID::IRGainInt => PropertyKind::Int,
            OBPropertyID::IRChannelDataSourceInt => PropertyKind::Int,
            OBPropertyID::DepthRMFilterBool => PropertyKind::Bool,
            OBPropertyID::ColorMaximalGainInt => PropertyKind::Int,
            OBPropertyID::ColorMaximalShutterInt => PropertyKind::Int,
            OBPropertyID::IRShortExposureBool => PropertyKind::Bool,
            OBPropertyID::ColorHDRBool => PropertyKind::Bool,
            OBPropertyID::IRLongExposureBool => PropertyKind::Bool,
            OBPropertyID::SkipFrameBool => PropertyKind::Bool,
            OBPropertyID::HDRMergeBool => PropertyKind::Bool,
            OBPropertyID::ColorFocusInt => PropertyKind::Int,
            OBPropertyID::IRRectifyBool => PropertyKind::Bool,
            OBPropertyID::DepthAutoExposurePriorityInt => PropertyKind::Int,
            OBPropertyID::SDKDisparityToDepthBool => PropertyKind::Bool,
            OBPropertyID::SDKDepthFrameUnpackBool => PropertyKind::Bool,
            OBPropertyID::SDKIRFrameUnpackBool => PropertyKind::Bool,
            OBPropertyID::SDKAccelFrameTransformedBool => PropertyKind::Bool,
            OBPropertyID::SDKGyroFrameTransformedBool => PropertyKind::Bool,
            OBPropertyID::SDKIRLeftFrameUnpackBool => PropertyKind::Bool,
            OBPropertyID::SDKIRRightFrameUnpackBool => PropertyKind::Bool,
            OBPropertyID::NetworkBandwidthTypeInt => PropertyKind::Int,
            OBPropertyID::DevicePerformanceModeInt => PropertyKind::Int,
            OBPropertyID::RawDataCameraCalibJsonFile => PropertyKind::Int,
            OBPropertyID::DebugESGMConfidenceFloat => PropertyKind::Float,
        }
    }
}

impl DeviceProperty {
    /// The identifier of this property.
    pub open spec fn id(self) -> OBPropertyID {
        match self {
            DeviceProperty::LDP(_) => OBPropertyID::LDPBool,
            DeviceProperty::Laser(_) => OBPropertyID::LaserBool,
            DeviceProperty::LaserPulseWidth(_) => OBPropertyID::LaserPulseWidthInt,
            DeviceProperty::LaserCurrent(_) => OBPropertyID::LaserCurrentFloat,
            DeviceProperty::Flood(_) => OBPropertyID::FloodBool,
            DeviceProperty::FloodLevel(_) => OBPropertyID::FloodLevelInt,
            DeviceProperty::TemperatureCompensation(_) => OBPropertyID::TemperatureCompensationBool,
            DeviceProperty::DepthMirror(_) => OBPropertyID::DepthMirrorBool,
            DeviceProperty::DepthFlip(_) => OBPropertyID::DepthFlipBool,
            DeviceProperty::DepthPostfilter(_) => OBPropertyID::DepthPostfilterBool,
            DeviceProperty::DepthHolefilter(_) => OBPropertyID::DepthHolefilterBool,
            DeviceProperty::IRMirror(_) => OBPropertyID::IRMirrorBool,
            DeviceProperty::IRFlip(_) => OBPropertyID::IRFlipBool,
            DeviceProperty::MinDepth(_) => OBPropertyID::MinDepthInt,
            DeviceProperty::MaxDepth(_) => OBPropertyID::MaxDepthInt,
            DeviceProperty::DepthNoiseRemovalFilter(_) => OBPropertyID::DepthNoiseRemovalFilterBool,
            DeviceProperty::LDPStatus(_) => OBPropertyID::LDPStatusBool,
            DeviceProperty::DepthNoiseRemovalFilterMaxDiff(_) => OBPropertyID::DepthNoiseRemovalFilterMaxDiffInt,
            DeviceProperty::DepthNoiseRemovalFilterMaxSpeckleSize(_) => OBPropertyID::DepthNoiseRemovalFilterMaxSpeckleSizeInt,
            DeviceProperty::DepthAlignHardware(_) => OBPropertyID::DepthAlignHardwareBool,
            DeviceProperty::TimestampOffset(_) => OBPropertyID::TimestampOffsetInt,
            DeviceProperty::HardwareDistortionSwitch(_) => OBPropertyID::HardwareDistortionSwitchBool,
            DeviceProperty::FanWorkMode(_) => OBPropertyID::FanWorkModeInt,
            DeviceProperty::DepthAlignHardwareMode(_) => OBPropertyID::DepthAlignHardwareModeInt,
            DeviceProperty::AntiCollusionActivationStatus(_) => OBPropertyID::AntiCollusionActivationStatusBool,
            DeviceProperty::DepthPrecisionLevel(_) => OBPropertyID::DepthPrecisionLevelInt,
            DeviceProperty::TofFilterRange(_) => OBPropertyID::TofFilterRangeInt,
            DeviceProperty::LaserMode(_) => OBPropertyID::LaserModeInt,
            DeviceProperty::Rectify2(_) => OBPropertyID::Rectify2Bool,
            DeviceProperty::ColorMirror(_) => OBPropertyID::ColorMirrorBool,
            DeviceProperty::ColorFlip(_) => OBPropertyID::ColorFlipBool,
            DeviceProperty::IndicatorLight(_) => OBPropertyID::IndicatorLightBool,
            DeviceProperty::DisparityToDepth(_) => OBPropertyID::DisparityToDepthBool,
            DeviceProperty::BRT(_) => OBPropertyID::BRTBool,
            DeviceProperty::Watchdog(_) => OBPropertyID::WatchdogBool,
            DeviceProperty::ExternalSignalReset(_) => OBPropertyID::ExternalSignalResetBool,
            DeviceProperty::Heartbeat(_) => OBPropertyID::HeartbeatBool,
            DeviceProperty::DepthCroppingMode(_) => OBPropertyID::DepthCroppingModeInt,
            DeviceProperty::D2CPreprocess(_) => OBPropertyID::D2CPreprocessBool,
            DeviceProperty::GPM(_) => OBPropertyID::GPMBool,
            DeviceProperty::RGBCustomCrop(_) => OBPropertyID::RGBCustomCropBool,
            DeviceProperty::DeviceWorkMode(_) => OBPropertyID::DeviceWorkModeInt,
            DeviceProperty::DeviceCommunicationType(_) => OBPropertyID::DeviceCommunicationTypeInt,
            DeviceProperty::SwitchIRMode(_) => OBPropertyID::SwitchIRModeInt,
            DeviceProperty::LaserPowerLevelControl(_) => OBPropertyID::LaserPowerLevelControlInt,
            DeviceProperty::LDPMeasureDistance(_) => OBPropertyID::LDPMeasureDistanceInt,
            DeviceProperty::TimerResetSignal(_) => OBPropertyID::TimerResetSignalBool,
            DeviceProperty::TimerResetTriggerOutEnable(_) => OBPropertyID::TimerResetTriggerOutEnableBool,
            DeviceProperty::TimerResetDelayUs(_) => OBPropertyID::TimerResetDelayUsInt,
            DeviceProperty::CaptureImageSignal(_) => OBPropertyID::CaptureImageSignalBool,
            DeviceProperty::IRRightMirror(_) => OBPropertyID::IRRightMirrorBool,
            DeviceProperty::CaptureImageFrameNumber(_) => OBPropertyID::CaptureImageFrameNumberInt,
            DeviceProperty::IRRightFlip(_) => OBPropertyID::IRRightFlipBool,
            DeviceProperty::ColorRotate(_) => OBPropertyID::ColorRotateInt,
            DeviceProperty::IRRotate(_) => OBPropertyID::IRRotateInt,
            DeviceProperty::IRRightRotate(_) => OBPropertyID::IRRightRotateInt,
            DeviceProperty::DepthRotate(_) => OBPropertyID::DepthRotateInt,
            DeviceProperty::LaserPowerActualLevel(_) => OBPropertyID::LaserPowerActualLevelInt,
            DeviceProperty::USBPowerState(_) => OBPropertyID::USBPowerStateInt,
            DeviceProperty::DCPowerState(_) => OBPropertyID::DCPowerStateInt,
            DeviceProperty::DeviceDevelopmentMode(_) => OBPropertyID::DeviceDevelopmentModeInt,
            DeviceProperty::SyncSignalTriggerOut(_) => OBPropertyID::SyncSignalTriggerOutBool,
            DeviceProperty::RestoreFactorySettings(_) => OBPropertyID::RestoreFactorySettingsBool,
            DeviceProperty::BootIntoRecoveryMode(_) => OBPropertyID::BootIntoRecoveryModeBool,
            DeviceProperty::DeviceInRecoveryMode(_) => OBPropertyID::DeviceInRecoveryModeBool,
            DeviceProperty::CaptureIntervalMode(_) => OBPropertyID::CaptureIntervalModeInt,
            DeviceProperty::CaptureImageTimeInterval(_) => OBPropertyID::CaptureImageTimeIntervalInt,
            DeviceProperty::CaptureImageNumberInterval(_) => OBPropertyID::CaptureImageNumberIntervalInt,
            DeviceProperty::TimerResetEnable(_) => OBPropertyID::TimerResetEnableBool,
            DeviceProperty::DeviceUSB2RepeatIdentify(_) => OBPropertyID::DeviceUSB2RepeatIdentifyBool,
            DeviceProperty::DeviceRebootDelay(_) => OBPropertyID::DeviceRebootDelayInt,
            DeviceProperty::LaserOvercurrentProtectionStatus(_) => OBPropertyID::LaserOvercurrentProtectionStatusBool,
            DeviceProperty::LaserPulseWidthProtectionStatus(_) => OBPropertyID::LaserPulseWidthProtectionStatusBool,
            DeviceProperty::LaserAlwaysOn(_) => OBPropertyID::LaserAlwaysOnBool,
            DeviceProperty::LaserOnOffPattern(_) => OBPropertyID::LaserOnOffPatternInt,
            DeviceProperty::DepthUnitFlexibleAdjustment(_) => OBPropertyID::DepthUnitFlexibleAdjustmentFloat,
            DeviceProperty::LaserControl(_) => OBPropertyID::LaserControlInt,
            DeviceProperty::IRBrightness(_) => OBPropertyID::IRBrightnessInt,
            DeviceProperty::SlaveDeviceSyncStatus(_) => OBPropertyID::SlaveDeviceSyncStatusBool,
            DeviceProperty::ColorAEMaxExposure(_) => OBPropertyID::ColorAEMaxExposureInt,
            DeviceProperty::IRAEMaxExposure(_) => OBPropertyID::IRAEMaxExposureInt,
            DeviceProperty::DispSearchRangeMode(_) => OBPropertyID::DispSearchRangeModeInt,
            DeviceProperty::LaserHighTemperatureProtect(_) => OBPropertyID::LaserHighTemperatureProtectBool,
            DeviceProperty::LowExposureLaserControl(_) => OBPropertyID::LowExposureLaserControlBool,
            DeviceProperty::CheckPPSSyncInSignal(_) => OBPropertyID::CheckPPSSyncInSignalBool,
            DeviceProperty::DispSearchOffset(_) => OBPropertyID::DispSearchOffsetInt,
            DeviceProperty::DeviceRepower(_) => OBPropertyID::DeviceRepowerBool,
            DeviceProperty::FrameInterleaveConfigIndex(_) => OBPropertyID::FrameInterleaveConfigIndexInt,
            DeviceProperty::FrameInterleaveEnable(_) => OBPropertyID::FrameInterleaveEnableBool,
            DeviceProperty::FrameInterleaveLaserPatternSyncDelay(_) => OBPropertyID::FrameInterleaveLaserPatternSyncDelayInt,
            DeviceProperty::OnChipCalibrationHealthCheck(_) => OBPropertyID::OnChipCalibrationHealthCheckFloat,
            DeviceProperty::OnChipCalibrationEnable(_) => OBPropertyID::OnChipCalibrationEnableBool,
            DeviceProperty::HWNoiseRemoveFilterEnable(_) => OBPropertyID::HWNoiseRemoveFilterEnableBool,
            DeviceProperty::HWNoiseRemoveFilterThreshold(_) => OBPropertyID::HWNoiseRemoveFilterThresholdFloat,
            DeviceProperty::DeviceAutoCaptureEnable(_) => OBPropertyID::DeviceAutoCaptureEnableBool,
            DeviceProperty::DeviceAutoCaptureIntervalTime(_) => OBPropertyID::DeviceAutoCaptureIntervalTimeInt,
            DeviceProperty::DevicePTPClockSyncEnable(_) => OBPropertyID::DevicePTPClockSyncEnableBool,
            DeviceProperty::DepthWithConfidenceStreamEnable(_) => OBPropertyID::DepthWithConfidenceStreamEnableBool,
            DeviceProperty::ConfidenceStreamFilter(_) => OBPropertyID::ConfidenceStreamFilterBool,
            DeviceProperty::ConfidenceStreamFilterThreshold(_) => OBPropertyID::ConfidenceStreamFilterThresholdInt,
            DeviceProperty::ConfidenceMirror(_) => OBPropertyID::ConfidenceMirrorBool,
            DeviceProperty::ConfidenceFlip(_) => OBPropertyID::ConfidenceFlipBool,
            DeviceProperty::ConfidenceRotate(_) => OBPropertyID::ConfidenceRotateInt,
            DeviceProperty::ColorAutoExposure(_) => OBPropertyID::ColorAutoExposureBool,
            DeviceProperty::ColorExposure(_) => OBPropertyID::ColorExposureInt,
            DeviceProperty::ColorGain(_) => OBPropertyID::ColorGainInt,
            DeviceProperty::ColorAutoWhiteBalance(_) => OBPropertyID::ColorAutoWhiteBalanceBool,
            DeviceProperty::ColorWhiteBalance(_) => OBPropertyID::ColorWhiteBalanceInt,
            DeviceProperty::ColorBrightness(_) => OBPropertyID::ColorBrightnessInt,
            DeviceProperty::ColorSharpness(_) => OBPropertyID::ColorSharpnessInt,
            DeviceProperty::ColorShutter(_) => OBPropertyID::ColorShutterInt,
            DeviceProperty::ColorSaturation(_) => OBPropertyID::ColorSaturationInt,
            DeviceProperty::ColorContrast(_) => OBPropertyID::ColorContrastInt,
            DeviceProperty::ColorGamma(_) => OBPropertyID::ColorGammaInt,
            DeviceProperty::ColorRoll(_) => OBPropertyID::ColorRollInt,
            DeviceProperty::ColorAutoExposurePriority(_) => OBPropertyID::ColorAutoExposurePriorityInt,
            DeviceProperty::ColorBacklightCompensation(_) => OBPropertyID::ColorBacklightCompensationInt,
            DeviceProperty::ColorHue(_) => OBPropertyID::ColorHueInt,
            DeviceProperty::ColorPowerLineFrequency(_) => OBPropertyID::ColorPowerLineFrequencyInt,
            DeviceProperty::DepthAutoExposure(_) => OBPropertyID::DepthAutoExposureBool,
            DeviceProperty::DepthExposure(_) => OBPropertyID::DepthExposureInt,
            DeviceProperty::DepthGain(_) => OBPropertyID::DepthGainInt,
            DeviceProperty::IRAutoExposure(_) => OBPropertyID::IRAutoExposureBool,
            DeviceProperty::IRExposure(_) => OBPropertyID::IRExposureInt,
            DeviceProperty::IRGain(_) => OBPropertyID::IRGainInt,
            DeviceProperty::IRChannelDataSource(_) => OBPropertyID::IRChannelDataSourceInt,
            DeviceProperty::DepthRMFilter(_) => OBPropertyID::DepthRMFilterBool,
            DeviceProperty::ColorMaximalGain(_) => OBPropertyID::ColorMaximalGainInt,
            DeviceProperty::ColorMaximalShutter(_) => OBPropertyID::ColorMaximalShutterInt,
            DeviceProperty::IRShortExposure(_) => OBPropertyID::IRShortExposureBool,
            DeviceProperty::ColorHDR(_) => OBPropertyID::ColorHDRBool,
            DeviceProperty::IRLongExposure(_) => OBPropertyID::IRLongExposureBool,
            DeviceProperty::SkipFrame(_) => OBPropertyID::SkipFrameBool,
            DeviceProperty::HDRMerge(_) => OBPropertyID::HDRMergeBool,
            DeviceProperty::ColorFocus(_) => OBPropertyID::ColorFocusInt,
            DeviceProperty::IRRectify(_) => OBPropertyID::IRRectifyBool,
            DeviceProperty::DepthAutoExposurePriority(_) => OBPropertyID::DepthAutoExposurePriorityInt,
            DeviceProperty::SDKDisparityToDepth(_) => OBPropertyID::SDKDisparityToDepthBool,
            DeviceProperty::SDKDepthFrameUnpack(_) => OBPropertyID::SDKDepthFrameUnpackBool,
            DeviceProperty::SDKIRFrameUnpack(_) => OBPropertyID::SDKIRFrameUnpackBool,
            DeviceProperty::SDKAccelFrameTransformed(_) => OBPropertyID::SDKAccelFrameTransformedBool,
            DeviceProperty::SDKGyroFrameTransformed(_) => OBPropertyID::SDKGyroFrameTransformedBool,
            DeviceProperty::SDKIRLeftFrameUnpack(_) => OBPropertyID::SDKIRLeftFrameUnpackBool,
            DeviceProperty::SDKIRRightFrameUnpack(_) => OBPropertyID::SDKIRRightFrameUnpackBool,
            DeviceProperty::NetworkBandwidthType(_) => OBPropertyID::NetworkBandwidthTypeInt,
            DeviceProperty::DevicePerformanceMode(_) => OBPropertyID::DevicePerformanceModeInt,
            DeviceProperty::RawDataCameraCalibJsonFile(_) => OBPropertyID::RawDataCameraCalibJsonFile,
            DeviceProperty::DebugESGMConfidence(_) => OBPropertyID::DebugESGMConfidenceFloat,
        }
    }

    /// The value that this property carries.
    pub open spec fn payload(self) -> PropertyPayload {
        match self {
            DeviceProperty::LDP(value) => PropertyPayload::Bool(value),
            DeviceProperty::Laser(value) => PropertyPayload::Bool(value),
            DeviceProperty::LaserPulseWidth(value) => PropertyPayload::Int(value),
            DeviceProperty::LaserCurrent(value) => PropertyPayload::Float(value),
            DeviceProperty::Flood(value) => PropertyPayload::Bool(value),
            DeviceProperty::FloodLevel(value) => PropertyPayload::Int(value),
            DeviceProperty::TemperatureCompensation(value) => PropertyPayload::Bool(value),
            DeviceProperty::DepthMirror(value) => PropertyPayload::Bool(value),
            DeviceProperty::DepthFlip(value) => PropertyPayload::Bool(value),
            DeviceProperty::DepthPostfilter(value) => PropertyPayload::Bool(value),
            DeviceProperty::DepthHolefilter(value) => PropertyPayload::Bool(value),
            DeviceProperty::IRMirror(value) => PropertyPayload::Bool(value),
            DeviceProperty::IRFlip(value) => PropertyPayload::Bool(value),
            DeviceProperty::MinDepth(value) => PropertyPayload::Int(value),
            DeviceProperty::MaxDepth(value) => PropertyPayload::Int(value),
            DeviceProperty::DepthNoiseRemovalFilter(value) => PropertyPayload::Bool(value),
            DeviceProperty::LDPStatus(value) => PropertyPayload::Bool(value),
            DeviceProperty::DepthNoiseRemovalFilterMaxDiff(value) => PropertyPayload::Int(value),
            DeviceProperty::DepthNoiseRemovalFilterMaxSpeckleSize(value) => PropertyPayload::Int(value),
            DeviceProperty::DepthAlignHardware(value) => PropertyPayload::Bool(value),
            DeviceProperty::TimestampOffset(value) => PropertyPayload::Int(value),
            DeviceProperty::HardwareDistortionSwitch(value) => PropertyPayload::Bool(value),
            DeviceProperty::FanWorkMode(value) => PropertyPayload::Int(value),
            DeviceProperty::DepthAlignHardwareMode(value) => PropertyPayload::Int(value),
            DeviceProperty::AntiCollusionActivationStatus(value) => PropertyPayload::Bool(value),
            DeviceProperty::DepthPrecisionLevel(value) => PropertyPayload::Int(value),
            DeviceProperty::TofFilterRange(value) => PropertyPayload::Int(value),
            DeviceProperty::LaserMode(value) => PropertyPayload::Int(value),
            DeviceProperty::Rectify2(value) => PropertyPayload::Bool(value),
            DeviceProperty::ColorMirror(value) => PropertyPayload::Bool(value),
            DeviceProperty::ColorFlip(value) => PropertyPayload::Bool(value),
            DeviceProperty::IndicatorLight(value) => PropertyPayload::Bool(value),
            DeviceProperty::DisparityToDepth(value) => PropertyPayload::Bool(value),
            DeviceProperty::BRT(value) => PropertyPayload::Bool(value),
            DeviceProperty::Watchdog(value) => PropertyPayload::Bool(value),
            DeviceProperty::ExternalSignalReset(value) => PropertyPayload::Bool(value),
            DeviceProperty::Heartbeat(value) => PropertyPayload::Bool(value),
            DeviceProperty::DepthCroppingMode(value) => PropertyPayload::Int(value),
            DeviceProperty::D2CPreprocess(value) => PropertyPayload::Bool(value),
            DeviceProperty::GPM(value) => PropertyPayload::Bool(value),
            DeviceProperty::RGBCustomCrop(value) => PropertyPayload::Bool(value),
            DeviceProperty::DeviceWorkMode(value) => PropertyPayload::Int(value),
            DeviceProperty::DeviceCommunicationType(value) => PropertyPayload::Int(value),
            DeviceProperty::SwitchIRMode(value) => PropertyPayload::Int(value),
            DeviceProperty::LaserPowerLevelControl(value) => PropertyPayload::Int(value),
            DeviceProperty::LDPMeasureDistance(value) => PropertyPayload::Int(value),
            DeviceProperty::TimerResetSignal(value) => PropertyPayload::Bool(value),
            DeviceProperty::TimerResetTriggerOutEnable(value) => PropertyPayload::Bool(value),
            DeviceProperty::TimerResetDelayUs(value) => PropertyPayload::Int(value),
            DeviceProperty::CaptureImageSignal(value) => PropertyPayload::Bool(value),
            DeviceProperty::IRRightMirror(value) => PropertyPayload::Bool(value),
            DeviceProperty::CaptureImageFrameNumber(value) => PropertyPayload::Int(value),
            DeviceProperty::IRRightFlip(value) => PropertyPayload::Bool(value),
            DeviceProperty::ColorRotate(value) => PropertyPayload::Int(value),
            DeviceProperty::IRRotate(value) => PropertyPayload::Int(value),
            DeviceProperty::IRRightRotate(value) => PropertyPayload::Int(value),
            DeviceProperty::DepthRotate(value) => PropertyPayload::Int(value),
            DeviceProperty::LaserPowerActualLevel(value) => PropertyPayload::Int(value),
            DeviceProperty::USBPowerState(value) => PropertyPayload::Int(value),
            DeviceProperty::DCPowerState(value) => PropertyPayload::Int(value),
            DeviceProperty::DeviceDevelopmentMode(value) => PropertyPayload::Int(value),
            DeviceProperty::SyncSignalTriggerOut(value) => PropertyPayload::Bool(value),
            DeviceProperty::RestoreFactorySettings(value) => PropertyPayload::Bool(value),
            DeviceProperty::BootIntoRecoveryMode(value) => PropertyPayload::Bool(value),
            DeviceProperty::DeviceInRecoveryMode(value) => PropertyPayload::Bool(value),
            DeviceProperty::CaptureIntervalMode(value) => PropertyPayload::Int(value),
            DeviceProperty::CaptureImageTimeInterval(value) => PropertyPayload::Int(value),
            DeviceProperty::CaptureImageNumberInterval(value) => PropertyPayload::Int(value),
            DeviceProperty::TimerResetEnable(value) => PropertyPayload::Bool(value),
            DeviceProperty::DeviceUSB2RepeatIdentify(value) => PropertyPayload::Bool(value),
            DeviceProperty::DeviceRebootDelay(value) => PropertyPayload::Int(value),
            DeviceProperty::LaserOvercurrentProtectionStatus(value) => PropertyPayload::Bool(value),
            DeviceProperty::LaserPulseWidthProtectionStatus(value) => PropertyPayload::Bool(value),
            DeviceProperty::LaserAlwaysOn(value) => PropertyPayload::Bool(value),
            DeviceProperty::LaserOnOffPattern(value) => PropertyPayload::Int(value),
            DeviceProperty::DepthUnitFlexibleAdjustment(value) => PropertyPayload::Float(value),
            DeviceProperty::LaserControl(value) => PropertyPayload::Int(value),
            DeviceProperty::IRBrightness(value) => PropertyPayload::Int(value),
            DeviceProperty::SlaveDeviceSyncStatus(value) => PropertyPayload::Bool(value),
            DeviceProperty::ColorAEMaxExposure(value) => PropertyPayload::Int(value),
            DeviceProperty::IRAEMaxExposure(value) => PropertyPayload::Int(value),
            DeviceProperty::DispSearchRangeMode(value) => PropertyPayload::Int(value),
            DeviceProperty::LaserHighTemperatureProtect(value) => PropertyPayload::Bool(value),
            DeviceProperty::LowExposureLaserControl(value) => PropertyPayload::Bool(value),
            DeviceProperty::CheckPPSSyncInSignal(value) => PropertyPayload::Bool(value),
            DeviceProperty::DispSearchOffset(value) => PropertyPayload::Int(value),
            DeviceProperty::DeviceRepower(value) => PropertyPayload::Bool(value),
            DeviceProperty::FrameInterleaveConfigIndex(value) => PropertyPayload::Int(value),
            DeviceProperty::FrameInterleaveEnable(value) => PropertyPayload::Bool(value),
            DeviceProperty::FrameInterleaveLaserPatternSyncDelay(value) => PropertyPayload::Int(value),
            DeviceProperty::OnChipCalibrationHealthCheck(value) => PropertyPayload::Float(value),
            DeviceProperty::OnChipCalibrationEnable(value) => PropertyPayload::Bool(value),
            DeviceProperty::HWNoiseRemoveFilterEnable(value) => PropertyPayload::Bool(value),
            DeviceProperty::HWNoiseRemoveFilterThreshold(value) => PropertyPayload::Float(value),
            DeviceProperty::DeviceAutoCaptureEnable(value) => PropertyPayload::Bool(value),
            DeviceProperty::DeviceAutoCaptureIntervalTime(value) => PropertyPayload::Int(value),
            DeviceProperty::DevicePTPClockSyncEnable(value) => PropertyPayload::Bool(value),
            DeviceProperty::DepthWithConfidenceStreamEnable(value) => PropertyPayload::Bool(value),
            DeviceProperty::ConfidenceStreamFilter(value) => PropertyPayload::Bool(value),
            DeviceProperty::ConfidenceStreamFilterThreshold(value) => PropertyPayload::Int(value),
            DeviceProperty::ConfidenceMirror(value) => PropertyPayload::Bool(value),
            DeviceProperty::ConfidenceFlip(value) => PropertyPayload::Bool(value),
            DeviceProperty::ConfidenceRotate(value) => PropertyPayload::Int(value),
            DeviceProperty::ColorAutoExposure(value) => PropertyPayload::Bool(value),
            DeviceProperty::ColorExposure(value) => PropertyPayload::Int(value),
            DeviceProperty::ColorGain(value) => PropertyPayload::Int(value),
            DeviceProperty::ColorAutoWhiteBalance(value) => PropertyPayload::Bool(value),
            DeviceProperty::ColorWhiteBalance(value) => PropertyPayload::Int(value),
            DeviceProperty::ColorBrightness(value) => PropertyPayload::Int(value),
            DeviceProperty::ColorSharpness(value) => PropertyPayload::Int(value),
            DeviceProperty::ColorShutter(value) => PropertyPayload::Int(value),
            DeviceProperty::ColorSaturation(value) => PropertyPayload::Int(value),
            DeviceProperty::ColorContrast(value) => PropertyPayload::Int(value),
            DeviceProperty::ColorGamma(value) => PropertyPayload::Int(value),
            DeviceProperty::ColorRoll(value) => PropertyPayload::Int(value),
            DeviceProperty::ColorAutoExposurePriority(value) => PropertyPayload::Int(value),
            DeviceProperty::ColorBacklightCompensation(value) => PropertyPayload::Int(value),
            DeviceProperty::ColorHue(value) => PropertyPayload::Int(value),
            DeviceProperty::ColorPowerLineFrequency(value) => PropertyPayload::Int(value),
            DeviceProperty::DepthAutoExposure(value) => PropertyPayload::Bool(value),
            DeviceProperty::DepthExposure(value) => PropertyPayload::Int(value),
            DeviceProperty::DepthGain(value) => PropertyPayload::Int(value),
            DeviceProperty::IRAutoExposure(value) => PropertyPayload::Bool(value),
            DeviceProperty::IRExposure(value) => PropertyPayload::Int(value),
            DeviceProperty::IRGain(value) => PropertyPayload::Int(value),
            DeviceProperty::IRChannelDataSource(value) => PropertyPayload::Int(value),
            DeviceProperty::DepthRMFilter(value) => PropertyPayload::Bool(value),
            DeviceProperty::ColorMaximalGain(value) => PropertyPayload::Int(value),
            DeviceProperty::ColorMaximalShutter(value) => PropertyPayload::Int(value),
            DeviceProperty::IRShortExposure(value) => PropertyPayload::Bool(value),
            DeviceProperty::ColorHDR(value) => PropertyPayload::Bool(value),
            DeviceProperty::IRLongExposure(value) => PropertyPayload::Bool(value),
            DeviceProperty::SkipFrame(value) => PropertyPayload::Bool(value),
            DeviceProperty::HDRMerge(value) => PropertyPayload::Bool(value),
            DeviceProperty::ColorFocus(value) => PropertyPayload::Int(value),
            DeviceProperty::IRRectify(value) => PropertyPayload::Bool(value),
            DeviceProperty::DepthAutoExposurePriority(value) => PropertyPayload::Int(value),
            DeviceProperty::SDKDisparityToDepth(value) => PropertyPayload::Bool(value),
            DeviceProperty::SDKDepthFrameUnpack(value) => PropertyPayload::Bool(value),
            DeviceProperty::SDKIRFrameUnpack(value) => PropertyPayload::Bool(value),
            DeviceProperty::SDKAccelFrameTransformed(value) => PropertyPayload::Bool(value),
            DeviceProperty::SDKGyroFrameTransformed(value) => PropertyPayload::Bool(value),
            DeviceProperty::SDKIRLeftFrameUnpack(value) => PropertyPayload::Bool(value),
            DeviceProperty::SDKIRRightFrameUnpack(value) => PropertyPayload::Bool(value),
            DeviceProperty::NetworkBandwidthType(value) => PropertyPayload::Int(value),
            DeviceProperty::DevicePerformanceMode(value) => PropertyPayload::Int(value),
            DeviceProperty::RawDataCameraCalibJsonFile(value) => PropertyPayload::Int(value),
            DeviceProperty::DebugESGMConfidence(value) => PropertyPayload::Float(value),
        }
    }

    /// Decompose to (property_id, property_value): the identifier of the property,
    /// and the place where its value is kept, through which the value can be read
    /// and replaced.
    #[verifier::rlimit(100)]
    pub fn decompose<'a>(&'a mut self) -> (r: (OBPropertyID, PropertyValue<'a>))
        ensures
            r.0 == old(self).id(),
            final(self).id() == old(self).id(),
            match r.1 {
                PropertyValue::Bool(slot) => {
                    &&& old(self).payload() == PropertyPayload::Bool(*slot)
                    &&& final(self).payload() == PropertyPayload::Bool(*final(slot))
                },
                PropertyValue::Int(slot) => {
                    &&& old(self).payload() == PropertyPayload::Int(*slot)
                    &&& final(self).payload() == PropertyPayload::Int(*final(slot))
                },
                PropertyValue::Float(slot) => {
                    &&& old(self).payload() == PropertyPayload::Float(*slot)
                    &&& final(self).payload() == PropertyPayload::Float(*final(slot))
                },
            },
    {
        match self {
            DeviceProperty::LDP(value) => (OBPropertyID::LDPBool, PropertyValue::Bool(value)),
            DeviceProperty::Laser(value) => (OBPropertyID::LaserBool, PropertyValue::Bool(value)),
            DeviceProperty::LaserPulseWidth(value) => (OBPropertyID::LaserPulseWidthInt, PropertyValue::Int(value)),
            DeviceProperty::LaserCurrent(value) => (OBPropertyID::LaserCurrentFloat, PropertyValue::Float(value)),
            DeviceProperty::Flood(value) => (OBPropertyID::FloodBool, PropertyValue::Bool(value)),
            DeviceProperty::FloodLevel(value) => (OBPropertyID::FloodLevelInt, PropertyValue::Int(value)),
            DeviceProperty::TemperatureCompensation(value) => (OBPropertyID::TemperatureCompensationBool, PropertyValue::Bool(value)),
            DeviceProperty::DepthMirror(value) => (OBPropertyID::DepthMirrorBool, PropertyValue::Bool(value)),
            DeviceProperty::DepthFlip(value) => (OBPropertyID::DepthFlipBool, PropertyValue::Bool(value)),
            DeviceProperty::DepthPostfilter(value) => (OBPropertyID::DepthPostfilterBool, PropertyValue::Bool(value)),
            DeviceProperty::DepthHolefilter(value) => (OBPropertyID::DepthHolefilterBool, PropertyValue::Bool(value)),
            DeviceProperty::IRMirror(value) => (OBPropertyID::IRMirrorBool, PropertyValue::Bool(value)),
            DeviceProperty::IRFlip(value) => (OBPropertyID::IRFlipBool, PropertyValue::Bool(value)),
            DeviceProperty::MinDepth(value) => (OBPropertyID::MinDepthInt, PropertyValue::Int(value)),
            DeviceProperty::MaxDepth(value) => (OBPropertyID::MaxDepthInt, PropertyValue::Int(value)),
            DeviceProperty::DepthNoiseRemovalFilter(value) => (OBPropertyID::DepthNoiseRemovalFilterBool, PropertyValue::Bool(value)),
            DeviceProperty::LDPStatus(value) => (OBPropertyID::LDPStatusBool, PropertyValue::Bool(value)),
            DeviceProperty::DepthNoiseRemovalFilterMaxDiff(value) => (OBPropertyID::DepthNoiseRemovalFilterMaxDiffInt, PropertyValue::Int(value)),
            DeviceProperty::DepthNoiseRemovalFilterMaxSpeckleSize(value) => (OBPropertyID::DepthNoiseRemovalFilterMaxSpeckleSizeInt, PropertyValue::Int(value)),
            DeviceProperty::DepthAlignHardware(value) => (OBPropertyID::DepthAlignHardwareBool, PropertyValue::Bool(value)),
            DeviceProperty::TimestampOffset(value) => (OBPropertyID::TimestampOffsetInt, PropertyValue::Int(value)),
            DeviceProperty::HardwareDistortionSwitch(value) => (OBPropertyID::HardwareDistortionSwitchBool, PropertyValue::Bool(value)),
            DeviceProperty::FanWorkMode(value) => (OBPropertyID::FanWorkModeInt, PropertyValue::Int(value)),
            DeviceProperty::DepthAlignHardwareMode(value) => (OBPropertyID::DepthAlignHardwareModeInt, PropertyValue::Int(value)),
            DeviceProperty::AntiCollusionActivationStatus(value) => (OBPropertyID::AntiCollusionActivationStatusBool, PropertyValue::Bool(value)),
            DeviceProperty::DepthPrecisionLevel(value) => (OBPropertyID::DepthPrecisionLevelInt, PropertyValue::Int(value)),
            DeviceProperty::TofFilterRange(value) => (OBPropertyID::TofFilterRangeInt, PropertyValue::Int(value)),
            DeviceProperty::LaserMode(value) => (OBPropertyID::LaserModeInt, PropertyValue::Int(value)),
            DeviceProperty::Rectify2(value) => (OBPropertyID::Rectify2Bool, PropertyValue::Bool(value)),
            DeviceProperty::ColorMirror(value) => (OBPropertyID::ColorMirrorBool, PropertyValue::Bool(value)),
            DeviceProperty::ColorFlip(value) => (OBPropertyID::ColorFlipBool, PropertyValue::Bool(value)),
            DeviceProperty::IndicatorLight(value) => (OBPropertyID::IndicatorLightBool, PropertyValue::Bool(value)),
            DeviceProperty::DisparityToDepth(value) => (OBPropertyID::DisparityToDepthBool, PropertyValue::Bool(value)),
            DeviceProperty::BRT(value) => (OBPropertyID::BRTBool, PropertyValue::Bool(value)),
            DeviceProperty::Watchdog(value) => (OBPropertyID::WatchdogBool, PropertyValue::Bool(value)),
            DeviceProperty::ExternalSignalReset(value) => (OBPropertyID::ExternalSignalResetBool, PropertyValue::Bool(value)),
            DeviceProperty::Heartbeat(value) => (OBPropertyID::HeartbeatBool, PropertyValue::Bool(value)),
            DeviceProperty::DepthCroppingMode(value) => (OBPropertyID::DepthCroppingModeInt, PropertyValue::Int(value)),
            DeviceProperty::D2CPreprocess(value) => (OBPropertyID::D2CPreprocessBool, PropertyValue::Bool(value)),
            DeviceProperty::GPM(value) => (OBPropertyID::GPMBool, PropertyValue::Bool(value)),
            DeviceProperty::RGBCustomCrop(value) => (OBPropertyID::RGBCustomCropBool, PropertyValue::Bool(value)),
            DeviceProperty::DeviceWorkMode(value) => (OBPropertyID::DeviceWorkModeInt, PropertyValue::Int(value)),
            DeviceProperty::DeviceCommunicationType(value) => (OBPropertyID::DeviceCommunicationTypeInt, PropertyValue::Int(value)),
            DeviceProperty::SwitchIRMode(value) => (OBPropertyID::SwitchIRModeInt, PropertyValue::Int(value)),
            DeviceProperty::LaserPowerLevelControl(value) => (OBPropertyID::LaserPowerLevelControlInt, PropertyValue::Int(value)),
            DeviceProperty::LDPMeasureDistance(value) => (OBPropertyID::LDPMeasureDistanceInt, PropertyValue::Int(value)),
            DeviceProperty::TimerResetSignal(value) => (OBPropertyID::TimerResetSignalBool, PropertyValue::Bool(value)),
            DeviceProperty::TimerResetTriggerOutEnable(value) => (OBPropertyID::TimerResetTriggerOutEnableBool, PropertyValue::Bool(value)),
            DeviceProperty::TimerResetDelayUs(value) => (OBPropertyID::TimerResetDelayUsInt, PropertyValue::Int(value)),
            DeviceProperty::CaptureImageSignal(value) => (OBPropertyID::CaptureImageSignalBool, PropertyValue::Bool(value)),
            DeviceProperty::IRRightMirror(value) => (OBPropertyID::IRRightMirrorBool, PropertyValue::Bool(value)),
            DeviceProperty::CaptureImageFrameNumber(value) => (OBPropertyID::CaptureImageFrameNumberInt, PropertyValue::Int(value)),
            DeviceProperty::IRRightFlip(value) => (OBPropertyID::IRRightFlipBool, PropertyValue::Bool(value)),
            DeviceProperty::ColorRotate(value) => (OBPropertyID::ColorRotateInt, PropertyValue::Int(value)),
            DeviceProperty::IRRotate(value) => (OBPropertyID::IRRotateInt, PropertyValue::Int(value)),
            DeviceProperty::IRRightRotate(value) => (OBPropertyID::IRRightRotateInt, PropertyValue::Int(value)),
            DeviceProperty::DepthRotate(value) => (OBPropertyID::DepthRotateInt, PropertyValue::Int(value)),
            DeviceProperty::LaserPowerActualLevel(value) => (OBPropertyID::LaserPowerActualLevelInt, PropertyValue::Int(value)),
            DeviceProperty::USBPowerState(value) => (OBPropertyID::USBPowerStateInt, PropertyValue::Int(value)),
            DeviceProperty::DCPowerState(value) => (OBPropertyID::DCPowerStateInt, PropertyValue::Int(value)),
            DeviceProperty::DeviceDevelopmentMode(value) => (OBPropertyID::DeviceDevelopmentModeInt, PropertyValue::Int(value)),
            DeviceProperty::SyncSignalTriggerOut(value) => (OBPropertyID::SyncSignalTriggerOutBool, PropertyValue::Bool(value)),
            DeviceProperty::RestoreFactorySettings(value) => (OBPropertyID::RestoreFactorySettingsBool, PropertyValue::Bool(value)),
            DeviceProperty::BootIntoRecoveryMode(value) => (OBPropertyID::BootIntoRecoveryModeBool, PropertyValue::Bool(value)),
            DeviceProperty::DeviceInRecoveryMode(value) => (OBPropertyID::DeviceInRecoveryModeBool, PropertyValue::Bool(value)),
            DeviceProperty::CaptureIntervalMode(value) => (OBPropertyID::CaptureIntervalModeInt, PropertyValue::Int(value)),
            DeviceProperty::CaptureImageTimeInterval(value) => (OBPropertyID::CaptureImageTimeIntervalInt, PropertyValue::Int(value)),
            DeviceProperty::CaptureImageNumberInterval(value) => (OBPropertyID::CaptureImageNumberIntervalInt, PropertyValue::Int(value)),
            DeviceProperty::TimerResetEnable(value) => (OBPropertyID::TimerResetEnableBool, PropertyValue::Bool(value)),
            DeviceProperty::DeviceUSB2RepeatIdentify(value) => (OBPropertyID::DeviceUSB2RepeatIdentifyBool, PropertyValue::Bool(value)),
            DeviceProperty::DeviceRebootDelay(value) => (OBPropertyID::DeviceRebootDelayInt, PropertyValue::Int(value)),
            DeviceProperty::LaserOvercurrentProtectionStatus(value) => (OBPropertyID::LaserOvercurrentProtectionStatusBool, PropertyValue::Bool(value)),
            DeviceProperty::LaserPulseWidthProtectionStatus(value) => (OBPropertyID::LaserPulseWidthProtectionStatusBool, PropertyValue::Bool(value)),
            DeviceProperty::LaserAlwaysOn(value) => (OBPropertyID::LaserAlwaysOnBool, PropertyValue::Bool(value)),
            DeviceProperty::LaserOnOffPattern(value) => (OBPropertyID::LaserOnOffPatternInt, PropertyValue::Int(value)),
            DeviceProperty::DepthUnitFlexibleAdjustment(value) => (OBPropertyID::DepthUnitFlexibleAdjustmentFloat, PropertyValue::Float(value)),
            DeviceProperty::LaserControl(value) => (OBPropertyID::LaserControlInt, PropertyValue::Int(value)),
            DeviceProperty::IRBrightness(value) => (OBPropertyID::IRBrightnessInt, PropertyValue::Int(value)),
            DeviceProperty::SlaveDeviceSyncStatus(value) => (OBPropertyID::SlaveDeviceSyncStatusBool, PropertyValue::Bool(value)),
            DeviceProperty::ColorAEMaxExposure(value) => (OBPropertyID::ColorAEMaxExposureInt, PropertyValue::Int(value)),
            DeviceProperty::IRAEMaxExposure(value) => (OBPropertyID::IRAEMaxExposureInt, PropertyValue::Int(value)),
            DeviceProperty::DispSearchRangeMode(value) => (OBPropertyID::DispSearchRangeModeInt, PropertyValue::Int(value)),
            DeviceProperty::LaserHighTemperatureProtect(value) => (OBPropertyID::LaserHighTemperatureProtectBool, PropertyValue::Bool(value)),
            DeviceProperty::LowExposureLaserControl(value) => (OBPropertyID::LowExposureLaserControlBool, PropertyValue::Bool(value)),
            DeviceProperty::CheckPPSSyncInSignal(value) => (OBPropertyID::CheckPPSSyncInSignalBool, PropertyValue::Bool(value)),
            DeviceProperty::DispSearchOffset(value) => (OBPropertyID::DispSearchOffsetInt, PropertyValue::Int(value)),
            DeviceProperty::DeviceRepower(value) => (OBPropertyID::DeviceRepowerBool, PropertyValue::Bool(value)),
            DeviceProperty::FrameInterleaveConfigIndex(value) => (OBPropertyID::FrameInterleaveConfigIndexInt, PropertyValue::Int(value)),
            DeviceProperty::FrameInterleaveEnable(value) => (OBPropertyID::FrameInterleaveEnableBool, PropertyValue::Bool(value)),
            DeviceProperty::FrameInterleaveLaserPatternSyncDelay(value) => (OBPropertyID::FrameInterleaveLaserPatternSyncDelayInt, PropertyValue::Int(value)),
            DeviceProperty::OnChipCalibrationHealthCheck(value) => (OBPropertyID::OnChipCalibrationHealthCheckFloat, PropertyValue::Float(value)),
            DeviceProperty::OnChipCalibrationEnable(value) => (OBPropertyID::OnChipCalibrationEnableBool, PropertyValue::Bool(value)),
            DeviceProperty::HWNoiseRemoveFilterEnable(value) => (OBPropertyID::HWNoiseRemoveFilterEnableBool, PropertyValue::Bool(value)),
            DeviceProperty::HWNoiseRemoveFilterThreshold(value) => (OBPropertyID::HWNoiseRemoveFilterThresholdFloat, PropertyValue::Float(value)),
            DeviceProperty::DeviceAutoCaptureEnable(value) => (OBPropertyID::DeviceAutoCaptureEnableBool, PropertyValue::Bool(value)),
            DeviceProperty::DeviceAutoCaptureIntervalTime(value) => (OBPropertyID::DeviceAutoCaptureIntervalTimeInt, PropertyValue::Int(value)),
            DeviceProperty::DevicePTPClockSyncEnable(value) => (OBPropertyID::DevicePTPClockSyncEnableBool, PropertyValue::Bool(value)),
            DeviceProperty::DepthWithConfidenceStreamEnable(value) => (OBPropertyID::DepthWithConfidenceStreamEnableBool, PropertyValue::Bool(value)),
            DeviceProperty::ConfidenceStreamFilter(value) => (OBPropertyID::ConfidenceStreamFilterBool, PropertyValue::Bool(value)),
            DeviceProperty::ConfidenceStreamFilterThreshold(value) => (OBPropertyID::ConfidenceStreamFilterThresholdInt, PropertyValue::Int(value)),
            DeviceProperty::ConfidenceMirror(value) => (OBPropertyID::ConfidenceMirrorBool, PropertyValue::Bool(value)),
            DeviceProperty::ConfidenceFlip(value) => (OBPropertyID::ConfidenceFlipBool, PropertyValue::Bool(value)),
            DeviceProperty::ConfidenceRotate(value) => (OBPropertyID::ConfidenceRotateInt, PropertyValue::Int(value)),
            DeviceProperty::ColorAutoExposure(value) => (OBPropertyID::ColorAutoExposureBool, PropertyValue::Bool(value)),
            DeviceProperty::ColorExposure(value) => (OBPropertyID::ColorExposureInt, PropertyValue::Int(value)),
            DeviceProperty::ColorGain(value) => (OBPropertyID::ColorGainInt, PropertyValue::Int(value)),
            DeviceProperty::ColorAutoWhiteBalance(value) => (OBPropertyID::ColorAutoWhiteBalanceBool, PropertyValue::Bool(value)),
            DeviceProperty::ColorWhiteBalance(value) => (OBPropertyID::ColorWhiteBalanceInt, PropertyValue::Int(value)),
            DeviceProperty::ColorBrightness(value) => (OBPropertyID::ColorBrightnessInt, PropertyValue::Int(value)),
            DeviceProperty::ColorSharpness(value) => (OBPropertyID::ColorSharpnessInt, PropertyValue::Int(value)),
            DeviceProperty::ColorShutter(value) => (OBPropertyID::ColorShutterInt, PropertyValue::Int(value)),
            DeviceProperty::ColorSaturation(value) => (OBPropertyID::ColorSaturationInt, PropertyValue::Int(value)),
            DeviceProperty::ColorContrast(value) => (OBPropertyID::ColorContrastInt, PropertyValue::Int(value)),
            DeviceProperty::ColorGamma(value) => (OBPropertyID::ColorGammaInt, PropertyValue::Int(value)),
            DeviceProperty::ColorRoll(value) => (OBPropertyID::ColorRollInt, PropertyValue::Int(value)),
            DeviceProperty::ColorAutoExposurePriority(value) => (OBPropertyID::ColorAutoExposurePriorityInt, PropertyValue::Int(value)),
            DeviceProperty::ColorBacklightCompensation(value) => (OBPropertyID::ColorBacklightCompensationInt, PropertyValue::Int(value)),
            DeviceProperty::ColorHue(value) => (OBPropertyID::ColorHueInt, PropertyValue::Int(value)),
            DeviceProperty::ColorPowerLineFrequency(value) => (OBPropertyID::ColorPowerLineFrequencyInt, PropertyValue::Int(value)),
            DeviceProperty::DepthAutoExposure(value) => (OBPropertyID::DepthAutoExposureBool, PropertyValue::Bool(value)),
            DeviceProperty::DepthExposure(value) => (OBPropertyID::DepthExposureInt, PropertyValue::Int(value)),
            DeviceProperty::DepthGain(value) => (OBPropertyID::DepthGainInt, PropertyValue::Int(value)),
            DeviceProperty::IRAutoExposure(value) => (OBPropertyID::IRAutoExposureBool, PropertyValue::Bool(value)),
            DeviceProperty::IRExposure(value) => (OBPropertyID::IRExposureInt, PropertyValue::Int(value)),
            DeviceProperty::IRGain(value) => (OBPropertyID::IRGainInt, PropertyValue::Int(value)),
            DeviceProperty::IRChannelDataSource(value) => (OBPropertyID::IRChannelDataSourceInt, PropertyValue::Int(value)),
            DeviceProperty::DepthRMFilter(value) => (OBPropertyID::DepthRMFilterBool, PropertyValue::Bool(value)),
            DeviceProperty::ColorMaximalGain(value) => (OBPropertyID::ColorMaximalGainInt, PropertyValue::Int(value)),
            DeviceProperty::ColorMaximalShutter(value) => (OBPropertyID::ColorMaximalShutterInt, PropertyValue::Int(value)),
            DeviceProperty::IRShortExposure(value) => (OBPropertyID::IRShortExposureBool, PropertyValue::Bool(value)),
            DeviceProperty::ColorHDR(value) => (OBPropertyID::ColorHDRBool, PropertyValue::Bool(value)),
            DeviceProperty::IRLongExposure(value) => (OBPropertyID::IRLongExposureBool, PropertyValue::Bool(value)),
            DeviceProperty::SkipFrame(value) => (OBPropertyID::SkipFrameBool, PropertyValue::Bool(value)),
            DeviceProperty::HDRMerge(value) => (OBPropertyID::HDRMergeBool, PropertyValue::Bool(value)),
            DeviceProperty::ColorFocus(value) => (OBPropertyID::ColorFocusInt, PropertyValue::Int(value)),
            DeviceProperty::IRRectify(value) => (OBPropertyID::IRRectifyBool, PropertyValue::Bool(value)),
            DeviceProperty::DepthAutoExposurePriority(value) => (OBPropertyID::DepthAutoExposurePriorityInt, PropertyValue::Int(value)),
            DeviceProperty::SDKDisparityToDepth(value) => (OBPropertyID::SDKDisparityToDepthBool, PropertyValue::Bool(value)),
            DeviceProperty::SDKDepthFrameUnpack(value) => (OBPropertyID::SDKDepthFrameUnpackBool, PropertyValue::Bool(value)),
            DeviceProperty::SDKIRFrameUnpack(value) => (OBPropertyID::SDKIRFrameUnpackBool, PropertyValue::Bool(value)),
            DeviceProperty::SDKAccelFrameTransformed(value) => (OBPropertyID::SDKAccelFrameTransformedBool, PropertyValue::Bool(value)),
            DeviceProperty::SDKGyroFrameTransformed(value) => (OBPropertyID::SDKGyroFrameTransformedBool, PropertyValue::Bool(value)),
            DeviceProperty::SDKIRLeftFrameUnpack(value) => (OBPropertyID::SDKIRLeftFrameUnpackBool, PropertyValue::Bool(value)),
            DeviceProperty::SDKIRRightFrameUnpack(value) => (OBPropertyID::SDKIRRightFrameUnpackBool, PropertyValue::Bool(value)),
            DeviceProperty::NetworkBandwidthType(value) => (OBPropertyID::NetworkBandwidthTypeInt, PropertyValue::Int(value)),
            DeviceProperty::DevicePerformanceMode(value) => (OBPropertyID::DevicePerformanceModeInt, PropertyValue::Int(value)),
            DeviceProperty::RawDataCameraCalibJsonFile(value) => (OBPropertyID::RawDataCameraCalibJsonFile, PropertyValue::Int(value)),
            DeviceProperty::DebugESGMConfidence(value) => (OBPropertyID::DebugESGMConfidenceFloat, PropertyValue::Float(value)),
        }
    }

    /// The kind of value that a property carries is fixed by its identifier.
    pub proof fn lemma_kind_fixed_by_id(property: DeviceProperty)
        ensures
            property.payload().kind() == property.id().kind(),
    {
    }

    /// Two properties with the same identifier and the same value are the same.
    pub proof fn lemma_fixed_by_id_and_payload(a: DeviceProperty, b: DeviceProperty)
        requires
            a.id() == b.id(),
            a.payload() == b.payload(),
        ensures
            a == b,
    {
    }
}

} // verus!
