//! The enumerations of the camera runtime, and the integer codes by which its
//! native interface knows their values.
use vstd::prelude::*;
use vstd::std_specs::convert::FromSpecImpl;

verus! {

/// Sensor Type
#[derive(Debug, Clone, Copy, PartialEq, Eq, Hash, Structural)]
pub enum OBSensorType {
    /// Unknown Sensor
    Unknown,
    /// Infrared Sensor
    Infrared,
    /// Depth Sensor
    Depth,
    /// Color Sensor
    Color,
    /// Accelerometer Sensor
    Accelerometer,
    /// Gyroscope Sensor
    Gyroscope,
    /// Left IR Sensor
    LeftInfrared,
    /// Right IR Sensor
    RightInfrared,
    /// Confidence Sensor
    Confidence,
}

impl OBSensorType {
    /// The integer that stands for this sensor type in the native interface.
    pub open spec fn spec_code(self) -> i32 {
        match self {
            OBSensorType::Unknown => 0i32,
            OBSensorType::Infrared => 1i32,
            OBSensorType::Depth => 3i32,
            OBSensorType::Color => 2i32,
            OBSensorType::Accelerometer => 4i32,
            OBSensorType::Gyroscope => 5i32,
            OBSensorType::LeftInfrared => 6i32,
            OBSensorType::RightInfrared => 7i32,
            OBSensorType::Confidence => 9i32,
        }
    }

    /// The integer that stands for this sensor type in the native interface.
    #[verifier::when_used_as_spec(spec_code)]
    pub fn code(self) -> (r: i32)
        ensures
            r == self.spec_code(),
    {
        match self {
            OBSensorType::Unknown => 0,
            OBSensorType::Infrared => 1,
            OBSensorType::Depth => 3,
            OBSensorType::Color => 2,
            OBSensorType::Accelerometer => 4,
            OBSensorType::Gyroscope => 5,
            OBSensorType::LeftInfrared => 6,
            OBSensorType::RightInfrared => 7,
            OBSensorType::Confidence => 9,
        }
    }

    /// Two values with the same code are the same sensor type.
    pub proof fn lemma_code_injective(a: OBSensorType, b: OBSensorType)
        requires
            a.spec_code() == b.spec_code(),
        ensures
            a == b,
    {
    }
}

/// Pixel Format
#[derive(Debug, Clone, Copy, PartialEq, Eq, Hash, Structural)]
pub enum OBFormat {
    /// Unknown format
    Unknown,
    /// YUYV format
    YUYV,
    /// YUY2 format (the actual format is the same as YUYV)
    YUY2,
    /// UYVY format
    UYVY,
    /// NV12 format
    NV12,
    /// NV21 format
    NV21,
    /// MJPEG encoding format
    MJPG,
    /// H.264 encoding format
    H264,
    /// H.265 encoding format
    H265,
    /// Y16 format, 16-bit per pixel, single-channel
    Y16,
    /// Y8 format, 8-bit per pixel, single-channel
    Y8,
    /// Y10 format, 10-bit per pixel, single-channel (SDK will unpack into Y16 by default)
    Y10,
    /// Y11 format, 11-bit per pixel, single-channel (SDK will unpack into Y16 by default)
    Y11,
    /// Y12 format, 12-bit per pixel, single-channel (SDK will unpack into Y16 by default)
    Y12,
    /// GRAY (the actual format is the same as YUYV)
    Gray,
    /// HEVC encoding format (the actual format is the same as H265)
    HEVC,
    /// I420 format
    I420,
    /// Acceleration data format
    Accel,
    /// Gyroscope data format
    Gyro,
    /// XYZ 3D coordinate point format, @ref OBPoint
    Point,
    /// XYZ 3D coordinate point format with RGB information, @ref OBColorPoint
    RGBPoint,
    /// RLE pressure test format (SDK will be unpacked into Y16 by default)
    RLE,
    /// RGB format (actual RGB888)
    RGB,
    /// BGR format (actual BGR888)
    BGR,
    /// Y14 format, 14-bit per pixel, single-channel (SDK will unpack into Y16 by default)
    Y14,
    /// BGRA format
    BGRA,
    /// Compression format
    Compressed,
    /// RVL pressure test format (SDK will be unpacked into Y16 by default)
    RVL,
    /// Is same as Y16
    Z16,
    /// Is same as Y12, using for right ir stream
    YV12,
    /// Is same as Y8, using for right ir stream
    BA81,
    /// RGBA format
    RGBA,
    /// byr2 format
    BYR2,
    /// RAW16 format
    RW16,
    /// Y12C4 format
    Y12C4,
}

impl OBFormat {
    /// The integer that stands for this pixel format in the native interface.
    pub open spec fn spec_code(self) -> i32 {
        match self {
            OBFormat::Unknown => -1i32,
            OBFormat::YUYV => 0i32,
            OBFormat::YUY2 => 1i32,
            OBFormat::UYVY => 2i32,
            OBFormat::NV12 => 3i32,
            OBFormat::NV21 => 4i32,
            OBFormat::MJPG => 5i32,
            OBFormat::H264 => 6i32,
            OBFormat::H265 => 7i32,
            OBFormat::Y16 => 8i32,
            OBFormat::Y8 => 9i32,
            OBFormat::Y10 => 10i32,
            OBFormat::Y11 => 11i32,
            OBFormat::Y12 => 12i32,
            OBFormat::Gray => 13i32,
            OBFormat::HEVC => 14i32,
            OBFormat::I420 => 15i32,
            OBFormat::Accel => 16i32,
            OBFormat::Gyro => 17i32,
            OBFormat::Point => 19i32,
            OBFormat::RGBPoint => 20i32,
            OBFormat::RLE => 21i32,
            OBFormat::RGB => 22i32,
            OBFormat::BGR => 23i32,
            OBFormat::Y14 => 24i32,
            OBFormat::BGRA => 25i32,
            OBFormat::Compressed => 26i32,
            OBFormat::RVL => 27i32,
            OBFormat::Z16 => 28i32,
            OBFormat::YV12 => 29i32,
            OBFormat::BA81 => 30i32,
            OBFormat::RGBA => 31i32,
            OBFormat::BYR2 => 32i32,
            OBFormat::RW16 => 33i32,
            OBFormat::Y12C4 => 34i32,
        }
    }

    /// The integer that stands for this pixel format in the native interface.
    #[verifier::when_used_as_spec(spec_code)]
    pub fn code(self) -> (r: i32)
        ensures
            r == self.spec_code(),
    {
        match self {
            OBFormat::Unknown => -1,
            OBFormat::YUYV => 0,
            OBFormat::YUY2 => 1,
            OBFormat::UYVY => 2,
            OBFormat::NV12 => 3,
            OBFormat::NV21 => 4,
            OBFormat::MJPG => 5,
            OBFormat::H264 => 6,
            OBFormat::H265 => 7,
            OBFormat::Y16 => 8,
            OBFormat::Y8 => 9,
            OBFormat::Y10 => 10,
            OBFormat::Y11 => 11,
            OBFormat::Y12 => 12,
            OBFormat::Gray => 13,
            OBFormat::HEVC => 14,
            OBFormat::I420 => 15,
            OBFormat::Accel => 16,
            OBFormat::Gyro => 17,
            OBFormat::Point => 19,
            OBFormat::RGBPoint => 20,
            OBFormat::RLE => 21,
            OBFormat::RGB => 22,
            OBFormat::BGR => 23,
            OBFormat::Y14 => 24,
            OBFormat::BGRA => 25,
            OBFormat::Compressed => 26,
            OBFormat::RVL => 27,
            OBFormat::Z16 => 28,
            OBFormat::YV12 => 29,
            OBFormat::BA81 => 30,
            OBFormat::RGBA => 31,
            OBFormat::BYR2 => 32,
            OBFormat::RW16 => 33,
            OBFormat::Y12C4 => 34,
        }
    }

    /// The pixel format that a code of the native interface stands for; a code that
    /// stands for none gives `Unknown`.
    pub open spec fn of_code(code: i32) -> OBFormat {
        if code == 0 {
            OBFormat::YUYV
        } else if code == 1 {
            OBFormat::YUY2
        } else if code == 2 {
            OBFormat::UYVY
        } else if code == 3 {
            OBFormat::NV12
        } else if code == 4 {
            OBFormat::NV21
        } else if code == 5 {
            OBFormat::MJPG
        } else if code == 6 {
            OBFormat::H264
        } else if code == 7 {
            OBFormat::H265
        } else if code == 8 {
            OBFormat::Y16
        } else if code == 9 {
            OBFormat::Y8
        } else if code == 10 {
            OBFormat::Y10
        } else if code == 11 {
            OBFormat::Y11
        } else if code == 12 {
            OBFormat::Y12
        } else if code == 13 {
            OBFormat::Gray
        } else if code == 14 {
            OBFormat::HEVC
        } else if code == 15 {
            OBFormat::I420
        } else if code == 16 {
            OBFormat::Accel
        } else if code == 17 {
            OBFormat::Gyro
        } else if code == 19 {
            OBFormat::Point
        } else if code == 20 {
            OBFormat::RGBPoint
        } else if code == 21 {
            OBFormat::RLE
        } else if code == 22 {
            OBFormat::RGB
        } else if code == 23 {
            OBFormat::BGR
        } else if code == 24 {
            OBFormat::Y14
        } else if code == 25 {
            OBFormat::BGRA
        } else if code == 26 {
            OBFormat::Compressed
        } else if code == 27 {
            OBFormat::RVL
        } else if code == 28 {
            OBFormat::Z16
        } else if code == 29 {
            OBFormat::YV12
        } else if code == 30 {
            OBFormat::BA81
        } else if code == 31 {
            OBFormat::RGBA
        } else if code == 32 {
            OBFormat::BYR2
        } else if code == 33 {
            OBFormat::RW16
        } else if code == 34 {
            OBFormat::Y12C4
        } else {
            OBFormat::Unknown
        }
    }

    /// A code of the native interface stands for at most one pixel format, and each
    /// pixel format is found again from its own code.
    pub proof fn lemma_code_round_trip(value: OBFormat, code: i32)
        ensures
            OBFormat::of_code(value.spec_code()) == value,
            OBFormat::of_code(code).spec_code() == code || OBFormat::of_code(code) == OBFormat::Unknown,
    {
    }
}

impl From<i32> for OBFormat {
    /// The pixel format that a code of the native interface stands for; a code that
    /// stands for none gives `Unknown`.
    fn from(code: i32) -> (r: Self) {
        match code {
            0 => OBFormat::YUYV,
            1 => OBFormat::YUY2,
            2 => OBFormat::UYVY,
            3 => OBFormat::NV12,
            4 => OBFormat::NV21,
            5 => OBFormat::MJPG,
            6 => OBFormat::H264,
            7 => OBFormat::H265,
            8 => OBFormat::Y16,
            9 => OBFormat::Y8,
            10 => OBFormat::Y10,
            11 => OBFormat::Y11,
            12 => OBFormat::Y12,
            13 => OBFormat::Gray,
            14 => OBFormat::HEVC,
            15 => OBFormat::I420,
            16 => OBFormat::Accel,
            17 => OBFormat::Gyro,
            19 => OBFormat::Point,
            20 => OBFormat::RGBPoint,
            21 => OBFormat::RLE,
            22 => OBFormat::RGB,
            23 => OBFormat::BGR,
            24 => OBFormat::Y14,
            25 => OBFormat::BGRA,
            26 => OBFormat::Compressed,
            27 => OBFormat::RVL,
            28 => OBFormat::Z16,
            29 => OBFormat::YV12,
            30 => OBFormat::BA81,
            31 => OBFormat::RGBA,
            32 => OBFormat::BYR2,
            33 => OBFormat::RW16,
            34 => OBFormat::Y12C4,
            _ => OBFormat::Unknown,
        }
    }
}

impl FromSpecImpl<i32> for OBFormat {
    open spec fn obeys_from_spec() -> bool {
        true
    }

    open spec fn from_spec(code: i32) -> Self {
        OBFormat::of_code(code)
    }
}

/// Property ID
#[derive(Debug, Clone, Copy, PartialEq, Eq, Hash, Structural)]
pub enum OBPropertyID {
    /// LDP switch
    LDPBool,
    /// Laser switch
    LaserBool,
    /// Laser pulse width
    LaserPulseWidthInt,
    /// Laser current (unit: mA)
    LaserCurrentFloat,
    /// IR flood switch
    FloodBool,
    /// IR flood level
    FloodLevelInt,
    /// Enable/disable temperature compensation
    TemperatureCompensationBool,
    /// Depth mirror
    DepthMirrorBool,
    /// Depth flip
    DepthFlipBool,
    /// Depth Postfilter
    DepthPostfilterBool,
    /// Depth Holefilter
    DepthHolefilterBool,
    /// IR mirror
    IRMirrorBool,
    /// IR flip
    IRFlipBool,
    /// Minimum depth threshold
    MinDepthInt,
    /// Maximum depth threshold
    MaxDepthInt,
    /// Software filter switch
    DepthNoiseRemovalFilterBool,
    /// LDP status
    LDPStatusBool,
    /// Maxdiff for depth noise removal filter
    DepthNoiseRemovalFilterMaxDiffInt,
    /// MaxSpeckleSize for depth noise removal filter
    DepthNoiseRemovalFilterMaxSpeckleSizeInt,
    /// Hardware d2c is on
    DepthAlignHardwareBool,
    /// Timestamp adjustment
    TimestampOffsetInt,
    /// Hardware distortion switch Rectify
    HardwareDistortionSwitchBool,
    /// Fan mode switch
    FanWorkModeInt,
    /// Multi-resolution D2C mode
    DepthAlignHardwareModeInt,
    /// Anti-collusion activation status
    AntiCollusionActivationStatusBool,
    /// Depth precision level
    DepthPrecisionLevelInt,
    /// TOF filter range configuration
    TofFilterRangeInt,
    /// Laser mode
    LaserModeInt,
    /// brt2r-rectify function switch
    Rectify2Bool,
    /// Color mirror
    ColorMirrorBool,
    /// Color flip
    ColorFlipBool,
    /// Indicator switch
    IndicatorLightBool,
    /// Disparity to depth switch
    DisparityToDepthBool,
    /// BRT function switch
    BRTBool,
    /// Watchdog function switch
    WatchdogBool,
    /// External signal trigger restart function switch
    ExternalSignalResetBool,
    /// Heartbeat monitoring function switch
    HeartbeatBool,
    /// Depth cropping mode device
    DepthCroppingModeInt,
    /// D2C preprocessing switch
    D2CPreprocessBool,
    /// Enable/disable GPM function
    GPMBool,
    /// Custom RGB cropping switch
    RGBCustomCropBool,
    /// Device operating mode (power consumption)
    DeviceWorkModeInt,
    /// Device communication type
    DeviceCommunicationTypeInt,
    /// Switch infrared imaging mode
    SwitchIRModeInt,
    /// Laser power level
    LaserPowerLevelControlInt,
    /// LDP's measure distance
    LDPMeasureDistanceInt,
    /// Reset device time to zero
    TimerResetSignalBool,
    /// Enable send reset device time signal to other device
    TimerResetTriggerOutEnableBool,
    /// Delay to reset device time
    TimerResetDelayUsInt,
    /// Signal to capture image
    CaptureImageSignalBool,
    /// Right IR sensor mirror state
    IRRightMirrorBool,
    /// Number frame to capture once a 'OB_PROP_CAPTURE_IMAGE_SIGNAL_BOOL' effect
    CaptureImageFrameNumberInt,
    /// Right IR sensor flip state
    IRRightFlipBool,
    /// Color sensor rotation
    ColorRotateInt,
    /// IR/Left-IR sensor rotation
    IRRotateInt,
    /// Right IR sensor rotation
    IRRightRotateInt,
    /// Depth sensor rotation
    DepthRotateInt,
    /// Get hardware laser power actual level
    LaserPowerActualLevelInt,
    /// USB's power state
    USBPowerStateInt,
    /// DC's power state
    DCPowerStateInt,
    /// Device development mode switch
    DeviceDevelopmentModeInt,
    /// Multi-DeviceSync synchronized signal trigger out is enable state
    SyncSignalTriggerOutBool,
    /// Restore factory settings and factory parameters
    RestoreFactorySettingsBool,
    /// Enter recovery mode when boot the device
    BootIntoRecoveryModeBool,
    /// Query whether the current device is running in recovery mode
    DeviceInRecoveryModeBool,
    /// Capture interval mode
    CaptureIntervalModeInt,
    /// Capture time interval
    CaptureImageTimeIntervalInt,
    /// Capture number interval
    CaptureImageNumberIntervalInt,
    /// Timer reset enable
    TimerResetEnableBool,
    /// Enable or disable the device to retry USB2.0 re-identification
    DeviceUSB2RepeatIdentifyBool,
    /// Reboot device delay mode
    DeviceRebootDelayInt,
    /// Query the status of laser overcurrent protection
    LaserOvercurrentProtectionStatusBool,
    /// Query the status of laser pulse width protection
    LaserPulseWidthProtectionStatusBool,
    /// Laser always on
    LaserAlwaysOnBool,
    /// Laser on/off alternate mode
    LaserOnOffPatternInt,
    /// Depth unit flexible adjustment
    DepthUnitFlexibleAdjustmentFloat,
    /// Laser control
    LaserControlInt,
    /// IR brightness
    IRBrightnessInt,
    /// Slave/secondary device synchronization status
    SlaveDeviceSyncStatusBool,
    /// Color AE max exposure
    ColorAEMaxExposureInt,
    /// Max exposure time of IR auto exposure
    IRAEMaxExposureInt,
    /// Disparity search range mode
    DispSearchRangeModeInt,
    /// Laser high temperature protection
    LaserHighTemperatureProtectBool,
    /// Low exposure laser control
    LowExposureLaserControlBool,
    /// Check pps sync in signal
    CheckPPSSyncInSignalBool,
    /// Disparity search range offset
    DispSearchOffsetInt,
    /// Repower device
    DeviceRepowerBool,
    /// Frame interleave config index
    FrameInterleaveConfigIndexInt,
    /// Frame interleave enable
    FrameInterleaveEnableBool,
    /// Laser pattern sync with delay
    FrameInterleaveLaserPatternSyncDelayInt,
    /// Get the health check result from device
    OnChipCalibrationHealthCheckFloat,
    /// Enable or disable on-chip calibration
    OnChipCalibrationEnableBool,
    /// Hardware noise remove filter switch
    HWNoiseRemoveFilterEnableBool,
    /// Hardware noise remove filter threshold
    HWNoiseRemoveFilterThresholdFloat,
    /// Soft trigger auto capture enable
    DeviceAutoCaptureEnableBool,
    /// Soft trigger auto capture interval time
    DeviceAutoCaptureIntervalTimeInt,
    /// PTP time synchronization enable
    DevicePTPClockSyncEnableBool,
    /// Depth with confidence stream enable
    DepthWithConfidenceStreamEnableBool,
    /// Enable or disable confidence stream filter
    ConfidenceStreamFilterBool,
    /// Confidence stream filter threshold
    ConfidenceStreamFilterThresholdInt,
    /// Confidence stream mirror enable
    ConfidenceMirrorBool,
    /// Confidence stream flip enable
    ConfidenceFlipBool,
    /// Confidence stream rotate
    ConfidenceRotateInt,
    /// Color camera auto exposure
    ColorAutoExposureBool,
    /// Color camera exposure adjustment
    ColorExposureInt,
    /// Color camera gain adjustment
    ColorGainInt,
    /// Color camera automatic white balance
    ColorAutoWhiteBalanceBool,
    /// Color camera white balance adjustment
    ColorWhiteBalanceInt,
    /// Color camera brightness adjustment
    ColorBrightnessInt,
    /// Color camera sharpness adjustment
    ColorSharpnessInt,
    /// Color camera shutter adjustment
    ColorShutterInt,
    /// Color camera saturation adjustment
    ColorSaturationInt,
    /// Color camera contrast adjustment
    ColorContrastInt,
    /// Color camera gamma adjustment
    ColorGammaInt,
    /// Color camera image rotation
    ColorRollInt,
    /// Color camera auto exposure priority
    ColorAutoExposurePriorityInt,
    /// Color camera brightness compensation
    ColorBacklightCompensationInt,
    /// Color camera color tint
    ColorHueInt,
    /// Color Camera Power Line Frequency
    ColorPowerLineFrequencyInt,
    /// Automatic exposure of depth camera
    DepthAutoExposureBool,
    /// Depth camera exposure adjustment
    DepthExposureInt,
    /// Depth camera gain adjustment
    DepthGainInt,
    /// Infrared camera auto exposure
    IRAutoExposureBool,
    /// Infrared camera exposure adjustment
    IRExposureInt,
    /// Infrared camera gain adjustment
    IRGainInt,
    /// Select Infrared camera data source channel
    IRChannelDataSourceInt,
    /// Depth effect dedistortion
    DepthRMFilterBool,
    /// Color camera maximal gain
    ColorMaximalGainInt,
    /// Color camera shutter gain
    ColorMaximalShutterInt,
    /// Enable/disable IR short exposure function
    IRShortExposureBool,
    /// Color camera HDR
    ColorHDRBool,
    /// IR long exposure mode switch
    IRLongExposureBool,
    /// Setting and getting the USB device frame skipping mode status
    SkipFrameBool,
    /// Depth HDR merge
    HDRMergeBool,
    /// Color camera FOCUS
    ColorFocusInt,
    /// IR rectify status
    IRRectifyBool,
    /// Depth camera priority
    DepthAutoExposurePriorityInt,
    /// Software disparity to depth
    SDKDisparityToDepthBool,
    /// Depth data unpacking function switch
    SDKDepthFrameUnpackBool,
    /// IR data unpacking function switch
    SDKIRFrameUnpackBool,
    /// Accel data conversion function switch
    SDKAccelFrameTransformedBool,
    /// Gyro data conversion function switch
    SDKGyroFrameTransformedBool,
    /// Left IR frame data unpacking function switch
    SDKIRLeftFrameUnpackBool,
    /// Right IR frame data unpacking function switch
    SDKIRRightFrameUnpackBool,
    /// Read the current network bandwidth type of the network device
    NetworkBandwidthTypeInt,
    /// Switch device performance mode
    DevicePerformanceModeInt,
    /// Calibration JSON file read from device
    RawDataCameraCalibJsonFile,
    /// Confidence degree
    DebugESGMConfidenceFloat,
}

impl OBPropertyID {
    /// The integer that stands for this property in the native interface.
    pub open spec fn spec_code(self) -> i32 {
        match self {
            OBPropertyID::LDPBool => 2i32,
            OBPropertyID::LaserBool => 3i32,
            OBPropertyID::LaserPulseWidthInt => 4i32,
            OBPropertyID::LaserCurrentFloat => 5i32,
            OBPropertyID::FloodBool => 6i32,
            OBPropertyID::FloodLevelInt => 7i32,
            OBPropertyID::TemperatureCompensationBool => 8i32,
            OBPropertyID::DepthMirrorBool => 14i32,
            OBPropertyID::DepthFlipBool => 15i32,
            OBPropertyID::DepthPostfilterBool => 16i32,
            OBPropertyID::DepthHolefilterBool => 17i32,
            OBPropertyID::IRMirrorBool => 18i32,
            OBPropertyID::IRFlipBool => 19i32,
            OBPropertyID::MinDepthInt => 22i32,
            OBPropertyID::MaxDepthInt => 23i32,
            OBPropertyID::DepthNoiseRemovalFilterBool => 24i32,
            OBPropertyID::LDPStatusBool => 32i32,
            OBPropertyID::DepthNoiseRemovalFilterMaxDiffInt => 40i32,
            OBPropertyID::DepthNoiseRemovalFilterMaxSpeckleSizeInt => 41i32,
            OBPropertyID::DepthAlignHardwareBool => 42i32,
            OBPropertyID::TimestampOffsetInt => 43i32,
            OBPropertyID::HardwareDistortionSwitchBool => 61i32,
            OBPropertyID::FanWorkModeInt => 62i32,
            OBPropertyID::DepthAlignHardwareModeInt => 63i32,
            OBPropertyID::AntiCollusionActivationStatusBool => 64i32,
            OBPropertyID::DepthPrecisionLevelInt => 75i32,
            OBPropertyID::TofFilterRangeInt => 76i32,
            OBPropertyID::LaserModeInt => 79i32,
            OBPropertyID::Rectify2Bool => 80i32,
            OBPropertyID::ColorMirrorBool => 81i32,
            OBPropertyID::ColorFlipBool => 82i32,
            OBPropertyID::IndicatorLightBool => 83i32,
            OBPropertyID::DisparityToDepthBool => 85i32,
            OBPropertyID::BRTBool => 86i32,
            OBPropertyID::WatchdogBool => 87i32,
            OBPropertyID::ExternalSignalResetBool => 88i32,
            OBPropertyID::HeartbeatBool => 89i32,
            OBPropertyID::DepthCroppingModeInt => 90i32,
            OBPropertyID::D2CPreprocessBool => 91i32,
            OBPropertyID::GPMBool => 93i32,
            OBPropertyID::RGBCustomCropBool => 94i32,
            OBPropertyID::DeviceWorkModeInt => 95i32,
            OBPropertyID::DeviceCommunicationTypeInt => 97i32,
            OBPropertyID::SwitchIRModeInt => 98i32,
            OBPropertyID::LaserPowerLevelControlInt => 99i32,
            OBPropertyID::LDPMeasureDistanceInt => 100i32,
            OBPropertyID::TimerResetSignalBool => 104i32,
            OBPropertyID::TimerResetTriggerOutEnableBool => 105i32,
            OBPropertyID::TimerResetDelayUsInt => 106i32,
            OBPropertyID::CaptureImageSignalBool => 107i32,
            OBPropertyID::IRRightMirrorBool => 112i32,
            OBPropertyID::CaptureImageFrameNumberInt => 113i32,
            OBPropertyID::IRRightFlipBool => 114i32,
            OBPropertyID::ColorRotateInt => 115i32,
            OBPropertyID::IRRotateInt => 116i32,
            OBPropertyID::IRRightRotateInt => 117i32,
            OBPropertyID::DepthRotateInt => 118i32,
            OBPropertyID::LaserPowerActualLevelInt => 119i32,
            OBPropertyID::USBPowerStateInt => 121i32,
            OBPropertyID::DCPowerStateInt => 122i32,
            OBPropertyID::DeviceDevelopmentModeInt => 129i32,
            OBPropertyID::SyncSignalTriggerOutBool => 130i32,
            OBPropertyID::RestoreFactorySettingsBool => 131i32,
            OBPropertyID::BootIntoRecoveryModeBool => 132i32,
            OBPropertyID::DeviceInRecoveryModeBool => 133i32,
            OBPropertyID::CaptureIntervalModeInt => 134i32,
            OBPropertyID::CaptureImageTimeIntervalInt => 135i32,
            OBPropertyID::CaptureImageNumberIntervalInt => 136i32,
            OBPropertyID::TimerResetEnableBool => 140i32,
            OBPropertyID::DeviceUSB2RepeatIdentifyBool => 141i32,
            OBPropertyID::DeviceRebootDelayInt => 142i32,
            OBPropertyID::LaserOvercurrentProtectionStatusBool => 148i32,
            OBPropertyID::LaserPulseWidthProtectionStatusBool => 149i32,
            OBPropertyID::LaserAlwaysOnBool => 174i32,
            OBPropertyID::LaserOnOffPatternInt => 175i32,
            OBPropertyID::DepthUnitFlexibleAdjustmentFloat => 176i32,
            OBPropertyID::LaserControlInt => 182i32,
            OBPropertyID::IRBrightnessInt => 184i32,
            OBPropertyID::SlaveDeviceSyncStatusBool => 188i32,
            OBPropertyID::ColorAEMaxExposureInt => 189i32,
            OBPropertyID::IRAEMaxExposureInt => 190i32,
            OBPropertyID::DispSearchRangeModeInt => 191i32,
            OBPropertyID::LaserHighTemperatureProtectBool => 193i32,
            OBPropertyID::LowExposureLaserControlBool => 194i32,
            OBPropertyID::CheckPPSSyncInSignalBool => 195i32,
            OBPropertyID::DispSearchOffsetInt => 196i32,
            OBPropertyID::DeviceRepowerBool => 202i32,
            OBPropertyID::FrameInterleaveConfigIndexInt => 204i32,
            OBPropertyID::FrameInterleaveEnableBool => 205i32,
            OBPropertyID::FrameInterleaveLaserPatternSyncDelayInt => 206i32,
            OBPropertyID::OnChipCalibrationHealthCheckFloat => 209i32,
            OBPropertyID::OnChipCalibrationEnableBool => 210i32,
            OBPropertyID::HWNoiseRemoveFilterEnableBool => 211i32,
            OBPropertyID::HWNoiseRemoveFilterThresholdFloat => 212i32,
            OBPropertyID::DeviceAutoCaptureEnableBool => 216i32,
            OBPropertyID::DeviceAutoCaptureIntervalTimeInt => 217i32,
            OBPropertyID::DevicePTPClockSyncEnableBool => 223i32,
            OBPropertyID::DepthWithConfidenceStreamEnableBool => 224i32,
            OBPropertyID::ConfidenceStreamFilterBool => 226i32,
            OBPropertyID::ConfidenceStreamFilterThresholdInt => 227i32,
            OBPropertyID::ConfidenceMirrorBool => 229i32,
            OBPropertyID::ConfidenceFlipBool => 230i32,
            OBPropertyID::ConfidenceRotateInt => 231i32,
            OBPropertyID::ColorAutoExposureBool => 2000i32,
            OBPropertyID::ColorExposureInt => 2001i32,
            OBPropertyID::ColorGainInt => 2002i32,
            OBPropertyID::ColorAutoWhiteBalanceBool => 2003i32,
            OBPropertyID::ColorWhiteBalanceInt => 2004i32,
            OBPropertyID::ColorBrightnessInt => 2005i32,
            OBPropertyID::ColorSharpnessInt => 2006i32,
            OBPropertyID::ColorShutterInt => 2007i32,
            OBPropertyID::ColorSaturationInt => 2008i32,
            OBPropertyID::ColorContrastInt => 2009i32,
            OBPropertyID::ColorGammaInt => 2010i32,
            OBPropertyID::ColorRollInt => 2011i32,
            OBPropertyID::ColorAutoExposurePriorityInt => 2012i32,
            OBPropertyID::ColorBacklightCompensationInt => 2013i32,
            OBPropertyID::ColorHueInt => 2014i32,
            OBPropertyID::ColorPowerLineFrequencyInt => 2015i32,
            OBPropertyID::DepthAutoExposureBool => 2016i32,
            OBPropertyID::DepthExposureInt => 2017i32,
            OBPropertyID::DepthGainInt => 2018i32,
            OBPropertyID::IRAutoExposureBool => 2025i32,
            OBPropertyID::IRExposureInt => 2026i32,
            OBPropertyID::IRGainInt => 2027i32,
            OBPropertyID::IRChannelDataSourceInt => 2028i32,
            OBPropertyID::DepthRMFilterBool => 2029i32,
            OBPropertyID::ColorMaximalGainInt => 2030i32,
            OBPropertyID::ColorMaximalShutterInt => 2031i32,
            OBPropertyID::IRShortExposureBool => 2032i32,
            OBPropertyID::ColorHDRBool => 2034i32,
            OBPropertyID::IRLongExposureBool => 2035i32,
            OBPropertyID::SkipFrameBool => 2036i32,
            OBPropertyID::HDRMergeBool => 2037i32,
            OBPropertyID::ColorFocusInt => 2038i32,
            OBPropertyID::IRRectifyBool => 2040i32,
            OBPropertyID::DepthAutoExposurePriorityInt => 2052i32,
            OBPropertyID::SDKDisparityToDepthBool => 3004i32,
            OBPropertyID::SDKDepthFrameUnpackBool => 3007i32,
            OBPropertyID::SDKIRFrameUnpackBool => 3008i32,
            OBPropertyID::SDKAccelFrameTransformedBool => 3009i32,
            OBPropertyID::SDKGyroFrameTransformedBool => 3010i32,
            OBPropertyID::SDKIRLeftFrameUnpackBool => 3011i32,
            OBPropertyID::SDKIRRightFrameUnpackBool => 3012i32,
            OBPropertyID::NetworkBandwidthTypeInt => 3027i32,
            OBPropertyID::DevicePerformanceModeInt => 3028i32,
            OBPropertyID::RawDataCameraCalibJsonFile => 4029i32,
            OBPropertyID::DebugESGMConfidenceFloat => 5013i32,
        }
    }

    /// The integer that stands for this property in the native interface.
    #[verifier::when_used_as_spec(spec_code)]
    pub fn code(self) -> (r: i32)
        ensures
            r == self.spec_code(),
    {
        match self {
            OBPropertyID::LDPBool => 2,
            OBPropertyID::LaserBool => 3,
            OBPropertyID::LaserPulseWidthInt => 4,
            OBPropertyID::LaserCurrentFloat => 5,
            OBPropertyID::FloodBool => 6,
            OBPropertyID::FloodLevelInt => 7,
            OBPropertyID::TemperatureCompensationBool => 8,
            OBPropertyID::DepthMirrorBool => 14,
            OBPropertyID::DepthFlipBool => 15,
            OBPropertyID::DepthPostfilterBool => 16,
            OBPropertyID::DepthHolefilterBool => 17,
            OBPropertyID::IRMirrorBool => 18,
            OBPropertyID::IRFlipBool => 19,
            OBPropertyID::MinDepthInt => 22,
            OBPropertyID::MaxDepthInt => 23,
            OBPropertyID::DepthNoiseRemovalFilterBool => 24,
            OBPropertyID::LDPStatusBool => 32,
            OBPropertyID::DepthNoiseRemovalFilterMaxDiffInt => 40,
            OBPropertyID::DepthNoiseRemovalFilterMaxSpeckleSizeInt => 41,
            OBPropertyID::DepthAlignHardwareBool => 42,
            OBPropertyID::TimestampOffsetInt => 43,
            OBPropertyID::HardwareDistortionSwitchBool => 61,
            OBPropertyID::FanWorkModeInt => 62,
            OBPropertyID::DepthAlignHardwareModeInt => 63,
            OBPropertyID::AntiCollusionActivationStatusBool => 64,
            OBPropertyID::DepthPrecisionLevelInt => 75,
            OBPropertyID::TofFilterRangeInt => 76,
            OBPropertyID::LaserModeInt => 79,
            OBPropertyID::Rectify2Bool => 80,
            OBPropertyID::ColorMirrorBool => 81,
            OBPropertyID::ColorFlipBool => 82,
            OBPropertyID::IndicatorLightBool => 83,
            OBPropertyID::DisparityToDepthBool => 85,
            OBPropertyID::BRTBool => 86,
            OBPropertyID::WatchdogBool => 87,
            OBPropertyID::ExternalSignalResetBool => 88,
            OBPropertyID::HeartbeatBool => 89,
            OBPropertyID::DepthCroppingModeInt => 90,
            OBPropertyID::D2CPreprocessBool => 91,
            OBPropertyID::GPMBool => 93,
            OBPropertyID::RGBCustomCropBool => 94,
            OBPropertyID::DeviceWorkModeInt => 95,
            OBPropertyID::DeviceCommunicationTypeInt => 97,
            OBPropertyID::SwitchIRModeInt => 98,
            OBPropertyID::LaserPowerLevelControlInt => 99,
            OBPropertyID::LDPMeasureDistanceInt => 100,
            OBPropertyID::TimerResetSignalBool => 104,
            OBPropertyID::TimerResetTriggerOutEnableBool => 105,
            OBPropertyID::TimerResetDelayUsInt => 106,
            OBPropertyID::CaptureImageSignalBool => 107,
            OBPropertyID::IRRightMirrorBool => 112,
            OBPropertyID::CaptureImageFrameNumberInt => 113,
            OBPropertyID::IRRightFlipBool => 114,
            OBPropertyID::ColorRotateInt => 115,
            OBPropertyID::IRRotateInt => 116,
            OBPropertyID::IRRightRotateInt => 117,
            OBPropertyID::DepthRotateInt => 118,
            OBPropertyID::LaserPowerActualLevelInt => 119,
            OBPropertyID::USBPowerStateInt => 121,
            OBPropertyID::DCPowerStateInt => 122,
            OBPropertyID::DeviceDevelopmentModeInt => 129,
            OBPropertyID::SyncSignalTriggerOutBool => 130,
            OBPropertyID::RestoreFactorySettingsBool => 131,
            OBPropertyID::BootIntoRecoveryModeBool => 132,
            OBPropertyID::DeviceInRecoveryModeBool => 133,
            OBPropertyID::CaptureIntervalModeInt => 134,
            OBPropertyID::CaptureImageTimeIntervalInt => 135,
            OBPropertyID::CaptureImageNumberIntervalInt => 136,
            OBPropertyID::TimerResetEnableBool => 140,
            OBPropertyID::DeviceUSB2RepeatIdentifyBool => 141,
            OBPropertyID::DeviceRebootDelayInt => 142,
            OBPropertyID::LaserOvercurrentProtectionStatusBool => 148,
            OBPropertyID::LaserPulseWidthProtectionStatusBool => 149,
            OBPropertyID::LaserAlwaysOnBool => 174,
            OBPropertyID::LaserOnOffPatternInt => 175,
            OBPropertyID::DepthUnitFlexibleAdjustmentFloat => 176,
            OBPropertyID::LaserControlInt => 182,
            OBPropertyID::IRBrightnessInt => 184,
            OBPropertyID::SlaveDeviceSyncStatusBool => 188,
            OBPropertyID::ColorAEMaxExposureInt => 189,
            OBPropertyID::IRAEMaxExposureInt => 190,
            OBPropertyID::DispSearchRangeModeInt => 191,
            OBPropertyID::LaserHighTemperatureProtectBool => 193,
            OBPropertyID::LowExposureLaserControlBool => 194,
            OBPropertyID::CheckPPSSyncInSignalBool => 195,
            OBPropertyID::DispSearchOffsetInt => 196,
            OBPropertyID::DeviceRepowerBool => 202,
            OBPropertyID::FrameInterleaveConfigIndexInt => 204,
            OBPropertyID::FrameInterleaveEnableBool => 205,
            OBPropertyID::FrameInterleaveLaserPatternSyncDelayInt => 206,
            OBPropertyID::OnChipCalibrationHealthCheckFloat => 209,
            OBPropertyID::OnChipCalibrationEnableBool => 210,
            OBPropertyID::HWNoiseRemoveFilterEnableBool => 211,
            OBPropertyID::HWNoiseRemoveFilterThresholdFloat => 212,
            OBPropertyID::DeviceAutoCaptureEnableBool => 216,
            OBPropertyID::DeviceAutoCaptureIntervalTimeInt => 217,
            OBPropertyID::DevicePTPClockSyncEnableBool => 223,
            OBPropertyID::DepthWithConfidenceStreamEnableBool => 224,
            OBPropertyID::ConfidenceStreamFilterBool => 226,
            OBPropertyID::ConfidenceStreamFilterThresholdInt => 227,
            OBPropertyID::ConfidenceMirrorBool => 229,
            OBPropertyID::ConfidenceFlipBool => 230,
            OBPropertyID::ConfidenceRotateInt => 231,
            OBPropertyID::ColorAutoExposureBool => 2000,
            OBPropertyID::ColorExposureInt => 2001,
            OBPropertyID::ColorGainInt => 2002,
            OBPropertyID::ColorAutoWhiteBalanceBool => 2003,
            OBPropertyID::ColorWhiteBalanceInt => 2004,
            OBPropertyID::ColorBrightnessInt => 2005,
            OBPropertyID::ColorSharpnessInt => 2006,
            OBPropertyID::ColorShutterInt => 2007,
            OBPropertyID::ColorSaturationInt => 2008,
            OBPropertyID::ColorContrastInt => 2009,
            OBPropertyID::ColorGammaInt => 2010,
            OBPropertyID::ColorRollInt => 2011,
            OBPropertyID::ColorAutoExposurePriorityInt => 2012,
            OBPropertyID::ColorBacklightCompensationInt => 2013,
            OBPropertyID::ColorHueInt => 2014,
            OBPropertyID::ColorPowerLineFrequencyInt => 2015,
            OBPropertyID::DepthAutoExposureBool => 2016,
            OBPropertyID::DepthExposureInt => 2017,
            OBPropertyID::DepthGainInt => 2018,
            OBPropertyID::IRAutoExposureBool => 2025,
            OBPropertyID::IRExposureInt => 2026,
            OBPropertyID::IRGainInt => 2027,
            OBPropertyID::IRChannelDataSourceInt => 2028,
            OBPropertyID::DepthRMFilterBool => 2029,
            OBPropertyID::ColorMaximalGainInt => 2030,
            OBPropertyID::ColorMaximalShutterInt => 2031,
            OBPropertyID::IRShortExposureBool => 2032,
            OBPropertyID::ColorHDRBool => 2034,
            OBPropertyID::IRLongExposureBool => 2035,
            OBPropertyID::SkipFrameBool => 2036,
            OBPropertyID::HDRMergeBool => 2037,
            OBPropertyID::ColorFocusInt => 2038,
            OBPropertyID::IRRectifyBool => 2040,
            OBPropertyID::DepthAutoExposurePriorityInt => 2052,
            OBPropertyID::SDKDisparityToDepthBool => 3004,
            OBPropertyID::SDKDepthFrameUnpackBool => 3007,
            OBPropertyID::SDKIRFrameUnpackBool => 3008,
            OBPropertyID::SDKAccelFrameTransformedBool => 3009,
            OBPropertyID::SDKGyroFrameTransformedBool => 3010,
            OBPropertyID::SDKIRLeftFrameUnpackBool => 3011,
            OBPropertyID::SDKIRRightFrameUnpackBool => 3012,
            OBPropertyID::NetworkBandwidthTypeInt => 3027,
            OBPropertyID::DevicePerformanceModeInt => 3028,
            OBPropertyID::RawDataCameraCalibJsonFile => 4029,
            OBPropertyID::DebugESGMConfidenceFloat => 5013,
        }
    }

    /// Two values with the same code are the same property.
    pub proof fn lemma_code_injective(a: OBPropertyID, b: OBPropertyID)
        requires
            a.spec_code() == b.spec_code(),
        ensures
            a == b,
    {
    }
}

/// Filter configuration value type
#[derive(Debug, Clone, Copy, PartialEq, Eq, Hash, Structural)]
pub enum OBFilterConfigValueType {
    /// Invalid Type
    Invalid,
    /// Integer Type
    Int,
    /// Float Type
    Float,
    /// Boolean Type
    Bool,
}

impl OBFilterConfigValueType {
    /// The integer that stands for this value type in the native interface.
    pub open spec fn spec_code(self) -> i32 {
        match self {
            OBFilterConfigValueType::Invalid => -1i32,
            OBFilterConfigValueType::Int => 0i32,
            OBFilterConfigValueType::Float => 1i32,
            OBFilterConfigValueType::Bool => 2i32,
        }
    }

    /// The integer that stands for this value type in the native interface.
    #[verifier::when_used_as_spec(spec_code)]
    pub fn code(self) -> (r: i32)
        ensures
            r == self.spec_code(),
    {
        match self {
            OBFilterConfigValueType::Invalid => -1,
            OBFilterConfigValueType::Int => 0,
            OBFilterConfigValueType::Float => 1,
            OBFilterConfigValueType::Bool => 2,
        }
    }

    /// The value type that a code of the native interface stands for; a code that
    /// stands for none gives `Invalid`.
    pub open spec fn of_code(code: i32) -> OBFilterConfigValueType {
        if code == 0 {
            OBFilterConfigValueType::Int
        } else if code == 1 {
            OBFilterConfigValueType::Float
        } else if code == 2 {
            OBFilterConfigValueType::Bool
        } else {
            OBFilterConfigValueType::Invalid
        }
    }

    /// A code of the native interface stands for at most one value type, and each
    /// value type is found again from its own code.
    pub proof fn lemma_code_round_trip(value: OBFilterConfigValueType, code: i32)
        ensures
            OBFilterConfigValueType::of_code(value.spec_code()) == value,
            OBFilterConfigValueType::of_code(code).spec_code() == code || OBFilterConfigValueType::of_code(code) == OBFilterConfigValueType::Invalid,
    {
    }
}

impl From<i32> for OBFilterConfigValueType {
    /// The value type that a code of the native interface stands for; a code that
    /// stands for none gives `Invalid`.
    fn from(code: i32) -> (r: Self) {
        match code {
            0 => OBFilterConfigValueType::Int,
            1 => OBFilterConfigValueType::Float,
            2 => OBFilterConfigValueType::Bool,
            _ => OBFilterConfigValueType::Invalid,
        }
    }
}

impl FromSpecImpl<i32> for OBFilterConfigValueType {
    open spec fn obeys_from_spec() -> bool {
        true
    }

    open spec fn from_spec(code: i32) -> Self {
        OBFilterConfigValueType::of_code(code)
    }
}

/// Format conversion types
#[derive(Debug, Clone, Copy, PartialEq, Eq, Hash, Structural)]
pub enum OBConvertFormat {
    /// YUYV to RGB
    YUYVToRGB,
    /// I420 to RGB
    I420ToRGB,
    /// NV21 to RGB
    NV21ToRGB,
    /// NV12 to RGB
    NV12ToRGB,
    /// MJPG to I420
    MJPGToI420,
    /// RGB to BGR
    RGBToBGR,
    /// MJPG to NV21
    MJPGToNV21,
    /// MJPG to RGB
    MJPGToRGB,
    /// MJPG to BGR
    MJPGToBGR,
    /// MJPG to BGRA
    MJPGToBGRA,
    /// UYVY to RGB
    UYVYToRGB,
    /// BGR to RGB
    BGRToRGB,
    /// MJPG to NV12
    MJPGToNV12,
    /// YUYV to BGR
    YUYVToBGR,
    /// YUYV to RGBA
    YUYVToRGBA,
    /// YUYV to BGRA
    YUYVToBGRA,
    /// YUYV to Y16
    YUYVToY16,
    /// YUYV to Y8
    YUYVToY8,
    /// RGBA to RGB
    RGBAToRGB,
    /// BGRA to BGR
    BGRAToBGR,
    /// Y16 to RGB
    Y16ToRGB,
    /// Y8 to RGB
    Y8ToRGB,
}

impl OBConvertFormat {
    /// The integer that stands for this conversion in the native interface.
    pub open spec fn spec_code(self) -> i32 {
        match self {
            OBConvertFormat::YUYVToRGB => 0i32,
            OBConvertFormat::I420ToRGB => 1i32,
            OBConvertFormat::NV21ToRGB => 2i32,
            OBConvertFormat::NV12ToRGB => 3i32,
            OBConvertFormat::MJPGToI420 => 4i32,
            OBConvertFormat::RGBToBGR => 5i32,
            OBConvertFormat::MJPGToNV21 => 6i32,
            OBConvertFormat::MJPGToRGB => 7i32,
            OBConvertFormat::MJPGToBGR => 8i32,
            OBConvertFormat::MJPGToBGRA => 9i32,
            OBConvertFormat::UYVYToRGB => 10i32,
            OBConvertFormat::BGRToRGB => 11i32,
            OBConvertFormat::MJPGToNV12 => 12i32,
            OBConvertFormat::YUYVToBGR => 13i32,
            OBConvertFormat::YUYVToRGBA => 14i32,
            OBConvertFormat::YUYVToBGRA => 15i32,
            OBConvertFormat::YUYVToY16 => 16i32,
            OBConvertFormat::YUYVToY8 => 17i32,
            OBConvertFormat::RGBAToRGB => 18i32,
            OBConvertFormat::BGRAToBGR => 19i32,
            OBConvertFormat::Y16ToRGB => 20i32,
            OBConvertFormat::Y8ToRGB => 21i32,
        }
    }

    /// The integer that stands for this conversion in the native interface.
    #[verifier::when_used_as_spec(spec_code)]
    pub fn code(self) -> (r: i32)
        ensures
            r == self.spec_code(),
    {
        match self {
            OBConvertFormat::YUYVToRGB => 0,
            OBConvertFormat::I420ToRGB => 1,
            OBConvertFormat::NV21ToRGB => 2,
            OBConvertFormat::NV12ToRGB => 3,
            OBConvertFormat::MJPGToI420 => 4,
            OBConvertFormat::RGBToBGR => 5,
            OBConvertFormat::MJPGToNV21 => 6,
            OBConvertFormat::MJPGToRGB => 7,
            OBConvertFormat::MJPGToBGR => 8,
            OBConvertFormat::MJPGToBGRA => 9,
            OBConvertFormat::UYVYToRGB => 10,
            OBConvertFormat::BGRToRGB => 11,
            OBConvertFormat::MJPGToNV12 => 12,
            OBConvertFormat::YUYVToBGR => 13,
            OBConvertFormat::YUYVToRGBA => 14,
            OBConvertFormat::YUYVToBGRA => 15,
            OBConvertFormat::YUYVToY16 => 16,
            OBConvertFormat::YUYVToY8 => 17,
            OBConvertFormat::RGBAToRGB => 18,
            OBConvertFormat::BGRAToBGR => 19,
            OBConvertFormat::Y16ToRGB => 20,
            OBConvertFormat::Y8ToRGB => 21,
        }
    }

    /// Two values with the same code are the same conversion.
    pub proof fn lemma_code_injective(a: OBConvertFormat, b: OBConvertFormat)
        requires
            a.spec_code() == b.spec_code(),
        ensures
            a == b,
    {
    }
}

/// Exception types
#[derive(Debug, Clone, Copy, PartialEq, Eq, Hash, Structural)]
pub enum OBExceptionType {
    /// Unknown error, an error not clearly defined by the SDK
    Unknown,
    /// Standard exception, an error caused by the standard library
    StdException,
    /// Camera/Device has been disconnected, the camera/device is not available
    CameraDisconnected,
    /// An error in the SDK adaptation platform layer, which means an error in the implementation of a specific system platform
    PlatformException,
    /// Invalid parameter type exception, need to check input parameter
    InvalidValue,
    /// Wrong API call sequence, the API is called in the wrong order or the wrong parameter is passed
    WrongAPICallSequence,
    /// SDK and firmware have not yet implemented this function or feature
    NotImplemented,
    /// SDK access I/O exception error
    IOException,
    /// SDK access and use memory errors. For example, the frame fails to allocate memory
    MemoryException,
    /// Unsupported operation type error by SDK or device
    UnsupportedOperation,
}

impl OBExceptionType {
    /// The integer that stands for this exception type in the native interface.
    pub open spec fn spec_code(self) -> i32 {
        match self {
            OBExceptionType::Unknown => 0i32,
            OBExceptionType::StdException => 1i32,
            OBExceptionType::CameraDisconnected => 2i32,
            OBExceptionType::PlatformException => 3i32,
            OBExceptionType::InvalidValue => 4i32,
            OBExceptionType::WrongAPICallSequence => 5i32,
            OBExceptionType::NotImplemented => 6i32,
            OBExceptionType::IOException => 7i32,
            OBExceptionType::MemoryException => 8i32,
            OBExceptionType::UnsupportedOperation => 9i32,
        }
    }

    /// The integer that stands for this exception type in the native interface.
    #[verifier::when_used_as_spec(spec_code)]
    pub fn code(self) -> (r: i32)
        ensures
            r == self.spec_code(),
    {
        match self {
            OBExceptionType::Unknown => 0,
            OBExceptionType::StdException => 1,
            OBExceptionType::CameraDisconnected => 2,
            OBExceptionType::PlatformException => 3,
            OBExceptionType::InvalidValue => 4,
            OBExceptionType::WrongAPICallSequence => 5,
            OBExceptionType::NotImplemented => 6,
            OBExceptionType::IOException => 7,
            OBExceptionType::MemoryException => 8,
            OBExceptionType::UnsupportedOperation => 9,
        }
    }

    /// The exception type that a code of the native interface stands for; a code that
    /// stands for none gives `Unknown`.
    pub open spec fn of_code(code: i32) -> OBExceptionType {
        if code == 1 {
            OBExceptionType::StdException
        } else if code == 2 {
            OBExceptionType::CameraDisconnected
        } else if code == 3 {
            OBExceptionType::PlatformException
        } else if code == 4 {
            OBExceptionType::InvalidValue
        } else if code == 5 {
            OBExceptionType::WrongAPICallSequence
        } else if code == 6 {
            OBExceptionType::NotImplemented
        } else if code == 7 {
            OBExceptionType::IOException
        } else if code == 8 {
            OBExceptionType::MemoryException
        } else if code == 9 {
            OBExceptionType::UnsupportedOperation
        } else {
            OBExceptionType::Unknown
        }
    }

    /// A code of the native interface stands for at most one exception type, and each
    /// exception type is found again from its own code.
    pub proof fn lemma_code_round_trip(value: OBExceptionType, code: i32)
        ensures
            OBExceptionType::of_code(value.spec_code()) == value,
            OBExceptionType::of_code(code).spec_code() == code || OBExceptionType::of_code(code) == OBExceptionType::Unknown,
    {
    }
}

impl From<i32> for OBExceptionType {
    /// The exception type that a code of the native interface stands for; a code that
    /// stands for none gives `Unknown`.
    fn from(code: i32) -> (r: Self) {
        match code {
            1 => OBExceptionType::StdException,
            2 => OBExceptionType::CameraDisconnected,
            3 => OBExceptionType::PlatformException,
            4 => OBExceptionType::InvalidValue,
            5 => OBExceptionType::WrongAPICallSequence,
            6 => OBExceptionType::NotImplemented,
            7 => OBExceptionType::IOException,
            8 => OBExceptionType::MemoryException,
            9 => OBExceptionType::UnsupportedOperation,
            _ => OBExceptionType::Unknown,
        }
    }
}

impl FromSpecImpl<i32> for OBExceptionType {
    open spec fn obeys_from_spec() -> bool {
        true
    }

    open spec fn from_spec(code: i32) -> Self {
        OBExceptionType::of_code(code)
    }
}

/// Device type
#[derive(Debug, Clone, Copy, PartialEq, Eq, Hash, Structural)]
pub enum OBDeviceType {
    /// Unknown device type
    Unknown,
    /// Monocular structured light camera
    SLMonocularCamera,
    /// Binocular structured light camera
    SLBinocularCamera,
    /// Time-of-Flight camera
    TOFCamera,
}

impl OBDeviceType {
    /// The integer that stands for this device type in the native interface.
    pub open spec fn spec_code(self) -> i32 {
        match self {
            OBDeviceType::Unknown => -1i32,
            OBDeviceType::SLMonocularCamera => 0i32,
            OBDeviceType::SLBinocularCamera => 1i32,
            OBDeviceType::TOFCamera => 2i32,
        }
    }

    /// The integer that stands for this device type in the native interface.
    #[verifier::when_used_as_spec(spec_code)]
    pub fn code(self) -> (r: i32)
        ensures
            r == self.spec_code(),
    {
        match self {
            OBDeviceType::Unknown => -1,
            OBDeviceType::SLMonocularCamera => 0,
            OBDeviceType::SLBinocularCamera => 1,
            OBDeviceType::TOFCamera => 2,
        }
    }

    /// The device type that a code of the native interface stands for; a code that
    /// stands for none gives `Unknown`.
    pub open spec fn of_code(code: i32) -> OBDeviceType {
        if code == 0 {
            OBDeviceType::SLMonocularCamera
        } else if code == 1 {
            OBDeviceType::SLBinocularCamera
        } else if code == 2 {
            OBDeviceType::TOFCamera
        } else {
            OBDeviceType::Unknown
        }
    }

    /// A code of the native interface stands for at most one device type, and each
    /// device type is found again from its own code.
    pub proof fn lemma_code_round_trip(value: OBDeviceType, code: i32)
        ensures
            OBDeviceType::of_code(value.spec_code()) == value,
            OBDeviceType::of_code(code).spec_code() == code || OBDeviceType::of_code(code) == OBDeviceType::Unknown,
    {
    }
}

impl From<i32> for OBDeviceType {
    /// The device type that a code of the native interface stands for; a code that
    /// stands for none gives `Unknown`.
    fn from(code: i32) -> (r: Self) {
        match code {
            0 => OBDeviceType::SLMonocularCamera,
            1 => OBDeviceType::SLBinocularCamera,
            2 => OBDeviceType::TOFCamera,
            _ => OBDeviceType::Unknown,
        }
    }
}

impl FromSpecImpl<i32> for OBDeviceType {
    open spec fn obeys_from_spec() -> bool {
        true
    }

    open spec fn from_spec(code: i32) -> Self {
        OBDeviceType::of_code(code)
    }
}

/// Stream Type
#[derive(Debug, Clone, Copy, PartialEq, Eq, Hash, Structural)]
pub enum OBStreamType {
    /// Unknown stream type
    Unknown,
    /// Video stream
    Video,
    /// Infrared stream
    Infrared,
    /// Color stream
    Color,
    /// Depth stream
    Depth,
    /// Accelerometer stream
    Accelerometer,
    /// Gyroscope stream
    Gyroscope,
    /// Left infrared stream
    LeftInfrared,
    /// Right infrared stream
    RightInfrared,
    /// Raw phase stream
    RawPhase,
    /// Confidence stream
    Confidence,
}

impl OBStreamType {
    /// The integer that stands for this stream type in the native interface.
    pub open spec fn spec_code(self) -> i32 {
        match self {
            OBStreamType::Unknown => -1i32,
            OBStreamType::Video => 0i32,
            OBStreamType::Infrared => 1i32,
            OBStreamType::Color => 2i32,
            OBStreamType::Depth => 3i32,
            OBStreamType::Accelerometer => 4i32,
            OBStreamType::Gyroscope => 5i32,
            OBStreamType::LeftInfrared => 6i32,
            OBStreamType::RightInfrared => 7i32,
            OBStreamType::RawPhase => 8i32,
            OBStreamType::Confidence => 9i32,
        }
    }

    /// The integer that stands for this stream type in the native interface.
    #[verifier::when_used_as_spec(spec_code)]
    pub fn code(self) -> (r: i32)
        ensures
            r == self.spec_code(),
    {
        match self {
            OBStreamType::Unknown => -1,
            OBStreamType::Video => 0,
            OBStreamType::Infrared => 1,
            OBStreamType::Color => 2,
            OBStreamType::Depth => 3,
            OBStreamType::Accelerometer => 4,
            OBStreamType::Gyroscope => 5,
            OBStreamType::LeftInfrared => 6,
            OBStreamType::RightInfrared => 7,
            OBStreamType::RawPhase => 8,
            OBStreamType::Confidence => 9,
        }
    }

    /// Two values with the same code are the same stream type.
    pub proof fn lemma_code_injective(a: OBStreamType, b: OBStreamType)
        requires
            a.spec_code() == b.spec_code(),
        ensures
            a == b,
    {
    }
}

/// Permission type
#[derive(Debug, Clone, Copy, PartialEq, Eq, Hash, Structural)]
pub enum OBPermissionType {
    /// Read permission
    Read,
    /// Write permission
    Write,
    /// Read and write permission
    ReadWrite,
}

impl OBPermissionType {
    /// The integer that stands for this permission in the native interface.
    pub open spec fn spec_code(self) -> i32 {
        match self {
            OBPermissionType::Read => 1i32,
            OBPermissionType::Write => 2i32,
            OBPermissionType::ReadWrite => 3i32,
        }
    }

    /// The integer that stands for this permission in the native interface.
    #[verifier::when_used_as_spec(spec_code)]
    pub fn code(self) -> (r: i32)
        ensures
            r == self.spec_code(),
    {
        match self {
            OBPermissionType::Read => 1,
            OBPermissionType::Write => 2,
            OBPermissionType::ReadWrite => 3,
        }
    }

    /// Two values with the same code are the same permission.
    pub proof fn lemma_code_injective(a: OBPermissionType, b: OBPermissionType)
        requires
            a.spec_code() == b.spec_code(),
        ensures
            a == b,
    {
    }
}

/// Hole Fill Mode
#[derive(Debug, Clone, Copy, PartialEq, Eq, Hash, Structural)]
pub enum OBHoleFillMode {
    /// Fill with the top pixel value
    Top,
    /// Fill with the nearest pixel (distance to camera) value
    Nearest,
    /// Fill with the farthest pixel (distance to camera) value
    Farthest,
}

impl OBHoleFillMode {
    /// The integer that stands for this hole filling mode in the native interface.
    pub open spec fn spec_code(self) -> i32 {
        match self {
            OBHoleFillMode::Top => 0i32,
            OBHoleFillMode::Nearest => 1i32,
            OBHoleFillMode::Farthest => 2i32,
        }
    }

    /// The integer that stands for this hole filling mode in the native interface.
    #[verifier::when_used_as_spec(spec_code)]
    pub fn code(self) -> (r: i32)
        ensures
            r == self.spec_code(),
    {
        match self {
            OBHoleFillMode::Top => 0,
            OBHoleFillMode::Nearest => 1,
            OBHoleFillMode::Farthest => 2,
        }
    }

    /// Two values with the same code are the same hole filling mode.
    pub proof fn lemma_code_injective(a: OBHoleFillMode, b: OBHoleFillMode)
        requires
            a.spec_code() == b.spec_code(),
        ensures
            a == b,
    {
    }
}

/// Point Cloud Coordinate System
#[derive(Debug, Clone, Copy, PartialEq, Eq, Hash, Structural)]
pub enum OBCoordinateSystem {
    /// Left Handed Coordinate System
    LeftHanded,
    /// Right Handed Coordinate System
    RightHanded,
}

impl OBCoordinateSystem {
    /// The integer that stands for this coordinate system in the native interface.
    pub open spec fn spec_code(self) -> i32 {
        match self {
            OBCoordinateSystem::LeftHanded => 0i32,
            OBCoordinateSystem::RightHanded => 1i32,
        }
    }

    /// The integer that stands for this coordinate system in the native interface.
    #[verifier::when_used_as_spec(spec_code)]
    pub fn code(self) -> (r: i32)
        ensures
            r == self.spec_code(),
    {
        match self {
            OBCoordinateSystem::LeftHanded => 0,
            OBCoordinateSystem::RightHanded => 1,
        }
    }

    /// Two values with the same code are the same coordinate system.
    pub proof fn lemma_code_injective(a: OBCoordinateSystem, b: OBCoordinateSystem)
        requires
            a.spec_code() == b.spec_code(),
        ensures
            a == b,
    {
    }
}

/// Align Mode
#[derive(Debug, Clone, Copy, PartialEq, Eq, Hash, Structural)]
pub enum OBAlignMode {
    /// Turn off alignment
    Disable,
    /// Hardware D2C alignment mode
    Hardware,
    /// Software D2C alignment mode
    Software,
}

impl OBAlignMode {
    /// The integer that stands for this alignment mode in the native interface.
    pub open spec fn spec_code(self) -> i32 {
        match self {
            OBAlignMode::Disable => 0i32,
            OBAlignMode::Hardware => 1i32,
            OBAlignMode::Software => 2i32,
        }
    }

    /// The integer that stands for this alignment mode in the native interface.
    #[verifier::when_used_as_spec(spec_code)]
    pub fn code(self) -> (r: i32)
        ensures
            r == self.spec_code(),
    {
        match self {
            OBAlignMode::Disable => 0,
            OBAlignMode::Hardware => 1,
            OBAlignMode::Software => 2,
        }
    }

    /// Two values with the same code are the same alignment mode.
    pub proof fn lemma_code_injective(a: OBAlignMode, b: OBAlignMode)
        requires
            a.spec_code() == b.spec_code(),
        ensures
            a == b,
    {
    }
}

/// Frame Aggregate Output Mode
#[derive(Debug, Clone, Copy, PartialEq, Eq, Hash, Structural)]
pub enum OBFrameAggregateOutputMode {
    /// Only FrameSet that contains all types of data frames will be output
    AllTypeFrameRequire,
    /// Color Frame Require output mode
    ColorFrameRequire,
    /// FrameSet for any case will be output
    AnySituation,
    /// Disable Frame Aggreate
    Disable,
}

impl OBFrameAggregateOutputMode {
    /// The integer that stands for this output mode in the native interface.
    pub open spec fn spec_code(self) -> i32 {
        match self {
            OBFrameAggregateOutputMode::AllTypeFrameRequire => 0i32,
            OBFrameAggregateOutputMode::ColorFrameRequire => 1i32,
            OBFrameAggregateOutputMode::AnySituation => 2i32,
            OBFrameAggregateOutputMode::Disable => 3i32,
        }
    }

    /// The integer that stands for this output mode in the native interface.
    #[verifier::when_used_as_spec(spec_code)]
    pub fn code(self) -> (r: i32)
        ensures
            r == self.spec_code(),
    {
        match self {
            OBFrameAggregateOutputMode::AllTypeFrameRequire => 0,
            OBFrameAggregateOutputMode::ColorFrameRequire => 1,
            OBFrameAggregateOutputMode::AnySituation => 2,
            OBFrameAggregateOutputMode::Disable => 3,
        }
    }

    /// Two values with the same code are the same output mode.
    pub proof fn lemma_code_injective(a: OBFrameAggregateOutputMode, b: OBFrameAggregateOutputMode)
        requires
            a.spec_code() == b.spec_code(),
        ensures
            a == b,
    {
    }
}

/// Log severity
#[derive(Debug, Clone, Copy, PartialEq, Eq, Hash, Structural)]
pub enum OBLogSeverity {
    /// Debug messages and everything above
    Debug,
    /// Informational messages and everything above
    Info,
    /// Warnings and everything above
    Warn,
    /// Errors and fatal errors
    Error,
    /// Fatal errors only
    Fatal,
    /// Logging switched off
    Off,
}

impl OBLogSeverity {
    /// The integer that stands for this severity in the native interface.
    pub open spec fn spec_code(self) -> i32 {
        match self {
            OBLogSeverity::Debug => 0i32,
            OBLogSeverity::Info => 1i32,
            OBLogSeverity::Warn => 2i32,
            OBLogSeverity::Error => 3i32,
            OBLogSeverity::Fatal => 4i32,
            OBLogSeverity::Off => 5i32,
        }
    }

    /// The integer that stands for this severity in the native interface.
    #[verifier::when_used_as_spec(spec_code)]
    pub fn code(self) -> (r: i32)
        ensures
            r == self.spec_code(),
    {
        match self {
            OBLogSeverity::Debug => 0,
            OBLogSeverity::Info => 1,
            OBLogSeverity::Warn => 2,
            OBLogSeverity::Error => 3,
            OBLogSeverity::Fatal => 4,
            OBLogSeverity::Off => 5,
        }
    }

    /// The severity that a code of the native interface stands for, if it
    /// stands for one.
    pub open spec fn of_code(code: i32) -> Option<OBLogSeverity> {
        if code == 0 {
            Some(OBLogSeverity::Debug)
        } else if code == 1 {
            Some(OBLogSeverity::Info)
        } else if code == 2 {
            Some(OBLogSeverity::Warn)
        } else if code == 3 {
            Some(OBLogSeverity::Error)
        } else if code == 4 {
            Some(OBLogSeverity::Fatal)
        } else if code == 5 {
            Some(OBLogSeverity::Off)
        } else {
            None
        }
    }

    /// The severity that a code of the native interface stands for, if it
    /// stands for one.
    pub fn from_code(code: i32) -> (r: Option<OBLogSeverity>)
        ensures
            r == OBLogSeverity::of_code(code),
    {
        match code {
            0 => Some(OBLogSeverity::Debug),
            1 => Some(OBLogSeverity::Info),
            2 => Some(OBLogSeverity::Warn),
            3 => Some(OBLogSeverity::Error),
            4 => Some(OBLogSeverity::Fatal),
            5 => Some(OBLogSeverity::Off),
            _ => None,
        }
    }

    /// A code of the native interface stands for at most one severity, and
    /// each severity is found again from its own code.
    pub proof fn lemma_code_round_trip(value: OBLogSeverity, code: i32)
        ensures
            OBLogSeverity::of_code(value.spec_code()) == Some(value),
            OBLogSeverity::of_code(code) matches Some(v) ==> v.spec_code() == code,
    {
    }
}

} // verus!
