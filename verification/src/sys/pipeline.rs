//! Pipeline configuration and management
use vstd::prelude::*;
use vstd::slice::*;
use crate::sys::device::{DeviceView, OBDevice};
use crate::sys::enums::{OBAlignMode, OBFrameAggregateOutputMode, OBSensorType};
use crate::sys::frame::OBFrame;
use crate::sys::stream::{OBStreamProfile, OBStreamProfileList};
use crate::sys::OBError;

verus! {

/// What a configuration holds: the profiles of the streams that it enables, in
/// the order in which they were enabled, and each setting that was made; a
/// setting that was not made is left to the runtime.
pub struct ConfigView {
    pub streams: Seq<OBStreamProfile>,
    pub align_mode: Option<OBAlignMode>,
    pub depth_scale_after_align: Option<bool>,
    pub frame_aggregate_output_mode: Option<OBFrameAggregateOutputMode>,
}

impl ConfigView {
    /// The configuration in which nothing is enabled and nothing set.
    pub open spec fn empty() -> ConfigView {
        ConfigView {
            streams: Seq::empty(),
            align_mode: None,
            depth_scale_after_align: None,
            frame_aggregate_output_mode: None,
        }
    }
}

/// Pipeline Configuration
#[derive(Debug)]
pub struct OBConfig {
    streams: Vec<OBStreamProfile>,
    align_mode: Option<OBAlignMode>,
    depth_scale_after_align: Option<bool>,
    frame_aggregate_output_mode: Option<OBFrameAggregateOutputMode>,
}

impl View for OBConfig {
    type V = ConfigView;

    closed spec fn view(&self) -> ConfigView {
        ConfigView {
            streams: self.streams@,
            align_mode: self.align_mode,
            depth_scale_after_align: self.depth_scale_after_align,
            frame_aggregate_output_mode: self.frame_aggregate_output_mode,
        }
    }
}

impl Clone for OBConfig {
    fn clone(&self) -> (r: Self)
        ensures
            r@ == self@,
    {
        let mut streams: Vec<OBStreamProfile> = Vec::new();
        let mut index: usize = 0;
        while index < self.streams.len()
            invariant
                0 <= index <= self.streams@.len(),
                streams@ == self.streams@.subrange(0, index as int),
            decreases self.streams@.len() - index,
        {
            streams.push(self.streams[index]);
            index = index + 1;
            assert(streams@ =~= self.streams@.subrange(0, index as int));
        }
        assert(streams@ =~= self.streams@);
        OBConfig {
            streams,
            align_mode: self.align_mode,
            depth_scale_after_align: self.depth_scale_after_align,
            frame_aggregate_output_mode: self.frame_aggregate_output_mode,
        }
    }
}

impl OBConfig {
    /// Create a configuration object with default parameters: `error` is what
    /// the runtime left in the error slot.
    pub fn new(error: Option<OBError>) -> (r: Result<Self, OBError>)
        ensures
            error is None ==> r is Ok && r->Ok_0@ == ConfigView::empty(),
            error is Some ==> r == Err::<OBConfig, OBError>(error->0),
    {
        match OBError::consume(error) {
            Ok(()) => Ok(
                OBConfig {
                    streams: Vec::new(),
                    align_mode: None,
                    depth_scale_after_align: None,
                    frame_aggregate_output_mode: None,
                },
            ),
            Err(e) => Err(e),
        }
    }

    /// The profiles of the streams that are enabled, in the order in which
    /// they were enabled.
    pub fn streams(&self) -> (r: &[OBStreamProfile])
        ensures
            r@ == self@.streams,
    {
        self.streams.as_slice()
    }

    /// The alignment mode, if it was set.
    pub fn align_mode(&self) -> (r: Option<OBAlignMode>)
        ensures
            r == self@.align_mode,
    {
        self.align_mode
    }

    /// Whether depth scaling is required after alignment, if that was set.
    pub fn depth_scale_after_align_require(&self) -> (r: Option<bool>)
        ensures
            r == self@.depth_scale_after_align,
    {
        self.depth_scale_after_align
    }

    /// The frame aggregation output mode, if it was set.
    pub fn frame_aggregate_output_mode(&self) -> (r: Option<OBFrameAggregateOutputMode>)
        ensures
            r == self@.frame_aggregate_output_mode,
    {
        self.frame_aggregate_output_mode
    }

    /// Enable the specified stream with the given profile: `error` is what the
    /// runtime left in the error slot. A profile that the runtime took comes
    /// after those enabled before; one that it refused changes nothing.
    pub fn enable_stream_with_profile(&mut self, profile: &OBStreamProfile, error: Option<OBError>) -> (r:
        Result<(), OBError>)
        ensures
            error is None ==> r is Ok && final(self)@ == (ConfigView {
                streams: old(self)@.streams.push(*profile),
                ..old(self)@
            }),
            error is Some ==> r == Err::<(), OBError>(error->0) && final(self)@ == old(self)@,
    {
        match OBError::consume(error) {
            Ok(()) => {
                self.streams.push(*profile);
                Ok(())
            },
            Err(e) => Err(e),
        }
    }

    /// Set the alignment mode: `error` is what the runtime left in the error
    /// slot. A mode that the runtime refused changes nothing.
    pub fn set_align_mode(&mut self, mode: OBAlignMode, error: Option<OBError>) -> (r: Result<(), OBError>)
        ensures
            error is None ==> r is Ok && final(self)@ == (ConfigView {
                align_mode: Some(mode),
                ..old(self)@
            }),
            error is Some ==> r == Err::<(), OBError>(error->0) && final(self)@ == old(self)@,
    {
        match OBError::consume(error) {
            Ok(()) => {
                self.align_mode = Some(mode);
                Ok(())
            },
            Err(e) => Err(e),
        }
    }

    /// Set whether depth scaling is required after depth to color alignment:
    /// `error` is what the runtime left in the error slot. A setting that the
    /// runtime refused changes nothing.
    pub fn set_depth_scale_after_align_require(&mut self, enable: bool, error: Option<OBError>) -> (r:
        Result<(), OBError>)
        ensures
            error is None ==> r is Ok && final(self)@ == (ConfigView {
                depth_scale_after_align: Some(enable),
                ..old(self)@
            }),
            error is Some ==> r == Err::<(), OBError>(error->0) && final(self)@ == old(self)@,
    {
        match OBError::consume(error) {
            Ok(()) => {
                self.depth_scale_after_align = Some(enable);
                Ok(())
            },
            Err(e) => Err(e),
        }
    }

    /// Set the frame aggregation output mode: `error` is what the runtime left
    /// in the error slot. A mode that the runtime refused changes nothing.
    pub fn set_frame_aggregate_output_mode(
        &mut self,
        mode: OBFrameAggregateOutputMode,
        error: Option<OBError>,
    ) -> (r: Result<(), OBError>)
        ensures
            error is None ==> r is Ok && final(self)@ == (ConfigView {
                frame_aggregate_output_mode: Some(mode),
                ..old(self)@
            }),
            error is Some ==> r == Err::<(), OBError>(error->0) && final(self)@ == old(self)@,
    {
        match OBError::consume(error) {
            Ok(()) => {
                self.frame_aggregate_output_mode = Some(mode);
                Ok(())
            },
            Err(e) => Err(e),
        }
    }
}

/// Where a pipeline stands in its life.
#[derive(Debug, Clone, Copy, PartialEq, Eq, Hash, Structural)]
pub enum OBPipelineState {
    /// Made, and never started
    Created,
    /// Started, and capturing
    Started,
    /// Stopped; it may be started again
    Stopped,
}

/// What a pipeline is: its device, where it stands in its life, whether its
/// frames are synchronized if that was ever set, and the configuration that it
/// was last started with.
pub struct PipelineStateView {
    pub device: DeviceView,
    pub state: OBPipelineState,
    pub frame_sync: Option<bool>,
    pub config: Option<ConfigView>,
}

/// Camera pipeline class
pub struct OBPipeline {
    device: OBDevice,
    state: OBPipelineState,
    frame_sync: Option<bool>,
    config: Option<OBConfig>,
}

/// The view of a configuration that may be absent.
pub open spec fn config_view(config: Option<OBConfig>) -> Option<ConfigView> {
    match config {
        Some(c) => Some(c@),
        None => None,
    }
}

impl View for OBPipeline {
    type V = PipelineStateView;

    closed spec fn view(&self) -> PipelineStateView {
        PipelineStateView {
            device: self.device@,
            state: self.state,
            frame_sync: self.frame_sync,
            config: config_view(self.config),
        }
    }
}

impl OBPipeline {
    /// Create a pipeline for a device: `error` is what the runtime left in
    /// the error slot. A new pipeline has never been started.
    pub fn new(device: &OBDevice, error: Option<OBError>) -> (r: Result<Self, OBError>)
        ensures
            error is None ==> r is Ok && r->Ok_0@ == (PipelineStateView {
                device: device@,
                state: OBPipelineState::Created,
                frame_sync: None,
                config: None,
            }),
            error is Some ==> r == Err::<OBPipeline, OBError>(error->0),
    {
        match OBError::consume(error) {
            Ok(()) => Ok(
                OBPipeline {
                    device: device.clone(),
                    state: OBPipelineState::Created,
                    frame_sync: None,
                    config: None,
                },
            ),
            Err(e) => Err(e),
        }
    }

    /// Where the pipeline stands in its life.
    pub fn state(&self) -> (r: OBPipelineState)
        ensures
            r == self@.state,
    {
        self.state
    }

    /// Whether frames are synchronized, if that was ever set.
    pub fn frame_sync(&self) -> (r: Option<bool>)
        ensures
            r == self@.frame_sync,
    {
        self.frame_sync
    }

    /// The configuration that the pipeline was last started with, if it was
    /// ever started.
    pub fn config(&self) -> (r: Option<&OBConfig>)
        ensures
            r is Some <==> self@.config is Some,
            r is Some ==> r->0@ == self@.config->0,
    {
        self.config.as_ref()
    }

    /// Get the device object associated with the pipeline: `error` is what
    /// the runtime left in the error slot.
    pub fn get_device(&self, error: Option<OBError>) -> (r: Result<OBDevice, OBError>)
        ensures
            error is None ==> r is Ok && r->Ok_0@ == self@.device,
            error is Some ==> r == Err::<OBDevice, OBError>(error->0),
    {
        match OBError::consume(error) {
            Ok(()) => Ok(self.device.clone()),
            Err(e) => Err(e),
        }
    }

    /// Get a list of stream profiles supported by the specified sensor:
    /// `listed` is the list that the runtime handed over, `error` what it left
    /// in the error slot.
    pub fn get_stream_profile_list(
        &self,
        sensor: OBSensorType,
        listed: OBStreamProfileList,
        error: Option<OBError>,
    ) -> (r: Result<OBStreamProfileList, OBError>)
        ensures
            error is None ==> r == Ok::<OBStreamProfileList, OBError>(listed),
            error is Some ==> r == Err::<OBStreamProfileList, OBError>(error->0),
    {
        match OBError::consume(error) {
            Ok(()) => Ok(listed),
            Err(e) => Err(e),
        }
    }

    /// Get the list of depth profiles that can be aligned to a color profile in
    /// the given mode: `listed` is the list that the runtime handed over,
    /// `error` what it left in the error slot.
    pub fn get_d2c_depth_profile_list(
        &self,
        color_profile: &OBStreamProfile,
        align_mode: OBAlignMode,
        listed: OBStreamProfileList,
        error: Option<OBError>,
    ) -> (r: Result<OBStreamProfileList, OBError>)
        ensures
            error is None ==> r == Ok::<OBStreamProfileList, OBError>(listed),
            error is Some ==> r == Err::<OBStreamProfileList, OBError>(error->0),
    {
        match OBError::consume(error) {
            Ok(()) => Ok(listed),
            Err(e) => Err(e),
        }
    }

    /// Enable frame synchronization: `error` is what the runtime left in the
    /// error slot.
    pub fn enable_frame_sync(&mut self, error: Option<OBError>) -> (r: Result<(), OBError>)
        ensures
            error is None ==> r is Ok && final(self)@ == (PipelineStateView {
                frame_sync: Some(true),
                ..old(self)@
            }),
            error is Some ==> r == Err::<(), OBError>(error->0) && final(self)@ == old(self)@,
    {
        match OBError::consume(error) {
            Ok(()) => {
                self.frame_sync = Some(true);
                Ok(())
            },
            Err(e) => Err(e),
        }
    }

    /// Disable frame synchronization: `error` is what the runtime left in the
    /// error slot.
    pub fn disable_frame_sync(&mut self, error: Option<OBError>) -> (r: Result<(), OBError>)
        ensures
            error is None ==> r is Ok && final(self)@ == (PipelineStateView {
                frame_sync: Some(false),
                ..old(self)@
            }),
            error is Some ==> r == Err::<(), OBError>(error->0) && final(self)@ == old(self)@,
    {
        match OBError::consume(error) {
            Ok(()) => {
                self.frame_sync = Some(false);
                Ok(())
            },
            Err(e) => Err(e),
        }
    }

    /// Start the pipeline with configuration parameters: `error` is what the
    /// runtime left in the error slot.
    ///
    /// A pipeline that the runtime started is started, with this
    /// configuration. One that it did not start is as it was before; so a
    /// pipeline that was not started is not started after a failure.
    pub fn start_with_config(&mut self, config: &OBConfig, error: Option<OBError>) -> (r: Result<(), OBError>)
        ensures
            error is None ==> r is Ok && final(self)@ == (PipelineStateView {
                state: OBPipelineState::Started,
                config: Some(config@),
                ..old(self)@
            }),
            error is Some ==> r == Err::<(), OBError>(error->0) && final(self)@ == old(self)@,
    {
        match OBError::consume(error) {
            Ok(()) => {
                self.state = OBPipelineState::Started;
                self.config = Some(config.clone());
                Ok(())
            },
            Err(e) => Err(e),
        }
    }

    /// Stop the pipeline: `error` is what the runtime left in the error slot.
    /// The pipeline is stopped from then on, whatever the runtime reported.
    pub fn stop(&mut self, error: Option<OBError>) -> (r: Result<(), OBError>)
        ensures
            final(self)@ == (PipelineStateView { state: OBPipelineState::Stopped, ..old(self)@ }),
            error is None ==> r is Ok,
            error is Some ==> r == Err::<(), OBError>(error->0),
    {
        self.state = OBPipelineState::Stopped;
        OBError::consume(error)
    }

    /// Wait for a set of frames to be returned synchronously: `produced` is
    /// the set that the runtime handed over within the time, or `None` where
    /// the time ran out; `error` is what it left in the error slot.
    ///
    /// That the time ran out is no error. A set that came with an error is not
    /// looked at.
    pub fn wait_for_frameset(&self, timeout_ms: u32, produced: Option<OBFrame>, error: Option<OBError>) -> (r:
        Result<Option<OBFrame>, OBError>)
        ensures
            error is None ==> r == Ok::<Option<OBFrame>, OBError>(produced),
            error is Some ==> r == Err::<Option<OBFrame>, OBError>(error->0),
    {
        match OBError::consume(error) {
            Ok(()) => Ok(produced),
            Err(e) => Err(e),
        }
    }
}

} // verus!
