//! Pipeline module
use vstd::prelude::*;
use crate::device::Device;
use crate::error::OrbbecError;
use crate::frame::FrameSet;
use crate::stream::{StreamProfile, StreamProfileList, VideoStreamProfile};
use crate::sys::enums::{OBAlignMode, OBFrameAggregateOutputMode, OBSensorType};
use crate::sys::frame::{FrameView, OBFrame};
use crate::sys::pipeline::{ConfigView, OBConfig, OBPipeline, OBPipelineState, PipelineStateView};
use crate::sys::stream::OBStreamProfileList;
use crate::sys::OBError;

verus! {

/// Pipeline Configuration
#[derive(Debug)]
pub struct Config {
    pub inner: OBConfig,
}

impl View for Config {
    type V = ConfigView;

    open spec fn view(&self) -> ConfigView {
        self.inner@
    }
}

impl Config {
    /// Create a new configuration with default parameters: `error` is what the
    /// runtime left in the error slot. In a new configuration no stream is
    /// enabled and every setting is left to the runtime.
    pub fn new(error: Option<OBError>) -> (r: Result<Self, OrbbecError>)
        ensures
            error is None ==> r is Ok && r->Ok_0@ == ConfigView::empty(),
            error is Some ==> r is Err && r->Err_0@ == error->0@,
    {
        match OBConfig::new(error) {
            Ok(config) => Ok(Config { inner: config }),
            Err(e) => Err(OrbbecError::from_native(e)),
        }
    }

    /// Enable a stream with the given profile: `error` is what the runtime
    /// left in the error slot. A profile that the runtime took comes after
    /// those enabled before; one that it refused changes nothing.
    /// ### Arguments
    /// * `profile` - Stream profile to enable
    pub fn enable_stream_with_profile<S: StreamProfile>(&mut self, profile: &S, error: Option<OBError>) -> (r:
        Result<(), OrbbecError>)
        ensures
            error is None ==> r is Ok && final(self)@ == (ConfigView {
                streams: old(self)@.streams.push(profile.profile()),
                ..old(self)@
            }),
            error is Some ==> r is Err && r->Err_0@ == error->0@ && final(self)@ == old(self)@,
    {
        match self.inner.enable_stream_with_profile(profile.as_profile(), error) {
            Ok(()) => Ok(()),
            Err(e) => Err(OrbbecError::from_native(e)),
        }
    }

    /// Set the alignment mode for the pipeline configuration: `error` is what
    /// the runtime left in the error slot. A mode that the runtime refused
    /// changes nothing.
    /// ### Arguments
    /// * `mode` - Alignment mode to set
    pub fn set_align_mode(&mut self, mode: OBAlignMode, error: Option<OBError>) -> (r: Result<(), OrbbecError>)
        ensures
            error is None ==> r is Ok && final(self)@ == (ConfigView {
                align_mode: Some(mode),
                ..old(self)@
            }),
            error is Some ==> r is Err && r->Err_0@ == error->0@ && final(self)@ == old(self)@,
    {
        match self.inner.set_align_mode(mode, error) {
            Ok(()) => Ok(()),
            Err(e) => Err(OrbbecError::from_native(e)),
        }
    }

    /// Set whether depth scaling is required after enable depth to color
    /// alignment: `error` is what the runtime left in the error slot. A
    /// setting that the runtime refused changes nothing.
    /// ### Arguments
    /// * `enable` - `true` to enable depth scaling, `false` to disable it
    pub fn set_depth_scale_after_align_require(&mut self, enable: bool, error: Option<OBError>) -> (r: Result<
        (),
        OrbbecError,
    >)
        ensures
            error is None ==> r is Ok && final(self)@ == (ConfigView {
                depth_scale_after_align: Some(enable),
                ..old(self)@
            }),
            error is Some ==> r is Err && r->Err_0@ == error->0@ && final(self)@ == old(self)@,
    {
        match self.inner.set_depth_scale_after_align_require(enable, error) {
            Ok(()) => Ok(()),
            Err(e) => Err(OrbbecError::from_native(e)),
        }
    }

    /// Set the frame aggregation output mode for the pipeline configuration:
    /// `error` is what the runtime left in the error slot. A mode that the
    /// runtime refused changes nothing.
    /// ### Arguments
    /// * `mode` - Frame aggregation output mode to set
    pub fn set_frame_aggregate_output_mode(
        &mut self,
        mode: OBFrameAggregateOutputMode,
        error: Option<OBError>,
    ) -> (r: Result<(), OrbbecError>)
        ensures
            error is None ==> r is Ok && final(self)@ == (ConfigView {
                frame_aggregate_output_mode: Some(mode),
                ..old(self)@
            }),
            error is Some ==> r is Err && r->Err_0@ == error->0@ && final(self)@ == old(self)@,
    {
        match self.inner.set_frame_aggregate_output_mode(mode, error) {
            Ok(()) => Ok(()),
            Err(e) => Err(OrbbecError::from_native(e)),
        }
    }
}

/// What a capture session is: the pipeline of the runtime, and whether a
/// callback is registered to which its frames are delivered.
pub struct PipelineView {
    pub pipeline: PipelineStateView,
    pub callback: bool,
}

impl PipelineView {
    /// This session after it was started with `config`, with or without a
    /// callback.
    pub open spec fn started(self, config: ConfigView, callback: bool) -> PipelineView {
        PipelineView {
            pipeline: PipelineStateView {
                state: OBPipelineState::Started,
                config: Some(config),
                ..self.pipeline
            },
            callback,
        }
    }

    /// This session after it was stopped: it is stopped, and no callback is
    /// registered.
    pub open spec fn stopped(self) -> PipelineView {
        PipelineView {
            pipeline: PipelineStateView { state: OBPipelineState::Stopped, ..self.pipeline },
            callback: false,
        }
    }

    /// This session after its frame synchronization was set.
    pub open spec fn synchronized(self, enable: bool) -> PipelineView {
        PipelineView {
            pipeline: PipelineStateView { frame_sync: Some(enable), ..self.pipeline },
            callback: self.callback,
        }
    }
}

/// The view of a set of frames that may be absent.
pub open spec fn frameset_view(frames: Option<FrameSet>) -> Option<FrameView> {
    match frames {
        Some(f) => Some(f@),
        None => None,
    }
}

/// The view of a frame of the runtime that may be absent.
pub open spec fn produced_view(frame: Option<OBFrame>) -> Option<FrameView> {
    match frame {
        Some(f) => Some(f@),
        None => None,
    }
}

/// Pipeline
pub struct Pipeline {
    pub inner: OBPipeline,
    pub callback: bool,
}

impl View for Pipeline {
    type V = PipelineView;

    open spec fn view(&self) -> PipelineView {
        PipelineView { pipeline: self.inner@, callback: self.callback }
    }
}

impl Pipeline {
    /// Create a new pipeline for the given device: `error` is what the
    /// runtime left in the error slot. A new pipeline has never been started,
    /// and no callback is registered with it.
    /// ### Arguments
    /// * `device` - Device to create the pipeline for
    pub fn new(device: &Device, error: Option<OBError>) -> (r: Result<Self, OrbbecError>)
        ensures
            error is None ==> r is Ok && r->Ok_0@ == (PipelineView {
                pipeline: PipelineStateView {
                    device: device@,
                    state: OBPipelineState::Created,
                    frame_sync: None,
                    config: None,
                },
                callback: false,
            }),
            error is Some ==> r is Err && r->Err_0@ == error->0@,
    {
        match OBPipeline::new(device.inner(), error) {
            Ok(pipeline) => Ok(Pipeline { inner: pipeline, callback: false }),
            Err(e) => Err(OrbbecError::from_native(e)),
        }
    }

    /// Whether the pipeline is started.
    pub fn is_started(&self) -> (r: bool)
        ensures
            r == (self@.pipeline.state == OBPipelineState::Started),
    {
        self.inner.state() == OBPipelineState::Started
    }

    /// Whether the pipeline has been stopped and not started again.
    pub fn is_stopped(&self) -> (r: bool)
        ensures
            r == (self@.pipeline.state == OBPipelineState::Stopped),
    {
        self.inner.state() == OBPipelineState::Stopped
    }

    /// Whether a callback is registered to which frames are delivered.
    pub fn has_callback(&self) -> (r: bool)
        ensures
            r == self@.callback,
    {
        self.callback
    }

    /// Get the device associated with the pipeline: `error` is what the
    /// runtime left in the error slot.
    pub fn get_device(&mut self, error: Option<OBError>) -> (r: Result<Device, OrbbecError>)
        ensures
            final(self)@ == old(self)@,
            error is None ==> r is Ok && r->Ok_0@ == old(self)@.pipeline.device,
            error is Some ==> r is Err && r->Err_0@ == error->0@,
    {
        match self.inner.get_device(error) {
            Ok(device) => Ok(Device::new(device)),
            Err(e) => Err(OrbbecError::from_native(e)),
        }
    }

    /// Get a list of stream profiles supported by the specified sensor:
    /// `listed` is the list that the runtime handed over, `error` what it left
    /// in the error slot.
    /// ### Arguments
    /// * `sensor` - Sensor type to get the stream profiles for
    pub fn get_stream_profiles(
        &mut self,
        sensor: OBSensorType,
        listed: OBStreamProfileList,
        error: Option<OBError>,
    ) -> (r: Result<StreamProfileList, OrbbecError>)
        ensures
            final(self)@ == old(self)@,
            error is None ==> r is Ok && r->Ok_0.inner == listed,
            error is Some ==> r is Err && r->Err_0@ == error->0@,
    {
        match self.inner.get_stream_profile_list(sensor, listed, error) {
            Ok(list) => Ok(StreamProfileList::new(list)),
            Err(e) => Err(OrbbecError::from_native(e)),
        }
    }

    /// Get the list of D2C-enabled depth sensor resolutions corresponding to
    /// the input color sensor resolution: `listed` is the list that the
    /// runtime handed over, `error` what it left in the error slot.
    /// ### Arguments
    /// * `color_profile` - Color sensor profile
    /// * `align_mode` - Depth alignment mode
    pub fn get_d2c_depth_profiles(
        &mut self,
        color_profile: &VideoStreamProfile,
        align_mode: OBAlignMode,
        listed: OBStreamProfileList,
        error: Option<OBError>,
    ) -> (r: Result<StreamProfileList, OrbbecError>)
        ensures
            final(self)@ == old(self)@,
            error is None ==> r is Ok && r->Ok_0.inner == listed,
            error is Some ==> r is Err && r->Err_0@ == error->0@,
    {
        match self.inner.get_d2c_depth_profile_list(color_profile.inner(), align_mode, listed, error) {
            Ok(list) => Ok(StreamProfileList::new(list)),
            Err(e) => Err(OrbbecError::from_native(e)),
        }
    }

    /// Start the pipeline with the given configuration: `error` is what the
    /// runtime left in the error slot.
    ///
    /// A pipeline that the runtime started is started with this
    /// configuration. One that it did not start is as it was before, so that a
    /// pipeline that was not started is not started after a failure, and the
    /// error of the runtime is handed on as it is.
    /// ### Arguments
    /// * `config` - Configuration to use for the pipeline
    pub fn start(&mut self, config: &Config, error: Option<OBError>) -> (r: Result<(), OrbbecError>)
        ensures
            error is None ==> r is Ok && final(self)@ == old(self)@.started(config@, old(self)@.callback),
            error is Some ==> r is Err && r->Err_0@ == error->0@ && final(self)@ == old(self)@,
    {
        match self.inner.start_with_config(&config.inner, error) {
            Ok(()) => Ok(()),
            Err(e) => Err(OrbbecError::from_native(e)),
        }
    }

    /// Start the pipeline with the given configuration, with a callback to
    /// which each frameset is delivered: `error` is what the runtime left in
    /// the error slot.
    ///
    /// The callback itself is kept by the caller, who hands it every frameset
    /// that [`Pipeline::deliver`] lets through. It is registered from a start
    /// that the runtime took until the pipeline is stopped; a start that
    /// failed changes nothing.
    /// ### Arguments
    /// * `config` - Configuration to use for the pipeline
    pub fn start_with_callback(&mut self, config: &Config, error: Option<OBError>) -> (r: Result<
        (),
        OrbbecError,
    >)
        ensures
            error is None ==> r is Ok && final(self)@ == old(self)@.started(config@, true),
            error is Some ==> r is Err && r->Err_0@ == error->0@ && final(self)@ == old(self)@,
    {
        match self.inner.start_with_config(&config.inner, error) {
            Ok(()) => {
                self.callback = true;
                Ok(())
            },
            Err(e) => Err(OrbbecError::from_native(e)),
        }
    }

    /// What is handed to the callback when the runtime delivers `frame`: the
    /// frameset that wraps it while a callback is registered, and nothing
    /// once the pipeline has been stopped.
    pub fn deliver(&self, frame: OBFrame) -> (r: Option<FrameSet>)
        ensures
            self@.callback ==> r is Some && r->0.inner == frame,
            !self@.callback ==> r is None,
    {
        if self.callback {
            Some(FrameSet::from(frame))
        } else {
            None
        }
    }

    /// Stop the pipeline: `error` is what the runtime left in the error slot.
    ///
    /// From then on the pipeline is stopped and no callback is registered,
    /// whatever the runtime reported. A pipeline that is stopped already is
    /// left as it is without the runtime being asked: the result is `Ok`, and
    /// `error` is not looked at.
    pub fn stop(&mut self, error: Option<OBError>) -> (r: Result<(), OrbbecError>)
        ensures
            final(self)@ == old(self)@.stopped(),
            r is Ok <==> Self::stop_succeeds(old(self)@, error),
            r is Err ==> r->Err_0@ == error->0@,
    {
        if self.is_stopped() {
            self.callback = false;
            return Ok(());
        }
        let res = self.inner.stop(error);
        self.callback = false;
        match res {
            Ok(()) => Ok(()),
            Err(e) => Err(OrbbecError::from_native(e)),
        }
    }

    /// Set if frames should be synchronized: `error` is what the runtime left
    /// in the error slot. A setting that the runtime refused changes nothing.
    /// ### Arguments
    /// * `enable` - `true` to enable frame synchronization, `false` to disable it
    pub fn set_frame_sync(&mut self, enable: bool, error: Option<OBError>) -> (r: Result<(), OrbbecError>)
        ensures
            error is None ==> r is Ok && final(self)@ == old(self)@.synchronized(enable),
            error is Some ==> r is Err && r->Err_0@ == error->0@ && final(self)@ == old(self)@,
    {
        let res = if enable {
            self.inner.enable_frame_sync(error)
        } else {
            self.inner.disable_frame_sync(error)
        };

        match res {
            Ok(()) => Ok(()),
            Err(e) => Err(OrbbecError::from_native(e)),
        }
    }

    /// The time that the runtime is told to wait at most, in milliseconds: the
    /// time asked for, or the longest that 32 bits hold where it is longer.
    pub fn native_timeout(timeout_millis: u128) -> (r: u32)
        ensures
            timeout_millis <= u32::MAX ==> r == timeout_millis,
            timeout_millis > u32::MAX ==> r == u32::MAX,
    {
        if timeout_millis <= u32::MAX as u128 {
            timeout_millis as u32
        } else {
            u32::MAX
        }
    }

    /// Wait for the next set of frames from the pipeline: `produced` is the
    /// set that the runtime handed over within the time, or `None` where the
    /// time ran out; `error` is what it left in the error slot.
    ///
    /// That the time ran out is no error: the result is then `Ok(None)`, for
    /// every time asked for, zero included. Where the runtime reported an
    /// error, that error is handed on and `produced` is not looked at. The
    /// pipeline is as before.
    /// ### Arguments
    /// * `timeout_millis` - Maximum time to wait for frames, in milliseconds
    pub fn wait_for_frames(
        &mut self,
        timeout_millis: u128,
        produced: Option<OBFrame>,
        error: Option<OBError>,
    ) -> (r: Result<Option<FrameSet>, OrbbecError>)
        ensures
            final(self)@ == old(self)@,
            error is None ==> r is Ok && frameset_view(r->Ok_0) == produced_view(produced),
            error is Some ==> r is Err && r->Err_0@ == error->0@,
    {
        match self.inner.wait_for_frameset(Self::native_timeout(timeout_millis), produced, error) {
            Ok(Some(frame)) => Ok(Some(FrameSet::from(frame))),
            Ok(None) => Ok(None),
            Err(e) => Err(OrbbecError::from_native(e)),
        }
    }

    /// What `stop` returns for a pipeline in the given state and the given
    /// contents of the error slot: `true` for `Ok`.
    pub open spec fn stop_succeeds(session: PipelineView, error: Option<OBError>) -> bool {
        session.pipeline.state == OBPipelineState::Stopped || error is None
    }

    /// Stopping a pipeline twice leaves it where stopping it once did: stopped,
    /// with no callback registered; and the second stop succeeds, whatever the
    /// runtime reported at the first and whatever the error slot holds.
    pub proof fn lemma_stop_twice(session: PipelineView, error: Option<OBError>)
        ensures
            session.stopped().pipeline.state == OBPipelineState::Stopped,
            !session.stopped().callback,
            session.stopped().stopped() == session.stopped(),
            Self::stop_succeeds(session.stopped(), error),
    {
    }
}

} // verus!
