//! Filter module
use vstd::prelude::*;
use vstd::string::*;
use crate::error::{OrbbecError, OrbbecErrorData};
use crate::frame::Frame;
use crate::stream::VideoStreamProfile;
use crate::sys::enums::{OBConvertFormat, OBExceptionType, OBHoleFillMode, OBStreamType};
use crate::sys::filter::{FilterView, OBConfigValue, OBFilter};
use crate::sys::frame::OBFrame;
use crate::sys::{ErrorView, Float32, OBError};

verus! {

/// What every filter is at its core: a filter of the runtime.
pub trait AsFilter {
    /// The filter of the runtime that this one wraps.
    spec fn filter(&self) -> OBFilter;

    /// The filter of the runtime that this one wraps.
    fn as_filter(&self) -> (r: &OBFilter)
        ensures
            *r == self.filter(),
    ;
}

/// Filter trait
pub trait Filter<F: Frame>: AsFilter {
    /// Process a frame with the filter: `produced` is the frame that the
    /// runtime made of `frame`, `error` what it left in the error slot.
    ///
    /// The result is a new frame of the same role as the input, which wraps
    /// what the runtime made; the input is left as it is. Where the runtime
    /// reported an error, that error is handed on and `produced` is not looked
    /// at.
    fn process(&self, frame: &F, produced: OBFrame, error: Option<OBError>) -> (r: Result<F, OrbbecError>)
        ensures
            process_result(produced, error, r),
    {
        match self.as_filter().process(frame.as_frame(), produced, error) {
            Ok(f) => Ok(F::wrap(f)),
            Err(e) => Err(OrbbecError::from_native(e)),
        }
    }
}

/// What `process` makes of an answer of the runtime: the frame that the runtime
/// made, wrapped, or the error that it reported.
pub open spec fn process_result<F: Frame>(produced: OBFrame, error: Option<OBError>, r: Result<F, OrbbecError>) -> bool {
    &&& error is None ==> r is Ok && r->Ok_0.frame() == produced
    &&& error is Some ==> r is Err && r->Err_0@ == error->0@
}

/// Given one answer of the runtime, `process` gives one result: two calls that
/// are handed the same produced frame and the same contents of the error slot
/// agree, whichever filters make them. Whether the runtime answers two filters
/// alike for the same frame is the runtime's and is not said here.
pub proof fn lemma_process_agrees<F: Frame>(
    produced: OBFrame,
    error: Option<OBError>,
    first: Result<F, OrbbecError>,
    second: Result<F, OrbbecError>,
)
    requires
        process_result(produced, error, first),
        process_result(produced, error, second),
    ensures
        first is Ok <==> second is Ok,
        first is Ok ==> first->Ok_0.frame() == second->Ok_0.frame(),
        first is Err ==> first->Err_0@ == second->Err_0@,
{
}

/// The error for a filter that the runtime does not have.
pub open spec fn not_available_error(name: Seq<char>) -> ErrorView {
    ErrorView {
        kind: OBExceptionType::NotImplemented,
        message: name + " is not available"@,
        function: name + "::new"@,
        args: ""@,
    }
}

/// Builds the error for a filter that the runtime does not have.
fn make_not_available_error(name: &str) -> (r: OrbbecError)
    ensures
        r@ == not_available_error(name@),
{
    let err_data = OrbbecErrorData {
        message: String::from_str(name).concat(" is not available"),
        function: String::from_str(name).concat("::new"),
        args: String::from_str(""),
    };

    OrbbecError::NotImplemented(err_data)
}

/// Makes a filter that every runtime has: `error` is what the runtime left in
/// the error slot.
fn make_present(name: &str, error: Option<OBError>) -> (r: Result<OBFilter, OrbbecError>)
    ensures
        error is None ==> r is Ok && r->Ok_0@ == FilterView::fresh(name@),
        error is Some ==> r is Err && r->Err_0@ == error->0@,
{
    match OBFilter::new(name, true, error) {
        Ok(found) => Ok(found.unwrap()),
        Err(e) => Err(OrbbecError::from_native(e)),
    }
}

/// Makes a filter that a runtime may lack: `present` tells whether the runtime
/// handed one over, `error` what it left in the error slot.
fn make_optional(name: &str, present: bool, error: Option<OBError>) -> (r: Result<OBFilter, OrbbecError>)
    ensures
        error is Some ==> r is Err && r->Err_0@ == error->0@,
        error is None && !present ==> r is Err && r->Err_0@ == not_available_error(name@),
        error is None && present ==> r is Ok && r->Ok_0@ == FilterView::fresh(name@),
{
    match OBFilter::new(name, present, error) {
        Ok(Some(filter)) => Ok(filter),
        Ok(None) => Err(make_not_available_error(name)),
        Err(e) => Err(OrbbecError::from_native(e)),
    }
}

/// Gives a value to a name of a filter's configuration: `error` is what the
/// runtime left in the error slot.
fn configure(filter: &mut OBFilter, name: &str, value: OBConfigValue, error: Option<OBError>) -> (r: Result<
    (),
    OrbbecError,
>)
    ensures
        error is None ==> r is Ok && final(filter)@ == old(filter)@.with_setting(name@, value),
        error is Some ==> r is Err && r->Err_0@ == error->0@ && final(filter)@ == old(filter)@,
{
    match filter.set_config_value(name, value, error) {
        Ok(()) => Ok(()),
        Err(e) => Err(OrbbecError::from_native(e)),
    }
}

/// Decimation Filter
///
/// This filter reduces the resolution of the depth frame by an integer factor.
#[derive(Debug)]
pub struct DecimationFilter {
    pub inner: OBFilter,
}

impl View for DecimationFilter {
    type V = FilterView;

    open spec fn view(&self) -> FilterView {
        self.inner@
    }
}

impl DecimationFilter {
    /// Create a new decimation filter.
    ///
    /// `error` is what the runtime left in the error slot. Every runtime has
    /// this filter, so that only an error of the runtime stands in the way. A
    /// new filter runs on the parameters that the runtime gives it.
    pub fn new(error: Option<OBError>) -> (r: Result<Self, OrbbecError>)
        ensures
            error is None ==> r is Ok && r->Ok_0@ == FilterView::fresh("DecimationFilter"@),
            error is Some ==> r is Err && r->Err_0@ == error->0@,
    {
        match make_present("DecimationFilter", error) {
            Ok(filter) => Ok(DecimationFilter { inner: filter }),
            Err(e) => Err(e),
        }
    }

    /// Set the decimation factor.
    ///
    /// ### Arguments
    /// * `factor` - The decimation factor. Usually between 1 and 8.
    ///
    /// `error` is what the runtime left in the error slot. The runtime is
    /// given the number itself under the name `decimate`;
    /// a value that it refused changes nothing.
    pub fn set_factor(&mut self, factor: u8, error: Option<OBError>) -> (r: Result<(), OrbbecError>)
        ensures
            error is None ==> r is Ok && final(self)@ == old(self)@.with_setting(
                "decimate"@,
                OBConfigValue::Whole(factor as u32),
            ),
            error is Some ==> r is Err && r->Err_0@ == error->0@ && final(self)@ == old(self)@,
    {
        let (name, value) = Self::factor_setting(factor);
        configure(&mut self.inner, name, value, error)
    }

    /// What the runtime is handed by [`DecimationFilter::set_factor`]: the name of the value
    /// in the configuration of the filter, and the value.
    pub fn factor_setting(factor: u8) -> (r: (&'static str, OBConfigValue))
        ensures
            r.0@ == "decimate"@,
            r.1 == OBConfigValue::Whole(factor as u32),
    {
        ("decimate", OBConfigValue::Whole(factor as u32))
    }
}

impl AsFilter for DecimationFilter {
    open spec fn filter(&self) -> OBFilter {
        self.inner
    }

    fn as_filter(&self) -> (r: &OBFilter) {
        &self.inner
    }
}

impl<F: Frame> Filter<F> for DecimationFilter {
}

/// Format Convert Filter
///
/// This filter converts the format of the input frame to a different format.
#[derive(Debug)]
pub struct FormatConvertFilter {
    pub inner: OBFilter,
}

impl View for FormatConvertFilter {
    type V = FilterView;

    open spec fn view(&self) -> FilterView {
        self.inner@
    }
}

impl FormatConvertFilter {
    /// Create a new format convert filter.
    ///
    /// `error` is what the runtime left in the error slot. Every runtime has
    /// this filter, so that only an error of the runtime stands in the way. A
    /// new filter runs on the parameters that the runtime gives it.
    pub fn new(error: Option<OBError>) -> (r: Result<Self, OrbbecError>)
        ensures
            error is None ==> r is Ok && r->Ok_0@ == FilterView::fresh("FormatConverter"@),
            error is Some ==> r is Err && r->Err_0@ == error->0@,
    {
        match make_present("FormatConverter", error) {
            Ok(filter) => Ok(FormatConvertFilter { inner: filter }),
            Err(e) => Err(e),
        }
    }

    /// Set the format conversion type
    /// ### Arguments
    /// * `convert_type` - The desired format conversion type.
    ///
    /// `error` is what the runtime left in the error slot. The runtime is
    /// given the code of the conversion under the name `convertType`;
    /// a value that it refused changes nothing.
    pub fn set_convert_type(&mut self, convert_type: OBConvertFormat, error: Option<OBError>) -> (r: Result<(), OrbbecError>)
        ensures
            error is None ==> r is Ok && final(self)@ == old(self)@.with_setting(
                "convertType"@,
                OBConfigValue::Whole(convert_type.spec_code() as u32),
            ),
            error is Some ==> r is Err && r->Err_0@ == error->0@ && final(self)@ == old(self)@,
    {
        let (name, value) = Self::convert_type_setting(convert_type);
        configure(&mut self.inner, name, value, error)
    }

    /// What the runtime is handed by [`FormatConvertFilter::set_convert_type`]: the name of the value
    /// in the configuration of the filter, and the value.
    pub fn convert_type_setting(convert_type: OBConvertFormat) -> (r: (&'static str, OBConfigValue))
        ensures
            r.0@ == "convertType"@,
            r.1 == OBConfigValue::Whole(convert_type.spec_code() as u32),
    {
        ("convertType", OBConfigValue::Whole(#[verifier::truncate] (convert_type.code() as u32)))
    }
}

impl AsFilter for FormatConvertFilter {
    open spec fn filter(&self) -> OBFilter {
        self.inner
    }

    fn as_filter(&self) -> (r: &OBFilter) {
        &self.inner
    }
}

impl<F: Frame> Filter<F> for FormatConvertFilter {
}

/// Hole Filling Filter
///
/// This filter fills holes in the depth frame using a specified hole filling mode.
#[derive(Debug)]
pub struct HoleFillingFilter {
    pub inner: OBFilter,
}

impl View for HoleFillingFilter {
    type V = FilterView;

    open spec fn view(&self) -> FilterView {
        self.inner@
    }
}

impl HoleFillingFilter {
    /// Create a new hole filling filter.
    ///
    /// `present` tells whether the runtime handed a filter over, `error` what
    /// it left in the error slot. A runtime may lack this filter: the error is
    /// then of kind `NotImplemented` and names the filter. A new filter runs
    /// on the parameters that the runtime gives it.
    pub fn new(present: bool, error: Option<OBError>) -> (r: Result<Self, OrbbecError>)
        ensures
            error is Some ==> r is Err && r->Err_0@ == error->0@,
            error is None && !present ==> r is Err && r->Err_0@ == not_available_error(
                "HoleFillingFilter"@,
            ),
            error is None && present ==> r is Ok && r->Ok_0@ == FilterView::fresh("HoleFillingFilter"@),
    {
        match make_optional("HoleFillingFilter", present, error) {
            Ok(filter) => Ok(HoleFillingFilter { inner: filter }),
            Err(e) => Err(e),
        }
    }

    /// Set the hole filling mode.
    ///
    /// ### Arguments
    /// * `mode` - The hole filling mode.
    ///
    /// `error` is what the runtime left in the error slot. The runtime is
    /// given the code of the mode under the name `hole_filling_mode`;
    /// a value that it refused changes nothing.
    pub fn set_mode(&mut self, mode: OBHoleFillMode, error: Option<OBError>) -> (r: Result<(), OrbbecError>)
        ensures
            error is None ==> r is Ok && final(self)@ == old(self)@.with_setting(
                "hole_filling_mode"@,
                OBConfigValue::Whole(mode.spec_code() as u32),
            ),
            error is Some ==> r is Err && r->Err_0@ == error->0@ && final(self)@ == old(self)@,
    {
        let (name, value) = Self::mode_setting(mode);
        configure(&mut self.inner, name, value, error)
    }

    /// What the runtime is handed by [`HoleFillingFilter::set_mode`]: the name of the value
    /// in the configuration of the filter, and the value.
    pub fn mode_setting(mode: OBHoleFillMode) -> (r: (&'static str, OBConfigValue))
        ensures
            r.0@ == "hole_filling_mode"@,
            r.1 == OBConfigValue::Whole(mode.spec_code() as u32),
    {
        ("hole_filling_mode", OBConfigValue::Whole(#[verifier::truncate] (mode.code() as u32)))
    }
}

impl AsFilter for HoleFillingFilter {
    open spec fn filter(&self) -> OBFilter {
        self.inner
    }

    fn as_filter(&self) -> (r: &OBFilter) {
        &self.inner
    }
}

impl<F: Frame> Filter<F> for HoleFillingFilter {
}

/// Temporal Filter
///
/// This filter smooths the depth frame over time to reduce noise and temporal artifacts.
#[derive(Debug)]
pub struct TemporalFilter {
    pub inner: OBFilter,
}

impl View for TemporalFilter {
    type V = FilterView;

    open spec fn view(&self) -> FilterView {
        self.inner@
    }
}

impl TemporalFilter {
    /// Create a new temporal filter.
    ///
    /// `present` tells whether the runtime handed a filter over, `error` what
    /// it left in the error slot. A runtime may lack this filter: the error is
    /// then of kind `NotImplemented` and names the filter. A new filter runs
    /// on the parameters that the runtime gives it.
    pub fn new(present: bool, error: Option<OBError>) -> (r: Result<Self, OrbbecError>)
        ensures
            error is Some ==> r is Err && r->Err_0@ == error->0@,
            error is None && !present ==> r is Err && r->Err_0@ == not_available_error(
                "TemporalFilter"@,
            ),
            error is None && present ==> r is Ok && r->Ok_0@ == FilterView::fresh("TemporalFilter"@),
    {
        match make_optional("TemporalFilter", present, error) {
            Ok(filter) => Ok(TemporalFilter { inner: filter }),
            Err(e) => Err(e),
        }
    }

    /// Set the threshold parameter.
    ///
    /// Threshold is the maximum change (in percentage) for a pixel to still be considered static (without motion).
    /// ### Arguments
    /// * `threshold` - The threshold value. Usually between 0.1 and 1.0.
    ///
    /// `error` is what the runtime left in the error slot. The runtime is
    /// given the float itself under the name `diff_scale`;
    /// a value that it refused changes nothing.
    pub fn set_threshold(&mut self, threshold: Float32, error: Option<OBError>) -> (r: Result<(), OrbbecError>)
        ensures
            error is None ==> r is Ok && final(self)@ == old(self)@.with_setting(
                "diff_scale"@,
                OBConfigValue::Float(threshold),
            ),
            error is Some ==> r is Err && r->Err_0@ == error->0@ && final(self)@ == old(self)@,
    {
        let (name, value) = Self::threshold_setting(threshold);
        configure(&mut self.inner, name, value, error)
    }

    /// What the runtime is handed by [`TemporalFilter::set_threshold`]: the name of the value
    /// in the configuration of the filter, and the value.
    pub fn threshold_setting(threshold: Float32) -> (r: (&'static str, OBConfigValue))
        ensures
            r.0@ == "diff_scale"@,
            r.1 == OBConfigValue::Float(threshold),
    {
        ("diff_scale", OBConfigValue::Float(threshold))
    }

    /// Set the weight parameter.
    ///
    /// Weight is how much the current frame affects the output frame.
    /// ### Arguments
    /// * `weight` - The weight value. Usually between 0.1 and 1.0.
    ///
    /// `error` is what the runtime left in the error slot. The runtime is
    /// given the float itself under the name `weight`;
    /// a value that it refused changes nothing.
    pub fn set_weight(&mut self, weight: Float32, error: Option<OBError>) -> (r: Result<(), OrbbecError>)
        ensures
            error is None ==> r is Ok && final(self)@ == old(self)@.with_setting(
                "weight"@,
                OBConfigValue::Float(weight),
            ),
            error is Some ==> r is Err && r->Err_0@ == error->0@ && final(self)@ == old(self)@,
    {
        let (name, value) = Self::weight_setting(weight);
        configure(&mut self.inner, name, value, error)
    }

    /// What the runtime is handed by [`TemporalFilter::set_weight`]: the name of the value
    /// in the configuration of the filter, and the value.
    pub fn weight_setting(weight: Float32) -> (r: (&'static str, OBConfigValue))
        ensures
            r.0@ == "weight"@,
            r.1 == OBConfigValue::Float(weight),
    {
        ("weight", OBConfigValue::Float(weight))
    }
}

impl AsFilter for TemporalFilter {
    open spec fn filter(&self) -> OBFilter {
        self.inner
    }

    fn as_filter(&self) -> (r: &OBFilter) {
        &self.inner
    }
}

impl<F: Frame> Filter<F> for TemporalFilter {
}

/// Spatial Fast Filter
///
/// This filter smooths the depth frame while preserving edges.
/// It uses an enhanced median smoothing algorithm and is the simplest spatial filter available.
#[derive(Debug)]
pub struct SpatialFastFilter {
    pub inner: OBFilter,
}

impl View for SpatialFastFilter {
    type V = FilterView;

    open spec fn view(&self) -> FilterView {
        self.inner@
    }
}

impl SpatialFastFilter {
    /// Create a new spatial fast filter.
    ///
    /// `present` tells whether the runtime handed a filter over, `error` what
    /// it left in the error slot. A runtime may lack this filter: the error is
    /// then of kind `NotImplemented` and names the filter. A new filter runs
    /// on the parameters that the runtime gives it.
    pub fn new(present: bool, error: Option<OBError>) -> (r: Result<Self, OrbbecError>)
        ensures
            error is Some ==> r is Err && r->Err_0@ == error->0@,
            error is None && !present ==> r is Err && r->Err_0@ == not_available_error(
                "SpatialFastFilter"@,
            ),
            error is None && present ==> r is Ok && r->Ok_0@ == FilterView::fresh("SpatialFastFilter"@),
    {
        match make_optional("SpatialFastFilter", present, error) {
            Ok(filter) => Ok(SpatialFastFilter { inner: filter }),
            Err(e) => Err(e),
        }
    }

    /// Set the filter radius parameter.
    ///
    /// Radius is how many neighbors will be considered for smoothing.
    /// ### Arguments
    /// * `radius` - The radius value. Usually between 3 and 5.
    ///
    /// `error` is what the runtime left in the error slot. The runtime is
    /// given the number itself under the name `radius`;
    /// a value that it refused changes nothing.
    pub fn set_radius(&mut self, radius: u16, error: Option<OBError>) -> (r: Result<(), OrbbecError>)
        ensures
            error is None ==> r is Ok && final(self)@ == old(self)@.with_setting(
                "radius"@,
                OBConfigValue::Whole(radius as u32),
            ),
            error is Some ==> r is Err && r->Err_0@ == error->0@ && final(self)@ == old(self)@,
    {
        let (name, value) = Self::radius_setting(radius);
        configure(&mut self.inner, name, value, error)
    }

    /// What the runtime is handed by [`SpatialFastFilter::set_radius`]: the name of the value
    /// in the configuration of the filter, and the value.
    pub fn radius_setting(radius: u16) -> (r: (&'static str, OBConfigValue))
        ensures
            r.0@ == "radius"@,
            r.1 == OBConfigValue::Whole(radius as u32),
    {
        ("radius", OBConfigValue::Whole(radius as u32))
    }
}

impl AsFilter for SpatialFastFilter {
    open spec fn filter(&self) -> OBFilter {
        self.inner
    }

    fn as_filter(&self) -> (r: &OBFilter) {
        &self.inner
    }
}

impl<F: Frame> Filter<F> for SpatialFastFilter {
}

/// Spatial Moderate Filter
///
/// This filter smooths the depth frame while preserving edges.
/// It uses an optimized average smoothing algorithm and is a balance between speed and quality.
#[derive(Debug)]
pub struct SpatialModerateFilter {
    pub inner: OBFilter,
}

impl View for SpatialModerateFilter {
    type V = FilterView;

    open spec fn view(&self) -> FilterView {
        self.inner@
    }
}

impl SpatialModerateFilter {
    /// Create a new spatial moderate filter.
    ///
    /// `present` tells whether the runtime handed a filter over, `error` what
    /// it left in the error slot. A runtime may lack this filter: the error is
    /// then of kind `NotImplemented` and names the filter. A new filter runs
    /// on the parameters that the runtime gives it.
    pub fn new(present: bool, error: Option<OBError>) -> (r: Result<Self, OrbbecError>)
        ensures
            error is Some ==> r is Err && r->Err_0@ == error->0@,
            error is None && !present ==> r is Err && r->Err_0@ == not_available_error(
                "SpatialModerateFilter"@,
            ),
            error is None && present ==> r is Ok && r->Ok_0@ == FilterView::fresh("SpatialModerateFilter"@),
    {
        match make_optional("SpatialModerateFilter", present, error) {
            Ok(filter) => Ok(SpatialModerateFilter { inner: filter }),
            Err(e) => Err(e),
        }
    }

    /// Set the filter radius parameter.
    ///
    /// Radius is how many neighbors will be considered for smoothing.
    /// ### Arguments
    /// * `radius` - The radius value. Usually between 3 and 7.
    ///
    /// `error` is what the runtime left in the error slot. The runtime is
    /// given the number itself under the name `radius`;
    /// a value that it refused changes nothing.
    pub fn set_radius(&mut self, radius: u16, error: Option<OBError>) -> (r: Result<(), OrbbecError>)
        ensures
            error is None ==> r is Ok && final(self)@ == old(self)@.with_setting(
                "radius"@,
                OBConfigValue::Whole(radius as u32),
            ),
            error is Some ==> r is Err && r->Err_0@ == error->0@ && final(self)@ == old(self)@,
    {
        let (name, value) = Self::radius_setting(radius);
        configure(&mut self.inner, name, value, error)
    }

    /// What the runtime is handed by [`SpatialModerateFilter::set_radius`]: the name of the value
    /// in the configuration of the filter, and the value.
    pub fn radius_setting(radius: u16) -> (r: (&'static str, OBConfigValue))
        ensures
            r.0@ == "radius"@,
            r.1 == OBConfigValue::Whole(radius as u32),
    {
        ("radius", OBConfigValue::Whole(radius as u32))
    }

    /// Set the filter magnitude parameter.
    ///
    /// Magnitude is the strength of the filter.
    /// ### Arguments
    /// * `magnitude` - The magnitude value. Usually between 1 and 3.
    ///
    /// `error` is what the runtime left in the error slot. The runtime is
    /// given the number itself under the name `magnitude`;
    /// a value that it refused changes nothing.
    pub fn set_magnitude(&mut self, magnitude: u8, error: Option<OBError>) -> (r: Result<(), OrbbecError>)
        ensures
            error is None ==> r is Ok && final(self)@ == old(self)@.with_setting(
                "magnitude"@,
                OBConfigValue::Whole(magnitude as u32),
            ),
            error is Some ==> r is Err && r->Err_0@ == error->0@ && final(self)@ == old(self)@,
    {
        let (name, value) = Self::magnitude_setting(magnitude);
        configure(&mut self.inner, name, value, error)
    }

    /// What the runtime is handed by [`SpatialModerateFilter::set_magnitude`]: the name of the value
    /// in the configuration of the filter, and the value.
    pub fn magnitude_setting(magnitude: u8) -> (r: (&'static str, OBConfigValue))
        ensures
            r.0@ == "magnitude"@,
            r.1 == OBConfigValue::Whole(magnitude as u32),
    {
        ("magnitude", OBConfigValue::Whole(magnitude as u32))
    }

    /// Set the filter threshold parameter.
    ///
    /// Threshold is the maximum difference between pixels to be considered part of the same surface.
    /// ### Arguments
    /// * `threshold` - The threshold value. Usually between 1 and 10000.
    ///
    /// `error` is what the runtime left in the error slot. The runtime is
    /// given the number itself under the name `disp_diff`;
    /// a value that it refused changes nothing.
    pub fn set_threshold(&mut self, threshold: u16, error: Option<OBError>) -> (r: Result<(), OrbbecError>)
        ensures
            error is None ==> r is Ok && final(self)@ == old(self)@.with_setting(
                "disp_diff"@,
                OBConfigValue::Whole(threshold as u32),
            ),
            error is Some ==> r is Err && r->Err_0@ == error->0@ && final(self)@ == old(self)@,
    {
        let (name, value) = Self::threshold_setting(threshold);
        configure(&mut self.inner, name, value, error)
    }

    /// What the runtime is handed by [`SpatialModerateFilter::set_threshold`]: the name of the value
    /// in the configuration of the filter, and the value.
    pub fn threshold_setting(threshold: u16) -> (r: (&'static str, OBConfigValue))
        ensures
            r.0@ == "disp_diff"@,
            r.1 == OBConfigValue::Whole(threshold as u32),
    {
        ("disp_diff", OBConfigValue::Whole(threshold as u32))
    }
}

impl AsFilter for SpatialModerateFilter {
    open spec fn filter(&self) -> OBFilter {
        self.inner
    }

    fn as_filter(&self) -> (r: &OBFilter) {
        &self.inner
    }
}

impl<F: Frame> Filter<F> for SpatialModerateFilter {
}

/// Spatial Advanced Filter
///
/// This filter smooths the depth frame while preserving edges.
/// It uses a more advanced algorithm with more parameters to tune.
#[derive(Debug)]
pub struct SpatialAdvancedFilter {
    pub inner: OBFilter,
}

impl View for SpatialAdvancedFilter {
    type V = FilterView;

    open spec fn view(&self) -> FilterView {
        self.inner@
    }
}

impl SpatialAdvancedFilter {
    /// Create a new spatial advanced filter.
    ///
    /// `present` tells whether the runtime handed a filter over, `error` what
    /// it left in the error slot. A runtime may lack this filter: the error is
    /// then of kind `NotImplemented` and names the filter. A new filter runs
    /// on the parameters that the runtime gives it.
    pub fn new(present: bool, error: Option<OBError>) -> (r: Result<Self, OrbbecError>)
        ensures
            error is Some ==> r is Err && r->Err_0@ == error->0@,
            error is None && !present ==> r is Err && r->Err_0@ == not_available_error(
                "SpatialAdvancedFilter"@,
            ),
            error is None && present ==> r is Ok && r->Ok_0@ == FilterView::fresh("SpatialAdvancedFilter"@),
    {
        match make_optional("SpatialAdvancedFilter", present, error) {
            Ok(filter) => Ok(SpatialAdvancedFilter { inner: filter }),
            Err(e) => Err(e),
        }
    }

    /// Set the filter alpha parameter.
    ///
    /// Alpha is the weight of a pixel vs neighbors of the same surface.
    /// ### Arguments
    /// * `alpha` - The alpha value. Usually between 0.1 and 1.0.
    ///
    /// `error` is what the runtime left in the error slot. The runtime is
    /// given the float itself under the name `alpha`;
    /// a value that it refused changes nothing.
    pub fn set_alpha(&mut self, alpha: Float32, error: Option<OBError>) -> (r: Result<(), OrbbecError>)
        ensures
            error is None ==> r is Ok && final(self)@ == old(self)@.with_setting(
                "alpha"@,
                OBConfigValue::Float(alpha),
            ),
            error is Some ==> r is Err && r->Err_0@ == error->0@ && final(self)@ == old(self)@,
    {
        let (name, value) = Self::alpha_setting(alpha);
        configure(&mut self.inner, name, value, error)
    }

    /// What the runtime is handed by [`SpatialAdvancedFilter::set_alpha`]: the name of the value
    /// in the configuration of the filter, and the value.
    pub fn alpha_setting(alpha: Float32) -> (r: (&'static str, OBConfigValue))
        ensures
            r.0@ == "alpha"@,
            r.1 == OBConfigValue::Float(alpha),
    {
        ("alpha", OBConfigValue::Float(alpha))
    }

    /// Set the filter threshold parameter.
    ///
    /// Threshold is the maximum difference between pixels to be considered part of the same surface.
    /// ### Arguments
    /// * `threshold` - The threshold value. Usually between 1 and 10000.
    ///
    /// `error` is what the runtime left in the error slot. The runtime is
    /// given the number itself under the name `disp_diff`;
    /// a value that it refused changes nothing.
    pub fn set_threshold(&mut self, threshold: u16, error: Option<OBError>) -> (r: Result<(), OrbbecError>)
        ensures
            error is None ==> r is Ok && final(self)@ == old(self)@.with_setting(
                "disp_diff"@,
                OBConfigValue::Whole(threshold as u32),
            ),
            error is Some ==> r is Err && r->Err_0@ == error->0@ && final(self)@ == old(self)@,
    {
        let (name, value) = Self::threshold_setting(threshold);
        configure(&mut self.inner, name, value, error)
    }

    /// What the runtime is handed by [`SpatialAdvancedFilter::set_threshold`]: the name of the value
    /// in the configuration of the filter, and the value.
    pub fn threshold_setting(threshold: u16) -> (r: (&'static str, OBConfigValue))
        ensures
            r.0@ == "disp_diff"@,
            r.1 == OBConfigValue::Whole(threshold as u32),
    {
        ("disp_diff", OBConfigValue::Whole(threshold as u32))
    }

    /// Set the filter radius parameter.
    ///
    /// Radius is how many missing pixels will be filled in.
    /// ### Arguments
    /// * `radius` - The radius value. Usually between 0 and 8.
    ///
    /// `error` is what the runtime left in the error slot. The runtime is
    /// given the number itself under the name `radius`;
    /// a value that it refused changes nothing.
    pub fn set_radius(&mut self, radius: u16, error: Option<OBError>) -> (r: Result<(), OrbbecError>)
        ensures
            error is None ==> r is Ok && final(self)@ == old(self)@.with_setting(
                "radius"@,
                OBConfigValue::Whole(radius as u32),
            ),
            error is Some ==> r is Err && r->Err_0@ == error->0@ && final(self)@ == old(self)@,
    {
        let (name, value) = Self::radius_setting(radius);
        configure(&mut self.inner, name, value, error)
    }

    /// What the runtime is handed by [`SpatialAdvancedFilter::set_radius`]: the name of the value
    /// in the configuration of the filter, and the value.
    pub fn radius_setting(radius: u16) -> (r: (&'static str, OBConfigValue))
        ensures
            r.0@ == "radius"@,
            r.1 == OBConfigValue::Whole(radius as u32),
    {
        ("radius", OBConfigValue::Whole(radius as u32))
    }

    /// Set the filter magnitude parameter.
    ///
    /// Magnitude is the strength of the filter.
    /// ### Arguments
    /// * `magnitude` - The magnitude value. Usually between 1 and 5.
    ///
    /// `error` is what the runtime left in the error slot. The runtime is
    /// given the number itself under the name `magnitude`;
    /// a value that it refused changes nothing.
    pub fn set_magnitude(&mut self, magnitude: u8, error: Option<OBError>) -> (r: Result<(), OrbbecError>)
        ensures
            error is None ==> r is Ok && final(self)@ == old(self)@.with_setting(
                "magnitude"@,
                OBConfigValue::Whole(magnitude as u32),
            ),
            error is Some ==> r is Err && r->Err_0@ == error->0@ && final(self)@ == old(self)@,
    {
        let (name, value) = Self::magnitude_setting(magnitude);
        configure(&mut self.inner, name, value, error)
    }

    /// What the runtime is handed by [`SpatialAdvancedFilter::set_magnitude`]: the name of the value
    /// in the configuration of the filter, and the value.
    pub fn magnitude_setting(magnitude: u8) -> (r: (&'static str, OBConfigValue))
        ensures
            r.0@ == "magnitude"@,
            r.1 == OBConfigValue::Whole(magnitude as u32),
    {
        ("magnitude", OBConfigValue::Whole(magnitude as u32))
    }
}

impl AsFilter for SpatialAdvancedFilter {
    open spec fn filter(&self) -> OBFilter {
        self.inner
    }

    fn as_filter(&self) -> (r: &OBFilter) {
        &self.inner
    }
}

impl<F: Frame> Filter<F> for SpatialAdvancedFilter {
}

/// Threshold filter
///
/// This filter removes depth values outside the specified range.
#[derive(Debug)]
pub struct ThresholdFilter {
    pub inner: OBFilter,
}

impl View for ThresholdFilter {
    type V = FilterView;

    open spec fn view(&self) -> FilterView {
        self.inner@
    }
}

impl ThresholdFilter {
    /// Create a new threshold filter.
    ///
    /// `error` is what the runtime left in the error slot. Every runtime has
    /// this filter, so that only an error of the runtime stands in the way. A
    /// new filter runs on the parameters that the runtime gives it.
    pub fn new(error: Option<OBError>) -> (r: Result<Self, OrbbecError>)
        ensures
            error is None ==> r is Ok && r->Ok_0@ == FilterView::fresh("ThresholdFilter"@),
            error is Some ==> r is Err && r->Err_0@ == error->0@,
    {
        match make_present("ThresholdFilter", error) {
            Ok(filter) => Ok(ThresholdFilter { inner: filter }),
            Err(e) => Err(e),
        }
    }

    /// Set the minimum depth value (in millimeters).
    /// ### Arguments
    /// * `min_depth` - The minimum depth value to keep, must be between 0 and 16000.
    ///
    /// `error` is what the runtime left in the error slot. The runtime is
    /// given the number itself under the name `min`;
    /// a value that it refused changes nothing.
    pub fn set_min_depth(&mut self, min_depth: u16, error: Option<OBError>) -> (r: Result<(), OrbbecError>)
        ensures
            error is None ==> r is Ok && final(self)@ == old(self)@.with_setting(
                "min"@,
                OBConfigValue::Whole(min_depth as u32),
            ),
            error is Some ==> r is Err && r->Err_0@ == error->0@ && final(self)@ == old(self)@,
    {
        let (name, value) = Self::min_depth_setting(min_depth);
        configure(&mut self.inner, name, value, error)
    }

    /// What the runtime is handed by [`ThresholdFilter::set_min_depth`]: the name of the value
    /// in the configuration of the filter, and the value.
    pub fn min_depth_setting(min_depth: u16) -> (r: (&'static str, OBConfigValue))
        ensures
            r.0@ == "min"@,
            r.1 == OBConfigValue::Whole(min_depth as u32),
    {
        ("min", OBConfigValue::Whole(min_depth as u32))
    }

    /// Set the maximum depth value (in millimeters).
    /// ### Arguments
    /// * `max_depth` - The maximum depth value to keep, must be between 0 and 16000.
    ///
    /// `error` is what the runtime left in the error slot. The runtime is
    /// given the number itself under the name `max`;
    /// a value that it refused changes nothing.
    pub fn set_max_depth(&mut self, max_depth: u16, error: Option<OBError>) -> (r: Result<(), OrbbecError>)
        ensures
            error is None ==> r is Ok && final(self)@ == old(self)@.with_setting(
                "max"@,
                OBConfigValue::Whole(max_depth as u32),
            ),
            error is Some ==> r is Err && r->Err_0@ == error->0@ && final(self)@ == old(self)@,
    {
        let (name, value) = Self::max_depth_setting(max_depth);
        configure(&mut self.inner, name, value, error)
    }

    /// What the runtime is handed by [`ThresholdFilter::set_max_depth`]: the name of the value
    /// in the configuration of the filter, and the value.
    pub fn max_depth_setting(max_depth: u16) -> (r: (&'static str, OBConfigValue))
        ensures
            r.0@ == "max"@,
            r.1 == OBConfigValue::Whole(max_depth as u32),
    {
        ("max", OBConfigValue::Whole(max_depth as u32))
    }
}

impl AsFilter for ThresholdFilter {
    open spec fn filter(&self) -> OBFilter {
        self.inner
    }

    fn as_filter(&self) -> (r: &OBFilter) {
        &self.inner
    }
}

impl<F: Frame> Filter<F> for ThresholdFilter {
}

/// Align filter
///
/// This filter aligns a stream (usually depth) to another stream (usually color).
#[derive(Debug)]
pub struct AlignFilter {
    pub inner: OBFilter,
}

impl View for AlignFilter {
    type V = FilterView;

    open spec fn view(&self) -> FilterView {
        self.inner@
    }
}

impl AlignFilter {
    /// Create a new align filter.
    /// By default, it aligns to the color stream and resizes the aligned frame to match the target stream resolution.
    ///
    /// `error` is what the runtime left in the error slot. Every runtime has
    /// this filter, so that only an error of the runtime stands in the way. A
    /// new filter runs on the parameters that the runtime gives it.
    pub fn new(error: Option<OBError>) -> (r: Result<Self, OrbbecError>)
        ensures
            error is None ==> r is Ok && r->Ok_0@ == FilterView::fresh("Align"@),
            error is Some ==> r is Err && r->Err_0@ == error->0@,
    {
        match make_present("Align", error) {
            Ok(filter) => Ok(AlignFilter { inner: filter }),
            Err(e) => Err(e),
        }
    }

    /// Align to the specified stream type.
    /// ### Arguments
    /// * `stream_type` - The stream type to align to.
    ///
    /// `error` is what the runtime left in the error slot. The runtime is
    /// given the code of the stream type, as an unsigned number under the name `AlignType`;
    /// a value that it refused changes nothing.
    pub fn set_align_to_stream_type(&mut self, stream_type: OBStreamType, error: Option<OBError>) -> (r: Result<(), OrbbecError>)
        ensures
            error is None ==> r is Ok && final(self)@ == old(self)@.with_setting(
                "AlignType"@,
                OBConfigValue::Whole(stream_type.spec_code() as u32),
            ),
            error is Some ==> r is Err && r->Err_0@ == error->0@ && final(self)@ == old(self)@,
    {
        let (name, value) = Self::align_to_stream_type_setting(stream_type);
        configure(&mut self.inner, name, value, error)
    }

    /// What the runtime is handed by [`AlignFilter::set_align_to_stream_type`]: the name of the value
    /// in the configuration of the filter, and the value.
    pub fn align_to_stream_type_setting(stream_type: OBStreamType) -> (r: (&'static str, OBConfigValue))
        ensures
            r.0@ == "AlignType"@,
            r.1 == OBConfigValue::Whole(stream_type.spec_code() as u32),
    {
        ("AlignType", OBConfigValue::Whole(#[verifier::truncate] (stream_type.code() as u32)))
    }

    /// Add target stream distortion to the aligned frame.
    /// ### Arguments
    /// * `enable` - Whether to enable distortion.
    ///
    /// `error` is what the runtime left in the error slot. The runtime is
    /// given 1 for `true` and 0 for `false` under the name `TargetDistortion`;
    /// a value that it refused changes nothing.
    pub fn set_add_distortion(&mut self, enable: bool, error: Option<OBError>) -> (r: Result<(), OrbbecError>)
        ensures
            error is None ==> r is Ok && final(self)@ == old(self)@.with_setting(
                "TargetDistortion"@,
                OBConfigValue::Whole(if enable { 1u32 } else { 0u32 }),
            ),
            error is Some ==> r is Err && r->Err_0@ == error->0@ && final(self)@ == old(self)@,
    {
        let (name, value) = Self::add_distortion_setting(enable);
        configure(&mut self.inner, name, value, error)
    }

    /// What the runtime is handed by [`AlignFilter::set_add_distortion`]: the name of the value
    /// in the configuration of the filter, and the value.
    pub fn add_distortion_setting(enable: bool) -> (r: (&'static str, OBConfigValue))
        ensures
            r.0@ == "TargetDistortion"@,
            r.1 == OBConfigValue::Whole(if enable { 1u32 } else { 0u32 }),
    {
        ("TargetDistortion", OBConfigValue::Whole(if enable { 1 } else { 0 }))
    }

    /// Set gap fill mode.
    /// ### Arguments
    /// * `enable` - Whether to enable gap fill.
    ///
    /// `error` is what the runtime left in the error slot. The runtime is
    /// given 1 for `true` and 0 for `false` under the name `GapFillCopy`;
    /// a value that it refused changes nothing.
    pub fn set_gap_fill(&mut self, enable: bool, error: Option<OBError>) -> (r: Result<(), OrbbecError>)
        ensures
            error is None ==> r is Ok && final(self)@ == old(self)@.with_setting(
                "GapFillCopy"@,
                OBConfigValue::Whole(if enable { 1u32 } else { 0u32 }),
            ),
            error is Some ==> r is Err && r->Err_0@ == error->0@ && final(self)@ == old(self)@,
    {
        let (name, value) = Self::gap_fill_setting(enable);
        configure(&mut self.inner, name, value, error)
    }

    /// What the runtime is handed by [`AlignFilter::set_gap_fill`]: the name of the value
    /// in the configuration of the filter, and the value.
    pub fn gap_fill_setting(enable: bool) -> (r: (&'static str, OBConfigValue))
        ensures
            r.0@ == "GapFillCopy"@,
            r.1 == OBConfigValue::Whole(if enable { 1u32 } else { 0u32 }),
    {
        ("GapFillCopy", OBConfigValue::Whole(if enable { 1 } else { 0 }))
    }

    /// Set match resolution mode. When enabled, the aligned frame will have the same resolution as the target stream.
    /// ### Arguments
    /// * `enable` - Whether to enable match resolution.
    ///
    /// `error` is what the runtime left in the error slot. The runtime is
    /// given 1 for `true` and 0 for `false` under the name `MatchTargetRes`;
    /// a value that it refused changes nothing.
    pub fn set_match_resolution(&mut self, enable: bool, error: Option<OBError>) -> (r: Result<(), OrbbecError>)
        ensures
            error is None ==> r is Ok && final(self)@ == old(self)@.with_setting(
                "MatchTargetRes"@,
                OBConfigValue::Whole(if enable { 1u32 } else { 0u32 }),
            ),
            error is Some ==> r is Err && r->Err_0@ == error->0@ && final(self)@ == old(self)@,
    {
        let (name, value) = Self::match_resolution_setting(enable);
        configure(&mut self.inner, name, value, error)
    }

    /// What the runtime is handed by [`AlignFilter::set_match_resolution`]: the name of the value
    /// in the configuration of the filter, and the value.
    pub fn match_resolution_setting(enable: bool) -> (r: (&'static str, OBConfigValue))
        ensures
            r.0@ == "MatchTargetRes"@,
            r.1 == OBConfigValue::Whole(if enable { 1u32 } else { 0u32 }),
    {
        ("MatchTargetRes", OBConfigValue::Whole(if enable { 1 } else { 0 }))
    }

    /// Align to the specified stream profile.
    /// It is useful when the align target stream has not started (without any frame to get intrinsics and extrinsics).
    ///
    /// `error` is what the runtime left in the error slot; a profile that it
    /// refused changes nothing.
    /// ### Arguments
    /// * `profile` - The video stream profile to align to.
    pub fn set_align_to_stream_profile(&mut self, profile: &VideoStreamProfile, error: Option<OBError>) -> (r:
        Result<(), OrbbecError>)
        ensures
            error is None ==> r is Ok && final(self)@ == old(self)@.with_target(profile.inner),
            error is Some ==> r is Err && r->Err_0@ == error->0@ && final(self)@ == old(self)@,
    {
        match self.inner.set_align_to(profile.inner(), error) {
            Ok(()) => Ok(()),
            Err(e) => Err(OrbbecError::from_native(e)),
        }
    }
}

impl AsFilter for AlignFilter {
    open spec fn filter(&self) -> OBFilter {
        self.inner
    }

    fn as_filter(&self) -> (r: &OBFilter) {
        &self.inner
    }
}

impl<F: Frame> Filter<F> for AlignFilter {
}

} // verus!
