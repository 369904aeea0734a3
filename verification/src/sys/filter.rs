//! Filter related operations
use vstd::prelude::*;
use vstd::string::*;
use crate::sys::enums::OBFilterConfigValueType;
use crate::sys::frame::OBFrame;
use crate::sys::stream::{index_error, make_index_error, OBStreamProfile};
use crate::sys::{Float32, Float64, OBError};

verus! {

/// What a configuration item of a filter says, with its texts as sequences of
/// characters.
pub struct SchemaItemView {
    pub name: Seq<char>,
    pub value_type: OBFilterConfigValueType,
    pub min: Float64,
    pub max: Float64,
    pub step: Float64,
    pub def: Float64,
    pub desc: Seq<char>,
}

/// Filter Config Schema Item
#[derive(Debug)]
pub struct OBFilterConfigSchemaItem {
    /// Name of the configuration item
    pub name: String,
    /// Code of the value type of the configuration item
    pub type_code: i32,
    /// Minimum value casted to double
    pub min: Float64,
    /// Maximum value casted to double
    pub max: Float64,
    /// Step value casted to double
    pub step: Float64,
    /// Default value casted to double
    pub def: Float64,
    /// Description of the configuration item
    pub desc: String,
}

impl View for OBFilterConfigSchemaItem {
    type V = SchemaItemView;

    open spec fn view(&self) -> SchemaItemView {
        SchemaItemView {
            name: self.name@,
            value_type: OBFilterConfigValueType::of_code(self.type_code),
            min: self.min,
            max: self.max,
            step: self.step,
            def: self.def,
            desc: self.desc@,
        }
    }
}

impl Clone for OBFilterConfigSchemaItem {
    fn clone(&self) -> (r: Self)
        ensures
            r@ == self@,
    {
        OBFilterConfigSchemaItem {
            name: self.name.clone(),
            type_code: self.type_code,
            min: self.min,
            max: self.max,
            step: self.step,
            def: self.def,
            desc: self.desc.clone(),
        }
    }
}

impl OBFilterConfigSchemaItem {
    /// Name of the configuration item
    pub fn name(&self) -> (r: &str)
        ensures
            r@ == self@.name,
    {
        self.name.as_str()
    }

    /// Value type of the configuration item
    pub fn value_type(&self) -> (r: OBFilterConfigValueType)
        ensures
            r == self@.value_type,
    {
        OBFilterConfigValueType::from(self.type_code)
    }

    /// Minimum value casted to double
    pub fn minimum(&self) -> (r: Float64)
        ensures
            r == self@.min,
    {
        self.min
    }

    /// Maximum value casted to double
    pub fn maximum(&self) -> (r: Float64)
        ensures
            r == self@.max,
    {
        self.max
    }

    /// Step value casted to double
    pub fn step(&self) -> (r: Float64)
        ensures
            r == self@.step,
    {
        self.step
    }

    /// Default value casted to double
    pub fn default(&self) -> (r: Float64)
        ensures
            r == self@.def,
    {
        self.def
    }

    /// Description of the configuration item
    pub fn description(&self) -> (r: &str)
        ensures
            r@ == self@.desc,
    {
        self.desc.as_str()
    }
}

/// The views of the items of a list, in their order.
pub open spec fn item_views(items: Seq<OBFilterConfigSchemaItem>) -> Seq<SchemaItemView> {
    Seq::new(items.len(), |i: int| items[i]@)
}

/// Filter Config Schema List
#[derive(Debug)]
pub struct OBFilterConfigSchemaList {
    items: Vec<OBFilterConfigSchemaItem>,
}

impl View for OBFilterConfigSchemaList {
    type V = Seq<SchemaItemView>;

    closed spec fn view(&self) -> Seq<SchemaItemView> {
        item_views(self.items@)
    }
}

impl OBFilterConfigSchemaList {
    #[verifier::type_invariant]
    spec fn counted(&self) -> bool {
        self.items@.len() <= u32::MAX
    }

    /// The list of the given items, in their order.
    pub fn new(items: Vec<OBFilterConfigSchemaItem>) -> (r: Self)
        requires
            items@.len() <= u32::MAX,
        ensures
            r@ == item_views(items@),
    {
        OBFilterConfigSchemaList { items }
    }

    /// Get the number of filter config schemas in the list
    pub fn get_count(&self) -> (r: Result<u32, OBError>)
        ensures
            r is Ok,
            r->Ok_0 == self@.len(),
    {
        proof {
            use_type_invariant(self);
        }
        Ok(self.items.len() as u32)
    }

    /// Get the config schema item at the specified index: `error` is what
    /// the runtime left in the error slot.
    ///
    /// An error of the runtime is handed on as it is; that is how an index at
    /// or beyond the end of the list is refused. Where the runtime reported
    /// none for such an index, the error is of kind `InvalidValue` and says
    /// so.
    pub fn get_filter_config_item(&self, index: u32, error: Option<OBError>) -> (r: Result<
        OBFilterConfigSchemaItem,
        OBError,
    >)
        ensures
            error is Some ==> r == Err::<OBFilterConfigSchemaItem, OBError>(error->0),
            error is None && index < self@.len() ==> r is Ok && r->Ok_0@ == self@[index as int],
            error is None && index >= self@.len() ==> r is Err && r->Err_0@ == index_error(
                "OBFilterConfigSchemaList::get_filter_config_item"@,
                index as nat,
            ),
    {
        match OBError::consume(error) {
            Ok(()) => {
                if (index as usize) < self.items.len() {
                    Ok(self.items[index as usize].clone())
                } else {
                    Err(make_index_error("OBFilterConfigSchemaList::get_filter_config_item", index))
                }
            },
            Err(e) => Err(e),
        }
    }
}

/// A value of a filter's configuration. Each value is handed to the runtime
/// as a double, whatever it is by its meaning.
#[derive(Debug, Clone, Copy, PartialEq, Eq, Structural)]
pub enum OBConfigValue {
    /// A whole number, a switch as 0 or 1, or the code of an enumeration:
    /// handed over as the double of the same value
    Whole(u32),
    /// A 32-bit float: handed over widened to a double
    Float(Float32),
}

/// One named value of a filter's configuration.
#[derive(Debug)]
pub struct OBFilterSetting {
    pub name: String,
    pub value: OBConfigValue,
}

/// What the settings of a filter come to: for each name, the value that it
/// was last given.
pub open spec fn settings_map(settings: Seq<OBFilterSetting>) -> Map<Seq<char>, OBConfigValue>
    decreases settings.len(),
{
    if settings.len() == 0 {
        Map::empty()
    } else {
        settings_map(settings.drop_last()).insert(settings.last().name@, settings.last().value)
    }
}

/// A name that no setting bears has no value.
proof fn lemma_absent(settings: Seq<OBFilterSetting>, name: Seq<char>)
    requires
        forall|i: int| 0 <= i < settings.len() ==> settings[i].name@ != name,
    ensures
        !settings_map(settings).dom().contains(name),
    decreases settings.len(),
{
    if settings.len() > 0 {
        lemma_absent(settings.drop_last(), name);
    }
}

/// Replacing the value of the last setting that bears a name gives that name
/// its new value and leaves every other name its own.
proof fn lemma_replace(settings: Seq<OBFilterSetting>, index: int, setting: OBFilterSetting)
    requires
        0 <= index < settings.len(),
        settings[index].name@ == setting.name@,
        forall|j: int| index < j < settings.len() ==> settings[j].name@ != setting.name@,
    ensures
        settings_map(settings.update(index, setting)) == settings_map(settings).insert(
            setting.name@,
            setting.value,
        ),
    decreases settings.len(),
{
    let replaced = settings.update(index, setting);
    if index == settings.len() - 1 {
        assert(replaced.drop_last() =~= settings.drop_last());
        assert(settings_map(replaced) =~= settings_map(settings).insert(setting.name@, setting.value));
    } else {
        lemma_replace(settings.drop_last(), index, setting);
        assert(replaced.drop_last() =~= settings.drop_last().update(index, setting));
        assert(replaced.last() == settings.last());
        assert(settings.last().name@ != setting.name@);
        assert(settings_map(replaced) =~= settings_map(settings).insert(setting.name@, setting.value));
    }
}

/// What a filter is: its name, the values that it was given, and the profile
/// that it aligns to, if it was given one.
pub struct FilterView {
    pub name: Seq<char>,
    pub config: Map<Seq<char>, OBConfigValue>,
    pub align_to: Option<OBStreamProfile>,
}

impl FilterView {
    /// This filter after `name` was given `value`.
    pub open spec fn with_setting(self, name: Seq<char>, value: OBConfigValue) -> FilterView {
        FilterView { name: self.name, config: self.config.insert(name, value), align_to: self.align_to }
    }

    /// This filter after it was told to align to `profile`.
    pub open spec fn with_target(self, profile: OBStreamProfile) -> FilterView {
        FilterView { name: self.name, config: self.config, align_to: Some(profile) }
    }

    /// The filter of the given name that has been given nothing yet.
    pub open spec fn fresh(name: Seq<char>) -> FilterView {
        FilterView { name, config: Map::empty(), align_to: None }
    }

    /// Whether the filter still runs on the parameters that it was made with.
    pub open spec fn is_unconfigured(self) -> bool {
        self.config == Map::<Seq<char>, OBConfigValue>::empty() && self.align_to is None
    }
}

/// Generic Filter Class
#[derive(Debug)]
pub struct OBFilter {
    name: String,
    settings: Vec<OBFilterSetting>,
    align_to: Option<OBStreamProfile>,
}

impl View for OBFilter {
    type V = FilterView;

    closed spec fn view(&self) -> FilterView {
        FilterView { name: self.name@, config: settings_map(self.settings@), align_to: self.align_to }
    }
}

impl OBFilter {
    /// Create a filter object by name: `present` tells whether the runtime
    /// handed a filter over, `error` what it left in the error slot.
    ///
    /// A filter that the runtime does not have is `None`, which is no error. A
    /// new filter has been given nothing yet.
    pub fn new(name: &str, present: bool, error: Option<OBError>) -> (r: Result<Option<Self>, OBError>)
        ensures
            error is Some ==> r == Err::<Option<OBFilter>, OBError>(error->0),
            error is None && !present ==> r is Ok && r->Ok_0 is None,
            error is None && present ==> r is Ok && r->Ok_0 is Some && r->Ok_0->0@ == FilterView::fresh(
                name@,
            ),
    {
        match OBError::consume(error) {
            Ok(()) => {
                if present {
                    Ok(Some(OBFilter { name: String::from_str(name), settings: Vec::new(), align_to: None }))
                } else {
                    Ok(None)
                }
            },
            Err(e) => Err(e),
        }
    }

    /// The name of the filter.
    pub fn name(&self) -> (r: &str)
        ensures
            r@ == self@.name,
    {
        self.name.as_str()
    }

    /// The profile that the filter aligns to, if it was given one.
    pub fn align_target(&self) -> (r: Option<OBStreamProfile>)
        ensures
            r == self@.align_to,
    {
        self.align_to
    }

    /// Process the input frame and return the processed frame: `produced` is
    /// the frame that the runtime made, `error` what it left in the error
    /// slot. A frame that came with an error is not looked at.
    pub fn process(&self, input_frame: &OBFrame, produced: OBFrame, error: Option<OBError>) -> (r: Result<
        OBFrame,
        OBError,
    >)
        ensures
            error is None ==> r == Ok::<OBFrame, OBError>(produced),
            error is Some ==> r == Err::<OBFrame, OBError>(error->0),
    {
        match OBError::consume(error) {
            Ok(()) => Ok(produced),
            Err(e) => Err(e),
        }
    }

    /// Get the filter config schema list of the filter: `listed` is the list
    /// that the runtime handed over, `error` what it left in the error slot.
    pub fn get_config_schema_list(&self, listed: OBFilterConfigSchemaList, error: Option<OBError>) -> (r:
        Result<OBFilterConfigSchemaList, OBError>)
        ensures
            error is None ==> r == Ok::<OBFilterConfigSchemaList, OBError>(listed),
            error is Some ==> r == Err::<OBFilterConfigSchemaList, OBError>(error->0),
    {
        match OBError::consume(error) {
            Ok(()) => Ok(listed),
            Err(e) => Err(e),
        }
    }

    /// Get the filter config value by name and cast to double: `reported` is
    /// the double that the runtime answered with, `error` what it left in the
    /// error slot.
    pub fn get_config_value(&self, name: &str, reported: Float64, error: Option<OBError>) -> (r: Result<
        Float64,
        OBError,
    >)
        ensures
            error is None ==> r == Ok::<Float64, OBError>(reported),
            error is Some ==> r == Err::<Float64, OBError>(error->0),
    {
        match OBError::consume(error) {
            Ok(()) => Ok(reported),
            Err(e) => Err(e),
        }
    }

    /// The value that `name` was last given through this filter, if it was
    /// given one.
    pub fn configured(&self, name: &str) -> (r: Option<OBConfigValue>)
        ensures
            match r {
                Some(value) => self@.config.dom().contains(name@) && self@.config[name@] == value,
                None => !self@.config.dom().contains(name@),
            },
    {
        match self.find(name) {
            Some(index) => {
                let value = self.settings[index].value;
                proof {
                    let ghost setting = OBFilterSetting { name: self.settings@[index as int].name, value };
                    lemma_replace(self.settings@, index as int, setting);
                    assert(self.settings@.update(index as int, setting) =~= self.settings@);
                }
                Some(value)
            },
            None => {
                proof {
                    lemma_absent(self.settings@, name@);
                }
                None
            },
        }
    }

    /// Whether the filter still runs on the parameters that it was made with:
    /// no value and no profile has been given to it.
    pub fn is_unconfigured(&self) -> (r: bool)
        ensures
            r == self@.is_unconfigured(),
    {
        proof {
            if self.settings@.len() > 0 {
                assert(settings_map(self.settings@).dom().contains(self.settings@.last().name@));
            }
            assert(self.settings@.len() == 0 ==> settings_map(self.settings@) =~= Map::empty());
        }
        self.settings.len() == 0 && self.align_to.is_none()
    }

    /// The place of the last setting that bears `name`, if there is one.
    fn find(&self, name: &str) -> (r: Option<usize>)
        ensures
            match r {
                Some(index) => {
                    &&& index < self.settings@.len()
                    &&& self.settings@[index as int].name@ == name@
                    &&& forall|j: int| index < j < self.settings@.len() ==> self.settings@[j].name@ != name@
                },
                None => forall|i: int| 0 <= i < self.settings@.len() ==> self.settings@[i].name@ != name@,
            },
    {
        let key = String::from_str(name);
        let mut index: usize = self.settings.len();
        while index > 0
            invariant
                key@ == name@,
                0 <= index <= self.settings@.len(),
                forall|j: int| index <= j < self.settings@.len() ==> self.settings@[j].name@ != name@,
            decreases index,
        {
            index = index - 1;
            if self.settings[index].name == key {
                return Some(index);
            }
        }
        None
    }

    /// Set the filter config value by name: `error` is what the runtime left
    /// in the error slot.
    ///
    /// A value that the runtime took is from then on the value that the name
    /// was last given; nothing else changes. A value that it refused changes
    /// nothing.
    pub fn set_config_value(&mut self, name: &str, value: OBConfigValue, error: Option<OBError>) -> (r:
        Result<(), OBError>)
        ensures
            error is None ==> r is Ok && final(self)@ == old(self)@.with_setting(name@, value),
            error is Some ==> r == Err::<(), OBError>(error->0) && final(self)@ == old(self)@,
    {
        match OBError::consume(error) {
            Ok(()) => {
                let setting = OBFilterSetting { name: String::from_str(name), value };
                match self.find(name) {
                    Some(index) => {
                        proof {
                            lemma_replace(self.settings@, index as int, setting);
                        }
                        self.settings.set(index, setting);
                    },
                    None => {
                        proof {
                            assert(self.settings@.push(setting).drop_last() =~= self.settings@);
                        }
                        self.settings.push(setting);
                    },
                }
                Ok(())
            },
            Err(e) => Err(e),
        }
    }

    /// Set the stream profile to which the filter will align to: `error` is
    /// what the runtime left in the error slot.
    /// Only valid for Align filter
    pub fn set_align_to(&mut self, stream_profile: &OBStreamProfile, error: Option<OBError>) -> (r: Result<
        (),
        OBError,
    >)
        ensures
            error is None ==> r is Ok && final(self)@ == old(self)@.with_target(*stream_profile),
            error is Some ==> r == Err::<(), OBError>(error->0) && final(self)@ == old(self)@,
    {
        match OBError::consume(error) {
            Ok(()) => {
                self.align_to = Some(*stream_profile);
                Ok(())
            },
            Err(e) => Err(e),
        }
    }
}

} // verus!
