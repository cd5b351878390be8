//! The shared data shapes: properties, events and calendars.

use vstd::prelude::*;

verus! {

/// One named, optionally parameterized, optionally valued unit of structured
/// text data.  Both input contacts and output calendars are made of these.
/// Parameter order and parameter-value order are semantically significant and
/// are preserved through serialization.
#[derive(Debug, Clone, PartialEq)]
pub struct Property {
    /// Property name, matched case-sensitively by callers.
    pub name: String,
    /// Ordered mapping from parameter name to an ordered list of values.
    pub params: Option<Vec<(String, Vec<String>)>>,
    /// Property value, if any.
    pub value: Option<String>,
}

/// The mathematical model of a [`Property`]: every string replaced by its
/// character sequence.
#[verifier::ext_equal]
pub ghost struct PropertyModel {
    pub name: Seq<char>,
    pub params: Option<Seq<(Seq<char>, Seq<Seq<char>>)>>,
    pub value: Option<Seq<char>>,
}

/// The model of an optional parameter list.
pub open spec fn params_model(params: Option<Vec<(String, Vec<String>)>>) -> Option<
    Seq<(Seq<char>, Seq<Seq<char>>)>,
> {
    match params {
        Some(ps) => Some(ps.deep_view()),
        None => None,
    }
}

impl View for Property {
    type V = PropertyModel;

    open spec fn view(&self) -> PropertyModel {
        PropertyModel {
            name: self.name@,
            params: params_model(self.params),
            value: match self.value {
                Some(v) => Some(v@),
                None => None,
            },
        }
    }
}

impl DeepView for Property {
    type V = PropertyModel;

    open spec fn deep_view(&self) -> PropertyModel {
        self.view()
    }
}

/// Holds of a property model whose fields are exactly the given ones.
pub open spec fn prop_is(
    p: PropertyModel,
    name: Seq<char>,
    params: Option<Seq<(Seq<char>, Seq<Seq<char>>)>>,
    value: Option<Seq<char>>,
) -> bool {
    &&& p.name == name
    &&& p.params == params
    &&& p.value == value
}

/// A VALARM component.  Modeled for completeness; serialization rejects any
/// calendar or event that carries one.
#[derive(Debug, Clone, PartialEq)]
pub struct Alarm {
    pub properties: Vec<Property>,
}

impl DeepView for Alarm {
    type V = Seq<PropertyModel>;

    open spec fn deep_view(&self) -> Seq<PropertyModel> {
        self.properties.deep_view()
    }
}

/// A VFREEBUSY component.  Modeled for completeness; serialization rejects
/// any calendar that carries one.
#[derive(Debug, Clone, PartialEq)]
pub struct FreeBusy {
    pub properties: Vec<Property>,
}

/// A VJOURNAL component.  Modeled for completeness; serialization rejects
/// any calendar that carries one.
#[derive(Debug, Clone, PartialEq)]
pub struct Journal {
    pub properties: Vec<Property>,
}

/// A VTIMEZONE component.  Modeled for completeness; serialization rejects
/// any calendar that carries one.
#[derive(Debug, Clone, PartialEq)]
pub struct Timezone {
    pub properties: Vec<Property>,
}

/// A VTODO component.  Modeled for completeness; serialization rejects any
/// calendar that carries one.
#[derive(Debug, Clone, PartialEq)]
pub struct Todo {
    pub properties: Vec<Property>,
    pub alarms: Vec<Alarm>,
}

/// One VEVENT: an ordered list of properties.  The alarm collection is
/// modeled but must stay empty for serialization to succeed.
#[derive(Debug, Clone, PartialEq)]
pub struct Event {
    pub properties: Vec<Property>,
    pub alarms: Vec<Alarm>,
}

/// The mathematical model of an [`Event`].
#[verifier::ext_equal]
pub ghost struct EventModel {
    pub properties: Seq<PropertyModel>,
    pub alarms: Seq<Seq<PropertyModel>>,
}

impl View for Event {
    type V = EventModel;

    open spec fn view(&self) -> EventModel {
        EventModel { properties: self.properties.deep_view(), alarms: self.alarms.deep_view() }
    }
}

impl DeepView for Event {
    type V = EventModel;

    open spec fn deep_view(&self) -> EventModel {
        self.view()
    }
}

/// An ordered list of top-level properties plus a list of events.  The other
/// sub-collections exist in the model for completeness but must be empty for
/// serialization to succeed.
#[derive(Debug, Clone, PartialEq)]
pub struct Calendar {
    pub properties: Vec<Property>,
    pub events: Vec<Event>,
    pub alarms: Vec<Alarm>,
    pub todos: Vec<Todo>,
    pub journals: Vec<Journal>,
    pub free_busys: Vec<FreeBusy>,
    pub timezones: Vec<Timezone>,
}

} // verus!
