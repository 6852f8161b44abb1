use vstd::prelude::*;
use vstd::string::StringExecFns;
use crate::query_list::Comparison;
use crate::text::IntoText;

pub mod computer;
pub mod data;
pub mod event;
pub mod level;
pub mod provider;
pub mod time;
pub mod user;

verus! {

/// A filter on the system part of an event.
pub enum SystemFilter {
    Computer(computer::Computer),
    EventID(event::Event),
    Level(level::Level),
    Provider(provider::Provider),
    TimeCreated(time::TimeCreated),
}

impl SystemFilter {
    /// The filter as it is written in a query.
    pub open spec fn text(&self) -> Seq<char> {
        match *self {
            SystemFilter::Computer(item) => item.text(),
            SystemFilter::EventID(item) => item.text(),
            SystemFilter::Level(item) => item.text(),
            SystemFilter::Provider(item) => item.text(),
            SystemFilter::TimeCreated(item) => item.text(),
        }
    }

    pub fn to_string(&self) -> (s: String)
        ensures
            s@ == self.text(),
    {
        match self {
            SystemFilter::Computer(item) => item.to_string(),
            SystemFilter::EventID(item) => item.to_string(),
            SystemFilter::Level(item) => item.to_string(),
            SystemFilter::Provider(item) => item.to_string(),
            SystemFilter::TimeCreated(item) => item.to_string(),
        }
    }
}

impl Clone for SystemFilter {
    fn clone(&self) -> (r: Self)
        ensures
            r.text() == self.text(),
    {
        match self {
            SystemFilter::Computer(item) => SystemFilter::Computer(item.clone()),
            SystemFilter::EventID(item) => SystemFilter::EventID(item.clone()),
            SystemFilter::Level(item) => SystemFilter::Level(item.clone()),
            SystemFilter::Provider(item) => SystemFilter::Provider(item.clone()),
            SystemFilter::TimeCreated(item) => SystemFilter::TimeCreated(item.clone()),
        }
    }
}

/// A filter on the data of an event: a name and the value that goes with it.
pub struct EventDataFilter {
    name: data::Name,
    value: data::Value,
}

impl View for EventDataFilter {
    /// The name and the value.
    type V = (Seq<char>, Seq<char>);

    closed spec fn view(&self) -> (Seq<char>, Seq<char>) {
        (self.name@, self.value@)
    }
}

impl EventDataFilter {
    /// The filter as it is written in a query.
    pub open spec fn text(&self) -> Seq<char> {
        "(Data[@Name = '"@ + self@.0 + "'] and Data = '"@ + self@.1 + "')"@
    }

    pub fn new<T: IntoText>(name: T, value: T) -> (r: EventDataFilter)
        ensures
            r@ == (name.text(), value.text()),
    {
        EventDataFilter { name: data::Name::new(name), value: data::Value::new(value) }
    }

    pub fn to_string(&self) -> (s: String)
        ensures
            s@ == self.text(),
    {
        let mut s = String::from_str("(");
        s.append(self.name.to_string().as_str());
        s.append(" and ");
        s.append(self.value.to_string().as_str());
        s.append(")");
        proof {
            reveal_strlit("(");
            reveal_strlit(" and ");
            reveal_strlit(")");
            reveal_strlit("Data[@Name = '");
            reveal_strlit("']");
            reveal_strlit("Data = '");
            reveal_strlit("'");
            reveal_strlit("(Data[@Name = '");
            reveal_strlit("'] and Data = '");
            reveal_strlit("')");
            assert(s@ =~= self.text());
        }
        s
    }
}

impl Clone for EventDataFilter {
    fn clone(&self) -> (r: Self)
        ensures
            r@ == self@,
    {
        EventDataFilter { name: self.name.clone(), value: self.value.clone() }
    }
}

/// A filter on one property of an event.
pub enum EventFilter {
    System(SystemFilter),
    EventData(EventDataFilter),
}

impl EventFilter {
    /// The filter as it is written in a query.
    pub open spec fn text(&self) -> Seq<char> {
        match *self {
            EventFilter::System(item) => item.text(),
            EventFilter::EventData(item) => item.text(),
        }
    }

    pub fn computer<T: IntoText>(name: T) -> (r: EventFilter)
        ensures
            r matches EventFilter::System(SystemFilter::Computer(c)) && c@ == name.text(),
    {
        EventFilter::System(SystemFilter::Computer(computer::Computer::new(name)))
    }

    pub fn event(id: u32) -> (r: EventFilter)
        ensures
            r matches EventFilter::System(SystemFilter::EventID(e)) && e@ == id,
    {
        EventFilter::System(SystemFilter::EventID(event::Event::new(id)))
    }

    pub fn level(level: u32, comparison: Comparison) -> (r: EventFilter)
        ensures
            r matches EventFilter::System(SystemFilter::Level(l)) && l@ == (level, comparison),
    {
        EventFilter::System(SystemFilter::Level(level::Level::new(level, comparison)))
    }

    pub fn provider<T: IntoText>(name: T) -> (r: EventFilter)
        ensures
            r matches EventFilter::System(SystemFilter::Provider(p)) && p@ == name.text(),
    {
        EventFilter::System(SystemFilter::Provider(provider::Provider::new(name)))
    }

    pub fn event_data<T: IntoText>(name: T, value: T) -> (r: EventFilter)
        ensures
            r matches EventFilter::EventData(d) && d@ == (name.text(), value.text()),
    {
        EventFilter::EventData(EventDataFilter::new(name, value))
    }

    pub fn time(time: &str, comparison: time::TimeComparison, time_diff: time::TimeDiff) -> (r:
        EventFilter)
        ensures
            r matches EventFilter::System(SystemFilter::TimeCreated(t)) && t@ == (
                time_diff.operand(time@),
                comparison,
                time_diff,
            ),
    {
        EventFilter::System(
            SystemFilter::TimeCreated(time::TimeCreated::new(time, comparison, time_diff)),
        )
    }

    pub fn to_string(&self) -> (s: String)
        ensures
            s@ == self.text(),
    {
        match self {
            EventFilter::System(item) => item.to_string(),
            EventFilter::EventData(item) => item.to_string(),
        }
    }
}

impl Clone for EventFilter {
    fn clone(&self) -> (r: Self)
        ensures
            r.text() == self.text(),
    {
        match self {
            EventFilter::System(item) => EventFilter::System(item.clone()),
            EventFilter::EventData(item) => EventFilter::EventData(item.clone()),
        }
    }
}

} // verus!
