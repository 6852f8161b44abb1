use vstd::prelude::*;
use vstd::string::StringExecFns;
use crate::query_list::condition::Condition;
use crate::query_list::markup::{copied, element, write_element, written};

verus! {

/// A selector as a plain value.
pub struct Selection {
    /// The channel that the selector reads.
    pub path: Option<Seq<char>>,
    /// The condition on the system part of an event, as it is written.
    pub system: Option<Seq<char>>,
    /// The condition on the data of an event, as it is written.
    pub data: Option<Seq<char>>,
}

impl Selection {
    /// The selector as it is written in a query; nothing for a selector
    /// without a path.
    pub open spec fn text(self) -> Seq<char> {
        match self.path {
            Some(path) => element("Select"@, path, self.system, self.data),
            None => Seq::empty(),
        }
    }
}

/// Selects the events of a channel that meet its conditions.
pub struct Selector {
    path: Option<String>,
    system_conditions: Option<Condition>,
    event_data_conditions: Option<Condition>,
}

impl View for Selector {
    type V = Selection;

    closed spec fn view(&self) -> Selection {
        Selection {
            path: match self.path {
                Some(path) => Some(path@),
                None => None,
            },
            system: written(self.system_conditions),
            data: written(self.event_data_conditions),
        }
    }
}

impl Selector {
    pub fn new(path: String) -> (r: Selector)
        ensures
            r@ == (Selection { path: Some(path@), system: None, data: None }),
    {
        Selector { path: Some(path), system_conditions: None, event_data_conditions: None }
    }

    /// Sets the condition on the system part of an event.
    pub fn system_conditions(&mut self, conditions: Condition) -> (r: &mut Self)
        ensures
            r@ == (Selection { system: Some(conditions.text()), ..old(self)@ }),
            *final(self) == *final(r),
    {
        self.system_conditions = Some(conditions);
        self
    }

    /// Sets the condition on the data of an event.
    pub fn event_conditions(&mut self, conditions: Condition) -> (r: &mut Self)
        ensures
            r@ == (Selection { data: Some(conditions.text()), ..old(self)@ }),
            *final(self) == *final(r),
    {
        self.event_data_conditions = Some(conditions);
        self
    }

    /// The selector as it stands, for use in a query.
    pub fn build(&self) -> (r: Selector)
        ensures
            r@ == self@,
    {
        Selector {
            path: match &self.path {
                Some(path) => Some(path.clone()),
                None => None,
            },
            system_conditions: copied(&self.system_conditions),
            event_data_conditions: copied(&self.event_data_conditions),
        }
    }

    pub fn to_string(&self) -> (s: String)
        ensures
            s@ == self@.text(),
    {
        match &self.path {
            Some(path) => write_element(
                "Select",
                path.as_str(),
                &self.system_conditions,
                &self.event_data_conditions,
            ),
            None => String::new(),
        }
    }
}

impl Clone for Selector {
    fn clone(&self) -> (r: Self)
        ensures
            r@ == self@,
    {
        self.build()
    }
}

} // verus!
