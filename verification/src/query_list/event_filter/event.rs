use vstd::prelude::*;
use vstd::string::StringExecFns;
use crate::text::{decimal, push_decimal};

verus! {

/// Matches the events with one event identifier.
pub struct Event {
    id: u32,
}

impl View for Event {
    type V = u32;

    closed spec fn view(&self) -> u32 {
        self.id
    }
}

impl Event {
    /// The filter as it is written in a query.
    pub open spec fn text(&self) -> Seq<char> {
        "EventID = "@ + decimal(self@ as nat)
    }

    pub fn new(id: u32) -> (r: Event)
        ensures
            r@ == id,
    {
        Event { id }
    }

    pub fn to_string(&self) -> (s: String)
        ensures
            s@ == self.text(),
    {
        let mut s = String::from_str("EventID = ");
        push_decimal(&mut s, self.id as u64);
        s
    }
}

impl Clone for Event {
    fn clone(&self) -> (r: Self)
        ensures
            r@ == self@,
    {
        Event { id: self.id }
    }
}

} // verus!
