use vstd::prelude::*;
use vstd::string::StringExecFns;
use crate::query_list::Comparison;
use crate::text::{decimal, push_decimal};

verus! {

/// Matches the events whose level compares to a given level.
pub struct Level {
    level: u32,
    comparison: Comparison,
}

impl View for Level {
    type V = (u32, Comparison);

    closed spec fn view(&self) -> (u32, Comparison) {
        (self.level, self.comparison)
    }
}

impl Level {
    /// The filter as it is written in a query.
    pub open spec fn text(&self) -> Seq<char> {
        "Level "@ + self@.1.text() + " "@ + decimal(self@.0 as nat)
    }

    pub fn new(level: u32, comparison: Comparison) -> (r: Level)
        ensures
            r@ == (level, comparison),
    {
        Level { level, comparison }
    }

    pub fn to_string(&self) -> (s: String)
        ensures
            s@ == self.text(),
    {
        let mut s = String::from_str("Level ");
        s.append(self.comparison.as_str());
        s.append(" ");
        push_decimal(&mut s, self.level as u64);
        s
    }
}

impl Clone for Level {
    fn clone(&self) -> (r: Self)
        ensures
            r@ == self@,
    {
        Level { level: self.level, comparison: self.comparison }
    }
}

} // verus!
