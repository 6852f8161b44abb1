use vstd::prelude::*;
use vstd::string::StringExecFns;

verus! {

/// Comparison conditions supported by the Windows Event Log, written so
/// that they can stand inside markup.
#[derive(Clone, Copy, Debug, PartialEq, Eq, Structural)]
pub enum TimeComparison {
    Equal,
    GreaterThan,
    LessThan,
    GreaterThanOrEqual,
    LessThanOrEqual,
}

impl TimeComparison {
    /// The operator as it is written in a query.
    pub open spec fn text(self) -> Seq<char> {
        match self {
            TimeComparison::Equal => "="@,
            TimeComparison::GreaterThan => "&gt;"@,
            TimeComparison::LessThan => "&lt;"@,
            TimeComparison::GreaterThanOrEqual => "&gt;="@,
            TimeComparison::LessThanOrEqual => "&lt;="@,
        }
    }

    pub fn as_str(&self) -> (s: &'static str)
        ensures
            s@ == self.text(),
    {
        match self {
            TimeComparison::Equal => "=",
            TimeComparison::GreaterThan => "&gt;",
            TimeComparison::LessThan => "&lt;",
            TimeComparison::GreaterThanOrEqual => "&gt;=",
            TimeComparison::LessThanOrEqual => "&lt;=",
        }
    }

    pub fn to_string(&self) -> (s: String)
        ensures
            s@ == self.text(),
    {
        String::from_str(self.as_str())
    }
}

/// What the time of an event is compared with: the time that has passed
/// since, or a point in time.
#[derive(Clone, Copy, Debug, PartialEq, Eq, Structural)]
pub enum TimeDiff {
    InLast,
    InRange,
}

impl TimeDiff {
    /// The left side of the comparison as it is written in a query.
    pub open spec fn text(self) -> Seq<char> {
        match self {
            TimeDiff::InLast => "timediff(@SystemTime)"@,
            TimeDiff::InRange => "@SystemTime"@,
        }
    }

    /// The right side of the comparison: a span of time stands as it is, a
    /// point in time is quoted.
    pub open spec fn operand(self, time: Seq<char>) -> Seq<char> {
        match self {
            TimeDiff::InLast => time,
            TimeDiff::InRange => "'"@ + time + "'"@,
        }
    }

    pub fn as_str(&self) -> (s: &'static str)
        ensures
            s@ == self.text(),
    {
        match self {
            TimeDiff::InLast => "timediff(@SystemTime)",
            TimeDiff::InRange => "@SystemTime",
        }
    }

    pub fn to_string(&self) -> (s: String)
        ensures
            s@ == self.text(),
    {
        String::from_str(self.as_str())
    }
}

/// Matches the events by the time at which they were created.
pub struct TimeCreated {
    time: String,
    comparison: TimeComparison,
    time_diff: TimeDiff,
}

impl View for TimeCreated {
    /// The right side of the comparison, the comparison, and the left side.
    type V = (Seq<char>, TimeComparison, TimeDiff);

    closed spec fn view(&self) -> (Seq<char>, TimeComparison, TimeDiff) {
        (self.time@, self.comparison, self.time_diff)
    }
}

impl TimeCreated {
    /// The filter as it is written in a query.
    pub open spec fn text(&self) -> Seq<char> {
        "TimeCreated["@ + self@.2.text() + " "@ + self@.1.text() + " "@ + self@.0 + "]"@
    }

    pub fn new(time: &str, comparison: TimeComparison, time_diff: TimeDiff) -> (r: TimeCreated)
        ensures
            r@ == (time_diff.operand(time@), comparison, time_diff),
    {
        let time = match time_diff {
            TimeDiff::InLast => String::from_str(time),
            TimeDiff::InRange => {
                let mut s = String::from_str("'");
                s.append(time);
                s.append("'");
                s
            },
        };
        TimeCreated { time, comparison, time_diff }
    }

    pub fn to_string(&self) -> (s: String)
        ensures
            s@ == self.text(),
    {
        let mut s = String::from_str("TimeCreated[");
        s.append(self.time_diff.as_str());
        s.append(" ");
        s.append(self.comparison.as_str());
        s.append(" ");
        s.append(self.time.as_str());
        s.append("]");
        s
    }
}

impl Clone for TimeCreated {
    fn clone(&self) -> (r: Self)
        ensures
            r@ == self@,
    {
        TimeCreated { time: self.time.clone(), comparison: self.comparison, time_diff: self.time_diff }
    }
}

} // verus!
