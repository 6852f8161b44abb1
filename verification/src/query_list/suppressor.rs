use vstd::prelude::*;
use vstd::string::StringExecFns;
use crate::query_list::condition::Condition;
use crate::query_list::markup::{copied, system_clause, written};

verus! {

/// A suppressor as a plain value.
pub struct Suppression {
    /// The channel whose events are suppressed.
    pub path: Option<Seq<char>>,
    /// The condition on the system part of an event, as it is written.
    pub conditions: Option<Seq<char>>,
}

impl Suppression {
    /// The suppressor as it is written in a query, each part on a line of
    /// its own; nothing for a suppressor without a path.
    pub open spec fn text(self) -> Seq<char> {
        match self.path {
            Some(path) => "<Suppress Path=\""@ + path + "\">"@ + (match self.conditions {
                Some(c) => "\n"@ + system_clause(c),
                None => Seq::empty(),
            }) + "\n</Suppress>"@,
            None => Seq::empty(),
        }
    }
}

/// Suppresses the events of a channel.
pub struct Suppressor {
    path: Option<String>,
    conditions: Option<Condition>,
}

impl View for Suppressor {
    type V = Suppression;

    closed spec fn view(&self) -> Suppression {
        Suppression {
            path: match self.path {
                Some(path) => Some(path@),
                None => None,
            },
            conditions: written(self.conditions),
        }
    }
}

impl Suppressor {
    pub fn new(path: String) -> (r: Suppressor)
        ensures
            r@ == (Suppression { path: Some(path@), conditions: None }),
    {
        Suppressor { path: Some(path), conditions: None }
    }

    pub fn to_string(&self) -> (s: String)
        ensures
            s@ == self@.text(),
    {
        match &self.path {
            Some(path) => {
                let mut s = String::from_str("<Suppress Path=\"");
                s.append(path.as_str());
                s.append("\">");
                if let Some(c) = &self.conditions {
                    s.append("\n");
                    s.append("*[System[");
                    s.append(c.to_string().as_str());
                    s.append("]]");
                }
                assert(s@ =~= "<Suppress Path=\""@ + path@ + "\">"@ + (match written(self.conditions) {
                    Some(c) => "\n"@ + system_clause(c),
                    None => Seq::empty(),
                }));
                s.append("\n</Suppress>");
                s
            },
            None => String::new(),
        }
    }
}

impl Clone for Suppressor {
    fn clone(&self) -> (r: Self)
        ensures
            r@ == self@,
    {
        Suppressor {
            path: match &self.path {
                Some(path) => Some(path.clone()),
                None => None,
            },
            conditions: copied(&self.conditions),
        }
    }
}

} // verus!
