//! The markup of one item of a query: an element with a path, and in it the
//! conditions on the system part and on the data of an event.

use vstd::prelude::*;
use vstd::string::StringExecFns;
use crate::query_list::condition::Condition;
use crate::text::join;

verus! {

/// The text of a condition that may be there.
pub open spec fn written(condition: Option<Condition>) -> Option<Seq<char>> {
    match condition {
        Some(c) => Some(c.text()),
        None => None,
    }
}

/// The condition on the system part of an event, as a clause.
pub open spec fn system_clause(condition: Seq<char>) -> Seq<char> {
    "*[System["@ + condition + "]]"@
}

/// The condition on the data of an event, as a clause.
pub open spec fn data_clause(condition: Seq<char>) -> Seq<char> {
    "*[EventData["@ + condition + "]]"@
}

/// The clauses of an item: the one on the system part first.
pub open spec fn clauses(system: Option<Seq<char>>, data: Option<Seq<char>>) -> Seq<Seq<char>> {
    (match system {
        Some(c) => seq![system_clause(c)],
        None => Seq::empty(),
    }) + (match data {
        Some(c) => seq![data_clause(c)],
        None => Seq::empty(),
    })
}

/// An element with its path and its clauses, which stand on lines of their
/// own with `and` between them.
pub open spec fn element(
    tag: Seq<char>,
    path: Seq<char>,
    system: Option<Seq<char>>,
    data: Option<Seq<char>>,
) -> Seq<char> {
    "<"@ + tag + " Path=\""@ + path + "\">\n"@ + join(clauses(system, data), "\nand\n"@) + "\n</"@
        + tag + ">"@
}

/// A copy of a condition that may be there.
pub fn copied(condition: &Option<Condition>) -> (r: Option<Condition>)
    ensures
        written(r) == written(*condition),
{
    match condition {
        Some(c) => Some(c.clone()),
        None => None,
    }
}

/// Writes an element: see [`element`].
pub fn write_element(
    tag: &str,
    path: &str,
    system: &Option<Condition>,
    data: &Option<Condition>,
) -> (s: String)
    ensures
        s@ == element(tag@, path@, written(*system), written(*data)),
{
    let mut s = String::from_str("<");
    s.append(tag);
    s.append(" Path=\"");
    s.append(path);
    s.append("\">\n");
    let ghost head = s@;
    let ghost parts = clauses(written(*system), written(*data));
    if let Some(c) = system {
        s.append("*[System[");
        s.append(c.to_string().as_str());
        s.append("]]");
    }
    if let Some(c) = data {
        if system.is_some() {
            s.append("\nand\n");
        }
        s.append("*[EventData[");
        s.append(c.to_string().as_str());
        s.append("]]");
    }
    proof {
        if parts.len() == 2 {
            assert(parts.drop_last() =~= seq![parts[0]]);
            assert(join(parts.drop_last(), "\nand\n"@) == parts[0]);
        }
        assert(s@ =~= head + join(parts, "\nand\n"@));
    }
    s.append("\n</");
    s.append(tag);
    s.append(">");
    s
}

} // verus!
