use vstd::prelude::*;
use vstd::string::StringExecFns;
use crate::query_list::event_filter::EventFilter;
use crate::text::{join, lemma_join_push};

verus! {

/// A condition on events: one filter, or conditions of which any or all
/// must hold.
pub enum Condition {
    ConditionItem(EventFilter),
    ConditionOr(Vec<Condition>),
    ConditionAnd(Vec<Condition>),
}

impl Condition {
    /// The text of each condition of a list, in order.
    pub open spec fn texts(items: Seq<Condition>) -> Seq<Seq<char>>
        decreases items,
    {
        Seq::new(
            items.len(),
            |i: int|
                if 0 <= i < items.len() {
                    items[i].text()
                } else {
                    Seq::empty()
                },
        )
    }

    /// The condition as it is written in a query: always in brackets, the
    /// parts of a list joined by the word that relates them.
    pub open spec fn text(&self) -> Seq<char>
        decreases self,
    {
        match *self {
            Condition::ConditionItem(item) => "("@ + item.text() + ")"@,
            Condition::ConditionOr(items) => "("@ + join(Condition::texts(items@), " or "@) + ")"@,
            Condition::ConditionAnd(items) => "("@ + join(Condition::texts(items@), " and "@) + ")"@,
        }
    }

    /// The condition that one filter holds.
    pub fn filter(filter: EventFilter) -> (r: Condition)
        ensures
            r == Condition::ConditionItem(filter),
    {
        Condition::ConditionItem(filter)
    }

    /// The condition that any of the given conditions holds.
    pub fn or(filters: Vec<Condition>) -> (r: Condition)
        ensures
            r == Condition::ConditionOr(filters),
    {
        Condition::ConditionOr(filters)
    }

    /// The condition that all of the given conditions hold.
    pub fn and(filters: Vec<Condition>) -> (r: Condition)
        ensures
            r == Condition::ConditionAnd(filters),
    {
        Condition::ConditionAnd(filters)
    }

    fn joined(&self, items: &Vec<Condition>, word: &str) -> (s: String)
        requires
            decreases_to!(*self => *items),
        ensures
            s@ == "("@ + join(Condition::texts(items@), word@) + ")"@,
        decreases self, 0int,
    {
        let mut s = String::from_str("(");
        let ghost mut parts: Seq<Seq<char>> = Seq::empty();
        let mut i: usize = 0;
        while i < items.len()
            invariant
                i <= items.len(),
                parts.len() == i,
                forall|j: int| 0 <= j < i ==> parts[j] == items@[j].text(),
                s@ == "("@ + join(parts, word@),
                decreases_to!(*self => *items),
            decreases items.len() - i,
        {
            if i > 0 {
                s.append(word);
            }
            proof {
                assert(decreases_to!(*items => items[i as int]));
            }
            let part = items[i].to_string();
            s.append(part.as_str());
            proof {
                lemma_join_push(parts, word@, part@);
                parts = parts.push(part@);
            }
            i = i + 1;
        }
        s.append(")");
        proof {
            assert(parts == Condition::texts(items@));
        }
        s
    }

    pub fn to_string(&self) -> (s: String)
        ensures
            s@ == self.text(),
        decreases self, 1int,
    {
        match self {
            Condition::ConditionItem(item) => {
                let mut s = String::from_str("(");
                s.append(item.to_string().as_str());
                s.append(")");
                s
            },
            Condition::ConditionOr(items) => {
                proof {
                    assert(decreases_to!(*self => self->ConditionOr_0));
                }
                self.joined(items, " or ")
            },
            Condition::ConditionAnd(items) => {
                proof {
                    assert(decreases_to!(*self => self->ConditionAnd_0));
                }
                self.joined(items, " and ")
            },
        }
    }

    fn copied(&self, items: &Vec<Condition>) -> (r: Vec<Condition>)
        requires
            decreases_to!(*self => *items),
        ensures
            Condition::texts(r@) == Condition::texts(items@),
        decreases self, 0int,
    {
        let mut out: Vec<Condition> = Vec::new();
        let mut i: usize = 0;
        while i < items.len()
            invariant
                i <= items.len(),
                out@.len() == i,
                forall|j: int| 0 <= j < i ==> out@[j].text() == items@[j].text(),
                decreases_to!(*self => *items),
            decreases items.len() - i,
        {
            proof {
                assert(decreases_to!(*items => items[i as int]));
            }
            out.push(items[i].clone());
            i = i + 1;
        }
        assert(Condition::texts(out@) =~= Condition::texts(items@));
        out
    }
}

impl Clone for Condition {
    fn clone(&self) -> (r: Self)
        ensures
            r.text() == self.text(),
        decreases self, 1int,
    {
        match self {
            Condition::ConditionItem(item) => Condition::ConditionItem(item.clone()),
            Condition::ConditionOr(items) => {
                proof {
                    assert(decreases_to!(*self => self->ConditionOr_0));
                }
                Condition::ConditionOr(self.copied(items))
            },
            Condition::ConditionAnd(items) => {
                proof {
                    assert(decreases_to!(*self => self->ConditionAnd_0));
                }
                Condition::ConditionAnd(self.copied(items))
            },
        }
    }
}

} // verus!
