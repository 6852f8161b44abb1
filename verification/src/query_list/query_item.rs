use vstd::prelude::*;
use vstd::string::StringExecFns;
use crate::query_list::condition::Condition;
use crate::query_list::markup::{copied, element, write_element, written};
use crate::text::IntoText;

verus! {

/// Whether an item selects events or suppresses them.
#[derive(Clone, Copy, Debug, PartialEq, Eq, Structural)]
pub enum QueryItemType {
    Suppressor,
    Selector,
}

impl QueryItemType {
    /// The name of the element that the item is written as.
    pub open spec fn text(self) -> Seq<char> {
        match self {
            QueryItemType::Suppressor => "Suppress"@,
            QueryItemType::Selector => "Select"@,
        }
    }

    pub fn as_str(&self) -> (s: &'static str)
        ensures
            s@ == self.text(),
    {
        match self {
            QueryItemType::Suppressor => "Suppress",
            QueryItemType::Selector => "Select",
        }
    }

    pub fn to_string(&self) -> (s: String)
        ensures
            s@ == self.text(),
    {
        String::from_str(self.as_str())
    }
}

/// An item of a query as a plain value.
pub struct Item {
    pub kind: QueryItemType,
    /// The channel that the item reads.
    pub path: Option<Seq<char>>,
    /// The condition on the system part of an event, as it is written.
    pub system: Option<Seq<char>>,
    /// The condition on the data of an event, as it is written.
    pub data: Option<Seq<char>>,
}

impl Item {
    /// The item as it is written in a query; nothing for an item without a
    /// path.
    pub open spec fn text(self) -> Seq<char> {
        match self.path {
            Some(path) => element(self.kind.text(), path, self.system, self.data),
            None => Seq::empty(),
        }
    }
}

/// One item of a query: a channel and the conditions under which its events
/// are selected or suppressed.
pub struct QueryItem {
    query_item_type: QueryItemType,
    path: Option<String>,
    system_conditions: Option<Condition>,
    event_data_conditions: Option<Condition>,
}

impl View for QueryItem {
    type V = Item;

    closed spec fn view(&self) -> Item {
        Item {
            kind: self.query_item_type,
            path: match self.path {
                Some(path) => Some(path@),
                None => None,
            },
            system: written(self.system_conditions),
            data: written(self.event_data_conditions),
        }
    }
}

impl QueryItem {
    pub fn new<T: IntoText>(item_type: QueryItemType, path: T) -> (r: QueryItem)
        ensures
            r@ == (Item { kind: item_type, path: Some(path.text()), system: None, data: None }),
    {
        QueryItem {
            query_item_type: item_type,
            path: Some(path.into_text()),
            system_conditions: None,
            event_data_conditions: None,
        }
    }

    pub fn selector<T: IntoText>(path: T) -> (r: QueryItem)
        ensures
            r@ == (Item {
                kind: QueryItemType::Selector,
                path: Some(path.text()),
                system: None,
                data: None,
            }),
    {
        QueryItem::new(QueryItemType::Selector, path)
    }

    pub fn suppressor<T: IntoText>(path: T) -> (r: QueryItem)
        ensures
            r@ == (Item {
                kind: QueryItemType::Suppressor,
                path: Some(path.text()),
                system: None,
                data: None,
            }),
    {
        QueryItem::new(QueryItemType::Suppressor, path)
    }

    /// Sets the condition on the system part of an event.
    pub fn system_conditions(&mut self, conditions: Condition) -> (r: &mut Self)
        ensures
            r@ == (Item { system: Some(conditions.text()), ..old(self)@ }),
            *final(self) == *final(r),
    {
        self.system_conditions = Some(conditions);
        self
    }

    /// Sets the condition on the data of an event.
    pub fn event_conditions(&mut self, conditions: Condition) -> (r: &mut Self)
        ensures
            r@ == (Item { data: Some(conditions.text()), ..old(self)@ }),
            *final(self) == *final(r),
    {
        self.event_data_conditions = Some(conditions);
        self
    }

    /// The item as it stands, for use in a query.
    pub fn build(&self) -> (r: Self)
        ensures
            r@ == self@,
    {
        QueryItem {
            query_item_type: self.query_item_type,
            path: match &self.path {
                Some(path) => Some(path.clone()),
                None => None,
            },
            system_conditions: copied(&self.system_conditions),
            event_data_conditions: copied(&self.event_data_conditions),
        }
    }

    pub fn to_string(&self) -> (s: String)
        ensures
            s@ == self@.text(),
    {
        match &self.path {
            Some(path) => write_element(
                self.query_item_type.as_str(),
                path.as_str(),
                &self.system_conditions,
                &self.event_data_conditions,
            ),
            None => String::new(),
        }
    }
}

impl Clone for QueryItem {
    fn clone(&self) -> (r: Self)
        ensures
            r@ == self@,
    {
        self.build()
    }
}

} // verus!
