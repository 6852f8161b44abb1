use vstd::prelude::*;
use vstd::string::StringExecFns;
use crate::text::{decimal, push_decimal, IntoText};

pub use self::condition::Condition;
pub use self::event_filter::EventFilter;
pub use self::query_item::{Item, QueryItem, QueryItemType};

pub mod condition;
pub mod event_filter;
pub mod markup;
pub mod query_item;
pub mod selector;
pub mod suppressor;

verus! {

/// Comparison conditions supported by the Windows Event Log
#[derive(Clone, Copy, Debug, PartialEq, Eq, Structural)]
pub enum Comparison {
    Equal,
    GreaterThan,
    LessThan,
    GreaterThanOrEqual,
    LessThanOrEqual,
}

impl Comparison {
    /// The operator as it is written in a query.
    pub open spec fn text(self) -> Seq<char> {
        match self {
            Comparison::Equal => "="@,
            Comparison::GreaterThan => ">"@,
            Comparison::LessThan => "<"@,
            Comparison::GreaterThanOrEqual => ">="@,
            Comparison::LessThanOrEqual => "<="@,
        }
    }

    pub fn as_str(&self) -> (s: &'static str)
        ensures
            s@ == self.text(),
    {
        match self {
            Comparison::Equal => "=",
            Comparison::GreaterThan => ">",
            Comparison::LessThan => "<",
            Comparison::GreaterThanOrEqual => ">=",
            Comparison::LessThanOrEqual => "<=",
        }
    }

    pub fn to_string(&self) -> (s: String)
        ensures
            s@ == self.text(),
    {
        String::from_str(self.as_str())
    }
}

/// The items of a query as they are written: each on lines of its own.
pub open spec fn query_text(items: Seq<Item>) -> Seq<char>
    decreases items.len(),
{
    if items.len() == 0 {
        Seq::empty()
    } else {
        query_text(items.drop_last()) + items.last().text() + "\n"@
    }
}

/// The queries of a list as they are written: each in an element that
/// carries its place in the list, counted from zero.
pub open spec fn queries_text(queries: Seq<Seq<Item>>) -> Seq<char>
    decreases queries.len(),
{
    if queries.len() == 0 {
        Seq::empty()
    } else {
        queries_text(queries.drop_last()) + "\n<Query Id=\""@ + decimal((queries.len() - 1) as nat)
            + "\">\n"@ + query_text(queries.last()) + "</Query>"@
    }
}

/// A list of queries as it is handed to the event log.
pub open spec fn list_text(queries: Seq<Seq<Item>>) -> Seq<char> {
    "<QueryList>"@ + queries_text(queries) + "\n</QueryList>"@
}

/// A query: items that select and suppress events.
pub struct Query {
    items: Vec<QueryItem>,
}

impl View for Query {
    type V = Seq<Item>;

    closed spec fn view(&self) -> Seq<Item> {
        Seq::new(self.items@.len(), |i: int| self.items@[i]@)
    }
}

impl Default for Query {
    fn default() -> (r: Self)
        ensures
            r@ == Seq::<Item>::empty(),
    {
        let r = Query { items: Vec::new() };
        assert(r@ =~= Seq::<Item>::empty());
        r
    }
}

impl Query {
    /// Create a new `Query`
    pub fn new() -> (r: Query)
        ensures
            r@ == Seq::<Item>::empty(),
    {
        let r = Query { items: Vec::new() };
        assert(r@ =~= Seq::<Item>::empty());
        r
    }

    /// Add `QueryItem` to `Query`
    pub fn item(&mut self, item: QueryItem) -> (r: &mut Self)
        ensures
            r@ == old(self)@.push(item@),
            *final(self) == *final(r),
    {
        self.items.push(item);
        assert(self@ =~= old(self)@.push(item@));
        self
    }

    /// Produce a `Query` from the builder
    pub fn query(&self) -> (r: Query)
        ensures
            r@ == self@,
    {
        let mut items: Vec<QueryItem> = Vec::new();
        let mut i: usize = 0;
        while i < self.items.len()
            invariant
                i <= self.items.len(),
                items@.len() == i,
                forall|j: int| 0 <= j < i ==> items@[j]@ == self.items@[j]@,
            decreases self.items.len() - i,
        {
            items.push(self.items[i].build());
            i = i + 1;
        }
        let r = Query { items };
        assert(r@ =~= self@);
        r
    }

    pub fn to_string(&self) -> (s: String)
        ensures
            s@ == query_text(self@),
    {
        let mut s = String::new();
        let mut i: usize = 0;
        assert(self@.take(0) =~= Seq::<Item>::empty());
        while i < self.items.len()
            invariant
                i <= self.items.len(),
                self@.len() == self.items.len(),
                s@ == query_text(self@.take(i as int)),
            decreases self.items.len() - i,
        {
            let part = self.items[i].to_string();
            s.append(part.as_str());
            s.append("\n");
            proof {
                let next = self@.take(i as int + 1);
                assert(next.drop_last() =~= self@.take(i as int));
                assert(next.last() == self.items@[i as int]@);
            }
            i = i + 1;
        }
        assert(self@.take(i as int) =~= self@);
        s
    }
}

impl Clone for Query {
    fn clone(&self) -> (r: Self)
        ensures
            r@ == self@,
    {
        self.query()
    }
}

/// A list of queries, the form in which the event log takes them.
pub struct QueryList {
    queries: Vec<Query>,
}

impl View for QueryList {
    type V = Seq<Seq<Item>>;

    closed spec fn view(&self) -> Seq<Seq<Item>> {
        Seq::new(self.queries@.len(), |i: int| self.queries@[i]@)
    }
}

impl Default for QueryList {
    fn default() -> (r: Self)
        ensures
            r@ == Seq::<Seq<Item>>::empty(),
    {
        let r = QueryList { queries: Vec::new() };
        assert(r@ =~= Seq::<Seq<Item>>::empty());
        r
    }
}

impl QueryList {
    /// Create a new `QueryList`
    pub fn new() -> (r: QueryList)
        ensures
            r@ == Seq::<Seq<Item>>::empty(),
    {
        let r = QueryList { queries: Vec::new() };
        assert(r@ =~= Seq::<Seq<Item>>::empty());
        r
    }

    /// Add a `Query` to a `QueryList`
    pub fn with_query(&mut self, query: Query) -> (r: &mut Self)
        ensures
            r@ == old(self)@.push(query@),
            *final(self) == *final(r),
    {
        self.queries.push(query);
        assert(self@ =~= old(self)@.push(query@));
        self
    }

    /// Prepare `QueryList` for use
    pub fn build(&self) -> (r: QueryList)
        ensures
            r@ == self@,
    {
        let mut queries: Vec<Query> = Vec::new();
        let mut i: usize = 0;
        while i < self.queries.len()
            invariant
                i <= self.queries.len(),
                queries@.len() == i,
                forall|j: int| 0 <= j < i ==> queries@[j]@ == self.queries@[j]@,
            decreases self.queries.len() - i,
        {
            queries.push(self.queries[i].query());
            i = i + 1;
        }
        let r = QueryList { queries };
        assert(r@ =~= self@);
        r
    }

    pub fn to_string(&self) -> (s: String)
        ensures
            s@ == list_text(self@),
    {
        let mut s = String::from_str("<QueryList>");
        let mut i: usize = 0;
        assert(self@.take(0) =~= Seq::<Seq<Item>>::empty());
        while i < self.queries.len()
            invariant
                i <= self.queries.len(),
                self@.len() == self.queries.len(),
                s@ == "<QueryList>"@ + queries_text(self@.take(i as int)),
            decreases self.queries.len() - i,
        {
            s.append("\n<Query Id=\"");
            push_decimal(&mut s, i as u64);
            s.append("\">\n");
            let part = self.queries[i].to_string();
            s.append(part.as_str());
            s.append("</Query>");
            proof {
                let next = self@.take(i as int + 1);
                assert(next.drop_last() =~= self@.take(i as int));
                assert(next.last() == self.queries@[i as int]@);
                assert(s@ =~= "<QueryList>"@ + queries_text(next));
            }
            i = i + 1;
        }
        assert(self@.take(i as int) =~= self@);
        s.append("\n</QueryList>");
        s
    }
}

impl Clone for QueryList {
    fn clone(&self) -> (r: Self)
        ensures
            r@ == self@,
    {
        self.build()
    }
}

impl IntoText for QueryList {
    open spec fn text(&self) -> Seq<char> {
        list_text(self@)
    }

    fn into_text(self) -> (s: String) {
        self.to_string()
    }
}

} // verus!
