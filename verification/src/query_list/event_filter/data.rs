use vstd::prelude::*;
use vstd::string::StringExecFns;
use crate::text::IntoText;

verus! {

/// Matches the event data that has a given name.
pub struct Name {
    name: String,
}

impl View for Name {
    type V = Seq<char>;

    closed spec fn view(&self) -> Seq<char> {
        self.name@
    }
}

impl Name {
    /// The filter as it is written in a query.
    pub open spec fn text(&self) -> Seq<char> {
        "Data[@Name = '"@ + self@ + "']"@
    }

    pub fn new<T: IntoText>(name: T) -> (r: Name)
        ensures
            r@ == name.text(),
    {
        Name { name: name.into_text() }
    }

    pub fn to_string(&self) -> (s: String)
        ensures
            s@ == self.text(),
    {
        let mut s = String::from_str("Data[@Name = '");
        s.append(self.name.as_str());
        s.append("']");
        s
    }
}

impl Clone for Name {
    fn clone(&self) -> (r: Self)
        ensures
            r@ == self@,
    {
        Name { name: self.name.clone() }
    }
}

/// Matches the event data that has a given value.
pub struct Value {
    value: String,
}

impl View for Value {
    type V = Seq<char>;

    closed spec fn view(&self) -> Seq<char> {
        self.value@
    }
}

impl Value {
    /// The filter as it is written in a query.
    pub open spec fn text(&self) -> Seq<char> {
        "Data = '"@ + self@ + "'"@
    }

    pub fn new<T: IntoText>(value: T) -> (r: Value)
        ensures
            r@ == value.text(),
    {
        Value { value: value.into_text() }
    }

    pub fn to_string(&self) -> (s: String)
        ensures
            s@ == self.text(),
    {
        let mut s = String::from_str("Data = '");
        s.append(self.value.as_str());
        s.append("'");
        s
    }
}

impl Clone for Value {
    fn clone(&self) -> (r: Self)
        ensures
            r@ == self@,
    {
        Value { value: self.value.clone() }
    }
}

} // verus!
