use vstd::prelude::*;
use vstd::string::StringExecFns;
use crate::text::IntoText;

verus! {

/// Matches the events of one computer, by name.
pub struct Computer {
    name: String,
}

impl View for Computer {
    type V = Seq<char>;

    closed spec fn view(&self) -> Seq<char> {
        self.name@
    }
}

impl Computer {
    /// The filter as it is written in a query.
    pub open spec fn text(&self) -> Seq<char> {
        "System[@Computer = '"@ + self@ + "']"@
    }

    pub fn new<T: IntoText>(name: T) -> (r: Computer)
        ensures
            r@ == name.text(),
    {
        Computer { name: name.into_text() }
    }

    pub fn to_string(&self) -> (s: String)
        ensures
            s@ == self.text(),
    {
        let mut s = String::from_str("System[@Computer = '");
        s.append(self.name.as_str());
        s.append("']");
        s
    }
}

impl Clone for Computer {
    fn clone(&self) -> (r: Self)
        ensures
            r@ == self@,
    {
        Computer { name: self.name.clone() }
    }
}

} // verus!
