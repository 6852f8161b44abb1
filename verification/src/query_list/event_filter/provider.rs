use vstd::prelude::*;
use vstd::string::StringExecFns;
use crate::text::IntoText;

verus! {

/// Matches the events of one provider, by name.
pub struct Provider {
    name: String,
}

impl View for Provider {
    type V = Seq<char>;

    closed spec fn view(&self) -> Seq<char> {
        self.name@
    }
}

impl Provider {
    /// The filter as it is written in a query.
    pub open spec fn text(&self) -> Seq<char> {
        "Provider[@Name = '"@ + self@ + "']"@
    }

    pub fn new<T: IntoText>(name: T) -> (r: Provider)
        ensures
            r@ == name.text(),
    {
        Provider { name: name.into_text() }
    }

    pub fn to_string(&self) -> (s: String)
        ensures
            s@ == self.text(),
    {
        let mut s = String::from_str("Provider[@Name = '");
        s.append(self.name.as_str());
        s.append("']");
        s
    }
}

impl Clone for Provider {
    fn clone(&self) -> (r: Self)
        ensures
            r@ == self@,
    {
        Provider { name: self.name.clone() }
    }
}

} // verus!
