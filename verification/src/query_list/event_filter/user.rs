use vstd::prelude::*;
use vstd::string::StringExecFns;

verus! {

/// Matches the events of one user, by security identifier.
pub struct User {
    sid: String,
}

impl View for User {
    type V = Seq<char>;

    closed spec fn view(&self) -> Seq<char> {
        self.sid@
    }
}

impl User {
    /// The filter as it is written in a query.
    pub open spec fn text(&self) -> Seq<char> {
        "Security[@UserID = '"@ + self@ + "']"@
    }

    pub fn new(sid: String) -> (r: User)
        ensures
            r@ == sid@,
    {
        User { sid }
    }

    pub fn to_string(&self) -> (s: String)
        ensures
            s@ == self.text(),
    {
        let mut s = String::from_str("Security[@UserID = '");
        s.append(self.sid.as_str());
        s.append("']");
        s
    }
}

impl Clone for User {
    fn clone(&self) -> (r: Self)
        ensures
            r@ == self@,
    {
        User { sid: self.sid.clone() }
    }
}

} // verus!
