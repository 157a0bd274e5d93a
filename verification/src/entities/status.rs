//! The status entity.

use vstd::prelude::*;

verus! {

/// A status, carried as the JSON text the server sent; the schema of
/// the object itself is the server's concern, not this library's.
#[derive(Clone, Debug, PartialEq)]
pub struct Status {
    json: String,
}

impl View for Status {
    type V = Seq<char>;

    closed spec fn view(&self) -> Seq<char> {
        self.json@
    }
}

impl DeepView for Status {
    type V = Seq<char>;

    open spec fn deep_view(&self) -> Seq<char> {
        self.view()
    }
}

impl Status {
    /// Wrap the JSON text of one status.
    pub fn from_json(json: String) -> (r: Status)
        ensures
            r@ == json@,
    {
        Status { json }
    }

    /// The JSON text of this status.
    pub fn json(&self) -> (r: &str)
        ensures
            r@ == self@,
    {
        self.json.as_str()
    }
}

} // verus!
