//! The notification entity.

use vstd::prelude::*;

verus! {

/// A notification, carried as the JSON text the server sent; the schema
/// of the object itself is the server's concern, not this library's.
#[derive(Clone, Debug, PartialEq)]
pub struct Notification {
    json: String,
}

impl View for Notification {
    type V = Seq<char>;

    closed spec fn view(&self) -> Seq<char> {
        self.json@
    }
}

impl DeepView for Notification {
    type V = Seq<char>;

    open spec fn deep_view(&self) -> Seq<char> {
        self.view()
    }
}

impl Notification {
    /// Wrap the JSON text of one notification.
    pub fn from_json(json: String) -> (r: Notification)
        ensures
            r@ == json@,
    {
        Notification { json }
    }

    /// The JSON text of this notification.
    pub fn json(&self) -> (r: &str)
        ensures
            r@ == self@,
    {
        self.json.as_str()
    }
}

} // verus!
