//! Account-related entities.

use vstd::prelude::*;
use vstd::string::StringExecFns;

verus! {

/// A profile field: a name-value pair shown on an account.
#[derive(Debug, Clone, PartialEq)]
pub struct MetadataField {
    name: String,
    value: String,
}

impl View for MetadataField {
    type V = (Seq<char>, Seq<char>);

    closed spec fn view(&self) -> Self::V {
        (self.name@, self.value@)
    }
}

impl MetadataField {
    /// Create a new profile field.
    pub fn new(name: &str, value: &str) -> (r: MetadataField)
        ensures
            r@ == (name@, value@),
    {
        MetadataField { name: String::from_str(name), value: String::from_str(value) }
    }

    /// The name part of the field.
    pub fn name(&self) -> (r: &str)
        ensures
            r@ == self@.0,
    {
        self.name.as_str()
    }

    /// The value part of the field.
    pub fn value(&self) -> (r: &str)
        ensures
            r@ == self@.1,
    {
        self.value.as_str()
    }
}

} // verus!
