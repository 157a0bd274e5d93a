//! The visibility of a status.

use vstd::prelude::*;

verus! {

/// The visibility of a status.
#[derive(Clone, Copy, Debug, PartialEq, Eq, Structural)]
pub enum Visibility {
    /// A direct message to a user.
    Direct,
    /// Only available to followers.
    Private,
    /// Not shown in public timelines.
    Unlisted,
    /// Posted to public timelines.
    Public,
}

impl Default for Visibility {
    /// A status is public unless something narrows it.
    fn default() -> (r: Self)
        ensures
            r == Visibility::Public,
    {
        Visibility::Public
    }
}

} // verus!
