//! Contexts of statuses.

use vstd::prelude::*;

use crate::entities::status::Status;

verus! {

/// The context of a status: the statuses it replied to and the statuses
/// that replied to it.
#[derive(Debug, Clone, PartialEq)]
pub struct Context {
    /// Statuses that were replied to.
    pub ancestors: Vec<Status>,
    /// Statuses that replied to this status.
    pub descendants: Vec<Status>,
}

impl View for Context {
    type V = (Seq<Seq<char>>, Seq<Seq<char>>);

    open spec fn view(&self) -> Self::V {
        (self.ancestors.deep_view(), self.descendants.deep_view())
    }
}

} // verus!
