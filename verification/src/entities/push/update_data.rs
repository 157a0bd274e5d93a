//! Entities for updating the data of a push subscription.

use vstd::prelude::*;

use crate::entities::push::Alerts;

verus! {

/// The alert settings carried by an update.
#[derive(Debug, Clone, Copy, PartialEq, Eq, Structural)]
pub struct Data {
    /// Which alerts the subscription wants.
    pub alerts: Option<Alerts>,
}

/// The request form for updating a push subscription.
#[derive(Debug, Clone, PartialEq)]
pub struct Form {
    /// The id of the subscription to update.
    pub id: String,
    /// The new alert settings.
    pub data: Data,
}

} // verus!
