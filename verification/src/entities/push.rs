//! Push-subscription-related entities.

use vstd::prelude::*;

pub mod add_subscription;
pub mod update_data;

verus! {

/// The `alerts` key of a `Subscription`.
#[derive(Debug, Clone, Copy, PartialEq, Eq, Structural)]
pub struct Alerts {
    /// Flag for follow alerts.
    pub follow: Option<bool>,
    /// Flag for favourite alerts.
    pub favourite: Option<bool>,
    /// Flag for reblog alerts.
    pub reblog: Option<bool>,
    /// Flag for mention alerts.
    pub mention: Option<bool>,
}

impl Default for Alerts {
    /// No alert flag is set.
    fn default() -> (r: Self)
        ensures
            r.follow is None,
            r.favourite is None,
            r.reblog is None,
            r.mention is None,
    {
        Alerts { follow: None, favourite: None, reblog: None, mention: None }
    }
}

/// A push subscription.
#[derive(Debug, Clone, PartialEq)]
pub struct Subscription {
    /// The id of the subscription.
    pub id: String,
    /// The endpoint of the subscription.
    pub endpoint: String,
    /// The server key of the subscription.
    pub server_key: String,
    /// The status of the alerts for this subscription.
    pub alerts: Option<Alerts>,
}

} // verus!
