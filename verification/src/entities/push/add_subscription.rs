//! Entities for adding a push subscription.

use vstd::prelude::*;

use crate::entities::push::Alerts;

verus! {

/// The keys of a new push subscription.
#[derive(Debug, Clone, PartialEq)]
pub struct Keys {
    /// The user's public key.
    pub p256dh: String,
    /// The shared authentication secret.
    pub auth: String,
}

/// The endpoint and keys of a new push subscription.
#[derive(Debug, Clone, PartialEq)]
pub struct Subscription {
    /// Where push payloads are delivered.
    pub endpoint: String,
    /// The keys that payloads are encrypted against.
    pub keys: Keys,
}

/// The alert settings sent along with a new subscription.
#[derive(Debug, Clone, Copy, PartialEq, Eq, Structural)]
pub struct Data {
    /// Which alerts the subscription wants.
    pub alerts: Option<Alerts>,
}

/// The request form for adding a push subscription.
#[derive(Debug, Clone, PartialEq)]
pub struct Form {
    /// The subscription to add.
    pub subscription: Subscription,
    /// Its alert settings, when any are given.
    pub data: Option<Data>,
}

} // verus!
