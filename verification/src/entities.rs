//! Entities returned from the API.
//!
//! The library keeps each entity as plain values: strings, integers,
//! booleans, and — for the rich status and notification objects, whose
//! schema belongs to the server — the JSON text the server sent.

use vstd::prelude::*;

pub mod account;
pub mod announcement;
pub mod application;
pub mod attachment;
pub mod card;
pub mod context;
pub mod event;
pub mod notification;
pub mod push;
pub mod status;
pub mod visibility;

verus! {

/// An empty JSON object.
#[derive(Debug, Copy, Clone, PartialEq, Eq, Structural)]
pub struct Empty {}

} // verus!
