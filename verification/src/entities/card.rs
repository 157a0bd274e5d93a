//! Preview card kinds.

use vstd::prelude::*;

verus! {

/// The type of a preview card.
#[derive(Debug, Clone, Copy, PartialEq, Eq, Structural)]
pub enum CardType {
    /// A plain link.
    Link,
    /// A photo embed.
    Photo,
    /// A video embed.
    Video,
    /// A rich embed.
    Rich,
}

} // verus!
