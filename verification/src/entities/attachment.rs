//! Media attachment kinds.

use vstd::prelude::*;

verus! {

/// The media type of an attachment.
#[derive(Debug, Clone, Copy, PartialEq, Eq, Structural)]
pub enum MediaType {
    /// An image.
    Image,
    /// A video file.
    Video,
    /// A gifv format file.
    Gifv,
    /// An audio file.
    Audio,
    /// Unknown format.
    Unknown,
}

} // verus!
