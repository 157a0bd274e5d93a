//! A typed client library for a social-networking HTTP + WebSocket API.
//!
//! The heart of the library is verified: the `Link`-header parser and the
//! page engine that turn one HTTP response into a navigable batch of
//! entities, and the streaming event decoder that turns a line-oriented
//! source into typed events.  Network transport stays outside; the library
//! exposes the decisions (which URL to fetch next, what a frame means) as
//! verified functions that a driver feeds with plain values.

pub mod client;
pub mod codec;
pub mod entities;
pub mod errors;
pub mod event_stream;
pub mod link;
pub mod page;
pub mod strutil;

pub use errors::ApiError;
pub use errors::Error;
pub use event_stream::EventReader;
pub use event_stream::EventStream;
pub use event_stream::FrameDecoder;
pub use event_stream::Pull;
pub use page::ItemsIter;
pub use page::IterStep;
pub use page::Page;
