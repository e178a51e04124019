//! Frame broadcast and connection-multiplexing engine.
//!
//! A fixed-rate producer publishes opaque binary payloads (encoded video
//! frames) into a bounded fan-out channel; an unbounded, churning set of
//! subscribers each reads the stream through an independent cursor. A slow
//! subscriber never stalls the producer or any other subscriber: a cursor
//! that lags behind the retained window is snapped forward to the oldest
//! retained payload (lossy delivery instead of backpressure).
//!
//! The modules hold, respectively: the fan-out channel itself
//! ([`channel`]), the per-connection session state machine ([`session`]),
//! the decision logic of the top-level scheduler loop ([`scheduler`]), the
//! startup configuration and its defaults ([`config`]), and the output
//! frame geometry ([`frame`]).

pub mod channel;
pub mod config;
pub mod frame;
pub mod scheduler;
pub mod session;
