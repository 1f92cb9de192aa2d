//! Streaming technical-analysis indicators built on a bounded history buffer.
//!
//! Every indicator consumes one input at a time, reports nothing until it has
//! seen enough inputs (its warmup), and keeps a short history of its outputs
//! that can be read back by relative index (0 is the newest, -1 the one
//! before, and so on).
pub mod indicator;
pub mod base;
pub mod compose;

pub use indicator::Indicator;
pub use base::BaseIndicator;
pub use compose::{Chain, Pair};
