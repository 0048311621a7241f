//! Control-plane logic for a fleet of local-network smart outlets.
//!
//! The library covers the command codec (building device query envelopes
//! and decoding response messages into typed data points), the per-outlet
//! operation semantics, the outlet registry, metrics-scrape planning, and
//! the mapping of operation outcomes to HTTP replies.  Transport, HTTP
//! routing and the metrics exporter live outside the library.

pub mod codec;
pub mod envelope;
pub mod errors;
pub mod http_api;
pub mod json;
pub mod outlet;
pub mod registry;
pub mod scrape;

pub use codec::{Dps, Msg, MsgPayload};
pub use envelope::Envelope;
pub use errors::Error;
pub use http_api::HttpReply;
pub use outlet::Outlet;
pub use registry::Registry;
pub use scrape::{GaugeSample, ScrapeReport};
pub use json::JsonVal;
