//! Discovery engine for network-attached Things.
//!
//! Devices advertise themselves on the local network through a
//! service-discovery protocol; each carries a self-describing metadata
//! document reachable over HTTP. This crate holds the verified core of the
//! discovery pipeline: the policy that turns a protocol announcement into a
//! fetch target (host, port, path and transport scheme), the per-event
//! decision of the discovery stream, the assembly of discovered records,
//! and the append-only extension identity of the discoverer.
//!
//! The network shell around this core (the service-discovery daemon, the
//! HTTP client and the asynchronous stream plumbing) lives outside the
//! verified library and hands it plain values.

pub mod announcement;
pub mod discovered;
pub mod discoverer;
pub mod document;
pub mod error;
pub mod props;
pub mod resolver;
pub mod stream;

pub use announcement::{Announcement, AnnouncementEvent};
pub use discovered::Discovered;
pub use discoverer::Discoverer;
pub use document::Document;
pub use error::Error;
pub use props::lookup_value;
pub use resolver::{resolve, u16_to_dec, ResolvedTarget};
pub use stream::{finish_fetch, plan_event, FetchOutcome, StreamStep};
