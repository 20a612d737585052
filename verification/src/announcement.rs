//! The announcement model.
//!
//! A "service resolved" event of the discovery protocol carries everything
//! needed to attempt a fetch: the advertised addresses, the port, the
//! hostname and the key/value metadata. The network shell converts the
//! protocol's own record into this plain form before handing it to the
//! verified core.

use vstd::prelude::*;
use crate::props::{kv_view, lookup};

verus! {

/// One resolved service announcement, as plain values.
///
/// Addresses are kept in the order the protocol layer handed them out;
/// address selection is first-wins over this list.
#[derive(Debug, Clone)]
pub struct Announcement {
    /// Advertised addresses, textual form, in announcement order.
    pub addresses: Vec<String>,
    /// Advertised port.
    pub port: u16,
    /// Advertised hostname, as used for TLS requests.
    pub hostname: String,
    /// Advertised key/value properties, keys in whatever case the wire
    /// carried them; lookup ignores ASCII key case.
    pub properties: Vec<(String, String)>,
}

impl Announcement {
    /// The value the announcement advertises under `key`, if any.
    pub open spec fn prop(self, key: Seq<char>) -> Option<Seq<char>> {
        lookup(kv_view(self.properties@), key)
    }
}

/// One event of a discovery browse session.
///
/// Only `ServiceResolved` leads to a fetch; every other lifecycle event is
/// ignored by the stream.
#[derive(Debug, Clone)]
pub enum AnnouncementEvent {
    /// A browse for the service type started.
    SearchStarted(String),
    /// A service instance was found but not resolved yet.
    ServiceFound(String, String),
    /// A service instance was resolved: a fetch can be attempted.
    ServiceResolved(Announcement),
    /// A service instance went away.
    ServiceRemoved(String, String),
    /// The browse stopped.
    SearchStopped(String),
}

} // verus!
