//! The discovery stream's per-event policy.
//!
//! The stream turns a browse session's events into fetch results. Its
//! decisions are pure and stand here: [`plan_event`] says what one
//! protocol event leads to (a fetch, an inline error, or nothing), and
//! [`finish_fetch`] says what one completed fetch yields downstream. The
//! network shell drives them: it performs the planned fetch, concurrently
//! across announcements, and emits what `finish_fetch` returns in
//! completion order.

use vstd::prelude::*;
use crate::announcement::{Announcement, AnnouncementEvent};
use crate::document::Document;
use crate::discovered::Discovered;
use crate::error::Error;
use crate::resolver::{path_of, resolve, resolve_scheme, scheme_of, ResolvedTarget};

verus! {

/// What one protocol event leads to.
#[derive(Debug, Clone)]
pub enum StreamStep {
    /// The event resolved a service: fetch the document of `target`, then
    /// finish with the carried announcement.
    Fetch(Announcement, ResolvedTarget),
    /// The event resolved a service whose announcement is unusable: emit
    /// this error downstream without issuing any request.
    Emit(Error),
    /// A lifecycle event that produces no output.
    Skip,
}

/// How the network round-trip of one fetch ended.
#[derive(Debug, Clone)]
pub enum FetchOutcome {
    /// The response body decoded into a document.
    Body(Document),
    /// The HTTP layer failed: connection error, bad status or an
    /// unreadable body, described by its message.
    Failed(String),
    /// The response arrived but its body did not match the expected
    /// document shape.
    Undecodable(String),
}

/// Decide what one protocol event leads to.
///
/// Only a `ServiceResolved` event produces output: a fetch plan for its
/// resolved target, or an inline [`Error::NoAddress`] when the
/// announcement carries no address, in which case no request is issued.
/// Every other lifecycle event is skipped: no output, no error.
pub fn plan_event(event: AnnouncementEvent) -> (step: StreamStep)
    ensures
        match event {
            AnnouncementEvent::ServiceResolved(a) => {
                if a.addresses@.len() == 0 {
                    step == StreamStep::Emit(Error::NoAddress)
                } else {
                    match step {
                        StreamStep::Fetch(announcement, t) => {
                            &&& announcement == a
                            &&& t.host@ == a.addresses@[0]@
                            &&& t.port == a.port
                            &&& t.path@ == path_of(a.prop("td"@))
                            &&& t.scheme@ == scheme_of(a.prop("scheme"@), a.prop("tls"@))
                        },
                        _ => false,
                    }
                }
            },
            _ => step == StreamStep::Skip,
        },
{
    match event {
        AnnouncementEvent::ServiceResolved(a) => match resolve(&a) {
            Ok(target) => StreamStep::Fetch(a, target),
            Err(e) => StreamStep::Emit(e),
        },
        _ => StreamStep::Skip,
    }
}

/// Turn one completed fetch into the stream item it yields.
///
/// A decoded body is packaged as a [`Discovered`] record carrying the
/// document, the raw announcement, and the scheme the resolution policy
/// derives from that same announcement — the record cannot report a
/// scheme its own announcement did not resolve to. A failed round-trip
/// becomes an inline [`Error::Reqwest`], and a body that did not match
/// the document shape an inline [`Error::Deserialization`]. Either way
/// the item is one value of the stream: a failure never ends the stream
/// itself.
pub fn finish_fetch(announcement: Announcement, outcome: FetchOutcome) -> (r: Result<
    Discovered,
    Error,
>)
    ensures
        match outcome {
            FetchOutcome::Body(document) => match r {
                Ok(d) => {
                    &&& d.spec_thing() == document
                    &&& d.spec_info() == announcement
                    &&& d.spec_scheme() == scheme_of(
                        announcement.prop("scheme"@),
                        announcement.prop("tls"@),
                    )
                    &&& d.scheme_follows_policy()
                },
                Err(_) => false,
            },
            FetchOutcome::Failed(message) => r == Err::<Discovered, Error>(
                Error::Reqwest(message),
            ),
            FetchOutcome::Undecodable(message) => r == Err::<Discovered, Error>(
                Error::Deserialization(message),
            ),
        },
{
    match outcome {
        FetchOutcome::Body(document) => {
            let scheme = resolve_scheme(&announcement);
            Ok(Discovered::new(document, announcement, scheme))
        },
        FetchOutcome::Failed(message) => Err(Error::Reqwest(message)),
        FetchOutcome::Undecodable(message) => Err(Error::Deserialization(message)),
    }
}

} // verus!
