//! The discovered record.
//!
//! One successful fetch yields one record: the fetched document together
//! with the raw network-level discovery information of the announcement
//! that triggered it, and the scheme the fetch was resolved to. The record
//! is owned exclusively by the consumer once yielded.

use vstd::prelude::*;
use crate::announcement::Announcement;
use crate::document::Document;
use crate::props::strings_view;
use crate::resolver::scheme_of;

verus! {

/// A discovered Thing and its network-level discovery information.
#[derive(Debug, Clone)]
pub struct Discovered {
    /// The fetched document, as presented by the discovered device.
    pub thing: Document,
    info: Announcement,
    scheme: String,
}

impl Discovered {
    /// The fetched document this record carries.
    pub closed spec fn spec_thing(self) -> Document {
        self.thing
    }

    /// The announcement this record was fetched for.
    pub closed spec fn spec_info(self) -> Announcement {
        self.info
    }

    /// The scheme the fetch was resolved to.
    pub closed spec fn spec_scheme(self) -> Seq<char> {
        self.scheme@
    }

    /// Whether this record's scheme is the one the resolution policy
    /// derives from its own announcement: the `scheme` property verbatim,
    /// else the legacy `tls` fallback, else `http`. The stream's packaging
    /// function establishes this for every record it yields.
    pub open spec fn scheme_follows_policy(self) -> bool {
        self.spec_scheme() == scheme_of(
            self.spec_info().prop("scheme"@),
            self.spec_info().prop("tls"@),
        )
    }

    /// Package a fetched document with the announcement it was fetched for
    /// and the resolved scheme; the stream's packaging function, the one
    /// caller, derives the scheme from that same announcement.
    pub(crate) fn new(thing: Document, info: Announcement, scheme: String) -> (d: Discovered)
        ensures
            d.spec_thing() == thing,
            d.spec_info() == info,
            d.spec_scheme() == scheme@,
    {
        Discovered { thing, info, scheme }
    }

    /// The discovered device's advertised addresses, in announcement
    /// order.
    pub fn get_addresses(&self) -> (addresses: Vec<String>)
        ensures
            strings_view(addresses@) == strings_view(self.spec_info().addresses@),
    {
        let source = &self.info.addresses;
        let mut addresses: Vec<String> = Vec::new();
        let mut i: usize = 0;
        while i < source.len()
            invariant
                i <= source.len(),
                addresses@.len() == i,
                forall|j: int| 0 <= j < i ==> addresses@[j]@ == source@[j]@,
            decreases source.len() - i,
        {
            addresses.push(source[i].clone());
            i = i + 1;
        }
        proof {
            assert(strings_view(addresses@) =~= strings_view(self.spec_info().addresses@));
        }
        addresses
    }

    /// The discovered device's advertised port.
    pub fn get_port(&self) -> (port: u16)
        ensures
            port == self.spec_info().port,
    {
        self.info.port
    }

    /// The discovered device's hostname, as used for TLS requests.
    pub fn get_hostname(&self) -> (hostname: &str)
        ensures
            hostname@ == self.spec_info().hostname@,
    {
        self.info.hostname.as_str()
    }

    /// The scheme the fetch was resolved to. For every record the stream
    /// yields, [`Discovered::scheme_follows_policy`] holds, so this is the
    /// scheme the policy derives from the record's own announcement.
    pub fn get_scheme(&self) -> (scheme: &str)
        ensures
            scheme@ == self.spec_scheme(),
            self.scheme_follows_policy() ==> scheme@ == scheme_of(
                self.spec_info().prop("scheme"@),
                self.spec_info().prop("tls"@),
            ),
    {
        self.scheme.as_str()
    }
}

} // verus!
