//! The fetched metadata document.
//!
//! The document a device serves is treated as an opaque payload of which
//! the core reads only the `title` and `id` fields. Extension payloads
//! attached through the discoverer's extension identity are carried as an
//! open name-to-payload mapping: the network shell stores, under each
//! attached extension name, the raw payload it found in the response body.
//! This trades the static guarantees of a compile-time field set for
//! runtime flexibility, which is what the verified core can state laws
//! about.

use vstd::prelude::*;
use crate::props::{kv_view, lookup, lookup_value};

verus! {

/// The self-describing metadata payload fetched from a discovered device,
/// reduced to what the core reads.
#[derive(Debug, Clone, PartialEq, Eq)]
pub struct Document {
    /// The document's title.
    pub title: String,
    /// The document's identifier, when the device advertises one.
    pub id: Option<String>,
    /// Extension payloads, one per attached extension name, in attachment
    /// order.
    pub extensions: Vec<(String, String)>,
}

impl Document {
    /// The raw payload stored under the extension `name`, if any; the
    /// name is matched without regard to ASCII case, as property keys
    /// are.
    pub open spec fn spec_extension(self, name: Seq<char>) -> Option<Seq<char>> {
        lookup(kv_view(self.extensions@), name)
    }

    /// Look up the raw payload stored under the extension `name`.
    pub fn extension(&self, name: &str) -> (r: Option<String>)
        ensures
            r is Some <==> self.spec_extension(name@) is Some,
            r is Some ==> r.unwrap()@ == self.spec_extension(name@).unwrap(),
    {
        lookup_value(&self.extensions, name)
    }
}

} // verus!
