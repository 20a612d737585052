//! The discoverer facade.
//!
//! A discoverer carries the fixed service type browsed for and the
//! identity of the extensions attached to it. The extension identity is an
//! ordered, append-only composition: attaching never removes or reorders
//! what was attached before. It is carried here as a list of extension
//! names rather than as a compile-time type list — the open-mapping
//! re-expression of the extension mechanism — so that its laws are stated
//! and checked rather than implicit in the type system.
//!
//! The session and client handles the network shell needs are owned by the
//! shell; it reads the service type and the extension identity from here.

use vstd::prelude::*;
use crate::props::strings_view;

verus! {

/// The discoverer: the fixed service type and the extension identity.
#[derive(Debug, Clone)]
pub struct Discoverer {
    service_type: String,
    extensions: Vec<String>,
}

impl Discoverer {
    /// The service type this discoverer browses for.
    pub closed spec fn spec_service_type(self) -> Seq<char> {
        self.service_type@
    }

    /// The ordered identity of the attached extensions.
    pub closed spec fn spec_extensions(self) -> Seq<Seq<char>> {
        strings_view(self.extensions@)
    }

    /// Create a new discoverer: the fixed Web of Things service type, no
    /// extensions attached.
    pub fn new() -> (d: Discoverer)
        ensures
            d.spec_service_type() == "_wot._tcp.local."@,
            d.spec_extensions() == Seq::<Seq<char>>::empty(),
    {
        let d = Discoverer { service_type: "_wot._tcp.local.".to_owned(), extensions: Vec::new() };
        proof {
            assert(d.spec_extensions() =~= Seq::<Seq<char>>::empty());
        }
        d
    }

    /// Attach the extension `name`, consuming this discoverer.
    ///
    /// Composition is append-only: the new identity is the old one with
    /// `name` appended, every previously attached extension kept in place.
    pub fn ext(self, name: String) -> (d: Discoverer)
        ensures
            d.spec_service_type() == self.spec_service_type(),
            d.spec_extensions() == self.spec_extensions().push(name@),
    {
        let Discoverer { service_type, mut extensions } = self;
        let ghost before = extensions@;
        extensions.push(name);
        let d = Discoverer { service_type, extensions };
        proof {
            assert(d.spec_extensions() =~= strings_view(before).push(name@));
        }
        d
    }

    /// The service type this discoverer browses for.
    pub fn service_type(&self) -> (s: &str)
        ensures
            s@ == self.spec_service_type(),
    {
        self.service_type.as_str()
    }

    /// The names of the attached extensions, in attachment order.
    pub fn extensions(&self) -> (names: &Vec<String>)
        ensures
            strings_view(names@) == self.spec_extensions(),
    {
        &self.extensions
    }
}

/// Extension composition is associative: composing identities is sequence
/// concatenation, and grouping does not matter.
pub proof fn lemma_composition_associative(
    xs: Seq<Seq<char>>,
    ys: Seq<Seq<char>>,
    zs: Seq<Seq<char>>,
)
    ensures
        (xs + ys) + zs == xs + (ys + zs),
{
    assert((xs + ys) + zs =~= xs + (ys + zs));
}

/// Extension composition is order-preserving: attaching `t1` and then
/// `t2` appends both, in that order, after everything already attached.
pub proof fn lemma_composition_order(e: Seq<Seq<char>>, t1: Seq<char>, t2: Seq<char>)
    ensures
        e.push(t1).push(t2) == e + seq![t1, t2],
        e.push(t1).push(t2)[e.len() as int] == t1,
        e.push(t1).push(t2)[e.len() as int + 1] == t2,
        forall|i: int| 0 <= i < e.len() ==> e.push(t1).push(t2)[i] == e[i],
{
    assert(e.push(t1).push(t2) =~= e + seq![t1, t2]);
}

} // verus!
